//! Peripheral sets that are handed out once.
//!
//! The board has two of them, the core set and the device set. Whoever
//! claims a set first owns its registers for as long as the program runs;
//! nobody gets it a second time.

use vstd::prelude::*;

verus! {

/// A peripheral set, free or claimed. There is no way back from claimed.
#[derive(Debug)]
pub struct PeripheralSet {
    claimed: bool,
}

impl PeripheralSet {
    /// Whether the set has been handed out.
    pub closed spec fn is_claimed(self) -> bool {
        self.claimed
    }

    /// Whether a claim made now is granted.
    pub open spec fn grants(self) -> bool {
        !self.is_claimed()
    }

    /// The set after a claim, granted or not.
    pub closed spec fn after_claim(self) -> PeripheralSet {
        PeripheralSet { claimed: true }
    }

    /// The set after `n` claims in a row.
    pub open spec fn after_claims(self, n: nat) -> PeripheralSet
        decreases n,
    {
        if n == 0 {
            self
        } else {
            self.after_claims((n - 1) as nat).after_claim()
        }
    }

    /// How many of `n` claims in a row are granted.
    pub open spec fn granted_of(self, n: nat) -> nat
        decreases n,
    {
        if n == 0 {
            0
        } else {
            let before = self.granted_of((n - 1) as nat);
            if self.after_claims((n - 1) as nat).grants() {
                before + 1
            } else {
                before
            }
        }
    }

    /// A set that nobody has claimed.
    pub fn free() -> (set: PeripheralSet)
        ensures
            !set.is_claimed(),
    {
        PeripheralSet { claimed: false }
    }

    /// Whether the set has been handed out.
    pub fn claimed(&self) -> (claimed: bool)
        ensures
            claimed == self.is_claimed(),
    {
        self.claimed
    }

    /// Claims the set. The claim is granted if the set was free, and the set
    /// is claimed from then on, whether this claim was granted or not.
    pub fn claim(&mut self) -> (granted: bool)
        ensures
            granted == old(self).grants(),
            *final(self) == old(self).after_claim(),
            final(self).is_claimed(),
    {
        let granted = !self.claimed;
        self.claimed = true;
        granted
    }
}

/// The peripheral sets of the board.
#[derive(Debug)]
pub struct Board {
    /// The processor's own peripherals, the trace port and the system timer
    /// among them.
    pub core: PeripheralSet,
    /// The peripherals of the microcontroller around it: clocks, GPIO ports
    /// and the I2C bus.
    pub device: PeripheralSet,
}

impl Board {
    /// Whether neither set has been handed out.
    pub open spec fn is_fresh(self) -> bool {
        !self.core.is_claimed() && !self.device.is_claimed()
    }

    /// The board after bring-up has entered it: the core set is claimed, and
    /// so is the device set unless bring-up was refused the core set.
    pub open spec fn entered(self) -> Board {
        Board {
            core: self.core.after_claim(),
            device: if self.core.is_claimed() {
                self.device
            } else {
                self.device.after_claim()
            },
        }
    }

    /// The board as it is after reset: both sets free.
    pub fn power_on() -> (board: Board)
        ensures
            board.is_fresh(),
    {
        Board { core: PeripheralSet::free(), device: PeripheralSet::free() }
    }
}

/// A claimed set stays claimed, and a claim on it is refused.
pub proof fn lemma_claimed_for_good(set: PeripheralSet)
    ensures
        set.after_claim().is_claimed(),
        !set.after_claim().grants(),
        set.is_claimed() ==> set.after_claim() == set,
{
}

/// A set is handed out once: of any number of claims in a row on a free set
/// the first is granted and no other, and on a claimed set none is.
pub proof fn lemma_claim_granted_once(set: PeripheralSet, n: nat)
    ensures
        n > 0 ==> set.after_claims(n).is_claimed(),
        !set.is_claimed() && n > 0 ==> set.granted_of(n) == 1,
        set.is_claimed() ==> set.granted_of(n) == 0 && set.after_claims(n) == set,
    decreases n,
{
    if n > 0 {
        let before = (n - 1) as nat;
        lemma_claim_granted_once(set, before);
        lemma_claimed_for_good(set.after_claims(before));
        if before == 0 {
            assert(set.after_claims(before) == set);
            assert(set.granted_of(before) == 0);
        }
    }
}

} // verus!
