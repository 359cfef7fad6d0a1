//! Bring-up: the one-time sequence that puts the board into a usable state.
//!
//! The sequencer names one action at a time. The firmware performs it and
//! reports the outcome, and the sequencer moves on: to the next step, to
//! `Ready` after the last one, or to `Halted` at the first failure. There is
//! no retry and no way out of `Ready` or `Halted`.
//!
//! A `Board` records which peripheral sets have been handed out. Bring-up
//! claims both sets on it when it begins, so a second bring-up on the same
//! board is refused before it touches a register; the first two steps then
//! take the registers themselves.

use crate::claim::Board;
use crate::fault::Fault;
use crate::handles::{Handles, BUS_KHZ};
use crate::sensor::{MagDataRate, SensorMode};
use vstd::prelude::*;

verus! {

/// Number of steps in bring-up.
pub const STEPS: usize = 11;

/// A step of bring-up. The steps are listed in the order in which they are
/// taken: each one works on what the steps before it have produced.
#[derive(Clone, Copy, Debug, PartialEq, Eq, Structural)]
pub enum Step {
    /// Take the core peripherals.
    ClaimCore,
    /// Take the device peripherals.
    ClaimDevice,
    /// Set up flash wait states and clock control, and freeze the clocks.
    FreezeClocks,
    /// Split the LED port into pins and build the LED bank from eight of them.
    BuildLeds,
    /// Split the bus port and put its two bus pins into their alternate
    /// function.
    ConfigureBusPins,
    /// Build the I2C bus over the two pins.
    BuildBus,
    /// Build the sensor driver over the bus.
    BuildSensor,
    /// Send the sensor its initialization.
    InitSensor,
    /// Set the sensor's output data rate.
    SetDataRate,
    /// Switch the sensor driver to continuous mode.
    EnterContinuous,
    /// Build the delay provider from the system timer.
    BuildDelay,
}

/// How the firmware fared with an action.
#[derive(Clone, Copy, Debug, PartialEq, Eq, Structural)]
pub enum Outcome {
    /// The action was performed.
    Done,
    /// The action failed.
    Failed,
}

/// What the firmware is to do next.
#[derive(Clone, Copy, Debug, PartialEq, Eq, Structural)]
pub enum BringUpAction {
    /// Take the core peripherals. Fails if they were taken before.
    ClaimCore,
    /// Take the device peripherals. Fails if they were taken before.
    ClaimDevice,
    /// Set up flash wait states and clock control, and freeze the clocks.
    FreezeClocks,
    /// Split the LED port and build the LED bank.
    BuildLeds,
    /// Split the bus port and put the two bus pins into their alternate
    /// function.
    ConfigureBusPins,
    /// Build the I2C bus, clocked at `khz` kilohertz.
    BuildBus { khz: u32 },
    /// Build the sensor driver over the bus.
    BuildSensor,
    /// Send the sensor its initialization. Fails if the transaction does.
    InitSensor,
    /// Set the sensor's output data rate. Fails if the transaction does.
    SetDataRate { rate: MagDataRate },
    /// Switch the sensor driver to continuous mode. Fails if the
    /// transaction does.
    EnterContinuous,
    /// Build the delay provider.
    BuildDelay,
    /// Bring-up is complete: take the handles.
    Finish,
    /// Stop for good.
    Halt { fault: Fault },
}

/// Where bring-up stands.
#[derive(Clone, Copy, Debug, PartialEq, Eq, Structural)]
pub enum Stage {
    /// Every step before this one is done; this one is to be performed.
    Pending(Step),
    /// Every step is done.
    Ready,
    /// This step failed, or the board refused it; nothing follows.
    Halted(Step),
}

impl Step {
    /// Place of the step in the sequence, from 0.
    pub open spec fn index(self) -> int {
        match self {
            Step::ClaimCore => 0,
            Step::ClaimDevice => 1,
            Step::FreezeClocks => 2,
            Step::BuildLeds => 3,
            Step::ConfigureBusPins => 4,
            Step::BuildBus => 5,
            Step::BuildSensor => 6,
            Step::InitSensor => 7,
            Step::SetDataRate => 8,
            Step::EnterContinuous => 9,
            Step::BuildDelay => 10,
        }
    }

    /// The step that follows this one, if any does.
    pub open spec fn following(self) -> Option<Step> {
        match self {
            Step::ClaimCore => Some(Step::ClaimDevice),
            Step::ClaimDevice => Some(Step::FreezeClocks),
            Step::FreezeClocks => Some(Step::BuildLeds),
            Step::BuildLeds => Some(Step::ConfigureBusPins),
            Step::ConfigureBusPins => Some(Step::BuildBus),
            Step::BuildBus => Some(Step::BuildSensor),
            Step::BuildSensor => Some(Step::InitSensor),
            Step::InitSensor => Some(Step::SetDataRate),
            Step::SetDataRate => Some(Step::EnterContinuous),
            Step::EnterContinuous => Some(Step::BuildDelay),
            Step::BuildDelay => None,
        }
    }

    /// The action that performs this step.
    pub open spec fn action(self) -> BringUpAction {
        match self {
            Step::ClaimCore => BringUpAction::ClaimCore,
            Step::ClaimDevice => BringUpAction::ClaimDevice,
            Step::FreezeClocks => BringUpAction::FreezeClocks,
            Step::BuildLeds => BringUpAction::BuildLeds,
            Step::ConfigureBusPins => BringUpAction::ConfigureBusPins,
            Step::BuildBus => BringUpAction::BuildBus { khz: BUS_KHZ },
            Step::BuildSensor => BringUpAction::BuildSensor,
            Step::InitSensor => BringUpAction::InitSensor,
            Step::SetDataRate => BringUpAction::SetDataRate { rate: MagDataRate::Hz10 },
            Step::EnterContinuous => BringUpAction::EnterContinuous,
            Step::BuildDelay => BringUpAction::BuildDelay,
        }
    }

    /// The fault that a failure of this step is: a refused claim for the two
    /// claims, a failed initialization for every other step.
    pub open spec fn fault(self) -> Fault {
        match self {
            Step::ClaimCore | Step::ClaimDevice => Fault::AlreadyClaimed,
            _ => Fault::Initialization,
        }
    }

    /// The step that follows this one; none after the last.
    pub fn next(self) -> (next: Option<Step>)
        ensures
            next == self.following(),
            next matches Some(n) ==> n.index() == self.index() + 1,
            next is None <==> self.index() + 1 == STEPS,
    {
        match self {
            Step::ClaimCore => Some(Step::ClaimDevice),
            Step::ClaimDevice => Some(Step::FreezeClocks),
            Step::FreezeClocks => Some(Step::BuildLeds),
            Step::BuildLeds => Some(Step::ConfigureBusPins),
            Step::ConfigureBusPins => Some(Step::BuildBus),
            Step::BuildBus => Some(Step::BuildSensor),
            Step::BuildSensor => Some(Step::InitSensor),
            Step::InitSensor => Some(Step::SetDataRate),
            Step::SetDataRate => Some(Step::EnterContinuous),
            Step::EnterContinuous => Some(Step::BuildDelay),
            Step::BuildDelay => None,
        }
    }

    /// The action that performs this step, with the values that the board
    /// is set up with.
    pub fn to_action(self) -> (action: BringUpAction)
        ensures
            action == self.action(),
    {
        match self {
            Step::ClaimCore => BringUpAction::ClaimCore,
            Step::ClaimDevice => BringUpAction::ClaimDevice,
            Step::FreezeClocks => BringUpAction::FreezeClocks,
            Step::BuildLeds => BringUpAction::BuildLeds,
            Step::ConfigureBusPins => BringUpAction::ConfigureBusPins,
            Step::BuildBus => BringUpAction::BuildBus { khz: BUS_KHZ },
            Step::BuildSensor => BringUpAction::BuildSensor,
            Step::InitSensor => BringUpAction::InitSensor,
            Step::SetDataRate => BringUpAction::SetDataRate { rate: MagDataRate::Hz10 },
            Step::EnterContinuous => BringUpAction::EnterContinuous,
            Step::BuildDelay => BringUpAction::BuildDelay,
        }
    }

    /// The fault that a failure of this step is.
    pub fn to_fault(self) -> (fault: Fault)
        ensures
            fault == self.fault(),
    {
        match self {
            Step::ClaimCore | Step::ClaimDevice => Fault::AlreadyClaimed,
            _ => Fault::Initialization,
        }
    }
}

impl Stage {
    /// The stage at which nothing is done yet and the first step is pending.
    pub open spec fn first() -> Stage {
        Stage::Pending(Step::ClaimCore)
    }

    /// The stage that bring-up enters on `board`: the first step, if both
    /// peripheral sets are free; else halted at the claim of the first set
    /// that is not.
    pub open spec fn entry(board: Board) -> Stage {
        if board.core.is_claimed() {
            Stage::Halted(Step::ClaimCore)
        } else if board.device.is_claimed() {
            Stage::Halted(Step::ClaimDevice)
        } else {
            Stage::first()
        }
    }

    /// The stage after the firmware has reported `outcome` for the pending
    /// action. `Ready` and `Halted` stay as they are, whatever is reported.
    pub open spec fn after(self, outcome: Outcome) -> Stage {
        match self {
            Stage::Pending(step) => match outcome {
                Outcome::Failed => Stage::Halted(step),
                Outcome::Done => match step.following() {
                    Some(next) => Stage::Pending(next),
                    None => Stage::Ready,
                },
            },
            _ => self,
        }
    }

    /// The action that the firmware is to perform at this stage.
    pub open spec fn action(self) -> BringUpAction {
        match self {
            Stage::Pending(step) => step.action(),
            Stage::Ready => BringUpAction::Finish,
            Stage::Halted(step) => BringUpAction::Halt { fault: step.fault() },
        }
    }

    /// The stage after the outcomes have been reported one by one.
    pub open spec fn run(self, outcomes: Seq<Outcome>) -> Stage
        decreases outcomes.len(),
    {
        if outcomes.len() == 0 {
            self
        } else {
            self.run(outcomes.drop_last()).after(outcomes.last())
        }
    }

    /// Number of steps that are done at this stage.
    pub open spec fn progress(self) -> int {
        match self {
            Stage::Pending(step) => step.index(),
            Stage::Ready => STEPS as int,
            Stage::Halted(step) => step.index(),
        }
    }

    /// The mode of the sensor driver at this stage: none before the driver
    /// is built, idle from then on, continuous once that step is done.
    pub open spec fn sensor_mode(self) -> Option<SensorMode> {
        if self.progress() <= Step::BuildSensor.index() {
            None
        } else if self.progress() <= Step::EnterContinuous.index() {
            Some(SensorMode::Idle)
        } else {
            Some(SensorMode::Continuous)
        }
    }
}

/// The first `n` of the outcomes are all `Done`.
pub open spec fn all_done(outcomes: Seq<Outcome>, n: int) -> bool {
    forall|i: int| 0 <= i < n ==> outcomes[i] == Outcome::Done
}

/// The outcome at place `k` is the first failure.
pub open spec fn first_failure(outcomes: Seq<Outcome>, k: int) -> bool {
    &&& 0 <= k < outcomes.len()
    &&& outcomes[k] == Outcome::Failed
    &&& all_done(outcomes, k)
}

/// The sequencer of bring-up.
#[derive(Debug)]
pub struct BringUp {
    stage: Stage,
}

impl View for BringUp {
    type V = Stage;

    closed spec fn view(&self) -> Stage {
        self.stage
    }
}

impl BringUp {
    /// Starts bring-up on `board` by claiming its peripheral sets, the core
    /// set first. If both were free, the first step is pending. If one was
    /// claimed before, bring-up is halted at the claim that the board
    /// refused, and a set after it is not touched.
    pub fn begin(board: &mut Board) -> (bring_up: BringUp)
        ensures
            bring_up@ == Stage::entry(*old(board)),
            *final(board) == old(board).entered(),
            final(board).core.is_claimed(),
            final(board).device.is_claimed() <==> old(board).device.is_claimed() || !old(
                board,
            ).core.is_claimed(),
    {
        if !board.core.claim() {
            BringUp { stage: Stage::Halted(Step::ClaimCore) }
        } else if !board.device.claim() {
            BringUp { stage: Stage::Halted(Step::ClaimDevice) }
        } else {
            BringUp { stage: Stage::Pending(Step::ClaimCore) }
        }
    }

    /// Where bring-up stands.
    pub fn stage(&self) -> (stage: Stage)
        ensures
            stage == self@,
    {
        self.stage
    }

    /// The action that the firmware is to perform now.
    pub fn action(&self) -> (action: BringUpAction)
        ensures
            action == self@.action(),
    {
        match self.stage {
            Stage::Pending(step) => step.to_action(),
            Stage::Ready => BringUpAction::Finish,
            Stage::Halted(step) => BringUpAction::Halt { fault: step.to_fault() },
        }
    }

    /// Takes the firmware's report on the pending action and returns the
    /// action to perform next. A step that is done leads to the step after
    /// it, the last one to `Ready`; a step that failed halts bring-up at that
    /// step. Once ready or halted, bring-up stays so.
    pub fn advance(&mut self, outcome: Outcome) -> (next: BringUpAction)
        ensures
            final(self)@ == old(self)@.after(outcome),
            next == final(self)@.action(),
    {
        match self.stage {
            Stage::Pending(step) => {
                match outcome {
                    Outcome::Failed => {
                        self.stage = Stage::Halted(step);
                    },
                    Outcome::Done => {
                        match step.next() {
                            Some(next) => {
                                self.stage = Stage::Pending(next);
                            },
                            None => {
                                self.stage = Stage::Ready;
                            },
                        }
                    },
                }
            },
            _ => {},
        }
        self.action()
    }

    /// The fault that bring-up halted on, if it did.
    pub fn fault(&self) -> (fault: Option<Fault>)
        ensures
            fault == (match self@ {
                Stage::Halted(step) => Some(step.fault()),
                _ => None,
            }),
    {
        match self.stage {
            Stage::Halted(step) => Some(step.to_fault()),
            _ => None,
        }
    }

    /// Ends bring-up. It hands out the four handles, fitting together, if
    /// every step is done, and nothing otherwise: there is no bundle with a
    /// part missing.
    pub fn finish(self) -> (handles: Option<Handles>)
        ensures
            handles is Some <==> self@ == Stage::Ready,
            handles matches Some(bundle) ==> bundle.consistent(),
    {
        match self.stage {
            Stage::Ready => Some(Handles::complete()),
            _ => None,
        }
    }
}

/// The actions of a bring-up in which nothing fails, in the order in which
/// they are performed.
pub open spec fn plan() -> Seq<BringUpAction> {
    seq![
        BringUpAction::ClaimCore,
        BringUpAction::ClaimDevice,
        BringUpAction::FreezeClocks,
        BringUpAction::BuildLeds,
        BringUpAction::ConfigureBusPins,
        BringUpAction::BuildBus { khz: BUS_KHZ },
        BringUpAction::BuildSensor,
        BringUpAction::InitSensor,
        BringUpAction::SetDataRate { rate: MagDataRate::Hz10 },
        BringUpAction::EnterContinuous,
        BringUpAction::BuildDelay,
    ]
}

proof fn lemma_all_done_without_last(outcomes: Seq<Outcome>, n: int)
    requires
        outcomes.len() > 0,
        n < outcomes.len(),
    ensures
        all_done(outcomes.drop_last(), n) == all_done(outcomes, n),
{
    let before = outcomes.drop_last();
    if all_done(before, n) {
        assert forall|i: int| 0 <= i < n implies outcomes[i] == Outcome::Done by {
            assert(before[i] == outcomes[i]);
        }
    }
    if all_done(outcomes, n) {
        assert forall|i: int| 0 <= i < n implies before[i] == Outcome::Done by {
            assert(before[i] == outcomes[i]);
        }
    }
}

proof fn lemma_run_from_first(outcomes: Seq<Outcome>)
    ensures
        match Stage::first().run(outcomes) {
            Stage::Ready => outcomes.len() >= STEPS && all_done(outcomes, STEPS as int),
            Stage::Halted(step) => first_failure(outcomes, step.index()),
            Stage::Pending(step) => outcomes.len() == step.index() && all_done(
                outcomes,
                step.index(),
            ),
        },
    decreases outcomes.len(),
{
    if outcomes.len() > 0 {
        let before = outcomes.drop_last();
        lemma_run_from_first(before);
        match Stage::first().run(before) {
            Stage::Ready => {
                lemma_all_done_without_last(outcomes, STEPS as int);
            },
            Stage::Halted(step) => {
                lemma_all_done_without_last(outcomes, step.index());
                assert(before[step.index()] == outcomes[step.index()]);
            },
            Stage::Pending(step) => {
                lemma_all_done_without_last(outcomes, step.index());
            },
        }
    }
}

/// Where bring-up stands after any reports, from the first step on. It is
/// ready if and only if all the steps were reported done. It is halted at a
/// step if and only if the report for that step was the first failure. Else
/// it waits at the step whose turn it is, all before it being done. What is
/// reported after bring-up is ready or halted changes nothing.
pub proof fn lemma_bring_up_result(outcomes: Seq<Outcome>)
    ensures
        Stage::first().run(outcomes) == Stage::Ready <==> outcomes.len() >= STEPS && all_done(
            outcomes,
            STEPS as int,
        ),
        forall|step: Step|
            Stage::first().run(outcomes) == Stage::Halted(step) <==> first_failure(
                outcomes,
                #[trigger] step.index(),
            ),
        forall|step: Step|
            Stage::first().run(outcomes) == Stage::Pending(step) <==> outcomes.len()
                == #[trigger] step.index() && all_done(outcomes, step.index()),
{
    let end = Stage::first().run(outcomes);
    lemma_run_from_first(outcomes);
    assert forall|step: Step|
        first_failure(outcomes, #[trigger] step.index()) implies end == Stage::Halted(step) by {
        let k = step.index();
        match end {
            Stage::Ready => {
                assert(outcomes[k] == Outcome::Done);
            },
            Stage::Pending(at) => {
                assert(outcomes[k] == Outcome::Done);
            },
            Stage::Halted(at) => {
                if at.index() < k {
                    assert(outcomes[at.index()] == Outcome::Done);
                } else if k < at.index() {
                    assert(outcomes[k] == Outcome::Done);
                }
            },
        }
    }
    assert forall|step: Step|
        outcomes.len() == #[trigger] step.index() && all_done(
            outcomes,
            step.index(),
        ) implies end == Stage::Pending(step) by {
        match end {
            Stage::Halted(at) => {
                assert(outcomes[at.index()] == Outcome::Done);
            },
            _ => {},
        }
    }
    if outcomes.len() >= STEPS && all_done(outcomes, STEPS as int) {
        match end {
            Stage::Halted(at) => {
                assert(outcomes[at.index()] == Outcome::Done);
            },
            _ => {},
        }
    }
}

/// Bring-up takes its steps in the order of `plan`: as long as every report
/// is `Done`, the action after `k` reports is the one at place `k`, and
/// after the last of them it is `Finish`.
pub proof fn lemma_bring_up_follows_plan(outcomes: Seq<Outcome>)
    requires
        outcomes.len() <= STEPS,
        all_done(outcomes, outcomes.len() as int),
    ensures
        plan().len() == STEPS,
        outcomes.len() < STEPS ==> Stage::first().run(outcomes).action() == plan()[outcomes.len() as int],
        outcomes.len() == STEPS ==> Stage::first().run(outcomes).action() == BringUpAction::Finish,
{
    lemma_run_from_first(outcomes);
    match Stage::first().run(outcomes) {
        Stage::Halted(at) => {
            assert(outcomes[at.index()] == Outcome::Done);
        },
        _ => {},
    }
}

/// Once bring-up is ready or halted, no report moves it.
pub proof fn lemma_bring_up_settles(stage: Stage, outcomes: Seq<Outcome>)
    requires
        stage is Ready || stage is Halted,
    ensures
        stage.run(outcomes) == stage,
    decreases outcomes.len(),
{
    if outcomes.len() > 0 {
        lemma_bring_up_settles(stage, outcomes.drop_last());
    }
}

/// Bring-up does not go back: a report never lowers the number of steps that
/// are done, so a sensor driver that is in continuous mode stays in it, and
/// a bring-up that is ready has one in that mode.
pub proof fn lemma_bring_up_keeps_what_is_done(stage: Stage, outcome: Outcome)
    ensures
        stage.progress() <= stage.after(outcome).progress() <= STEPS,
        stage.sensor_mode() == Some(SensorMode::Continuous) ==> stage.after(outcome).sensor_mode()
            == Some(SensorMode::Continuous),
        Stage::Ready.sensor_mode() == Some(SensorMode::Continuous),
        stage.after(outcome) == Stage::Ready ==> stage == Stage::Ready || (stage
            == Stage::Pending(Step::BuildDelay) && outcome == Outcome::Done),
{
}

/// The board gives way to one bring-up. On a board with both sets free,
/// bring-up starts at its first step. On the board that any bring-up has
/// left behind, the next one is halted at its first claim, with
/// `Fault::AlreadyClaimed`.
pub proof fn lemma_board_admits_one_bring_up(board: Board)
    ensures
        board.is_fresh() ==> Stage::entry(board) == Stage::first(),
        !board.is_fresh() ==> Stage::entry(board) is Halted,
        Stage::entry(board.entered()) == Stage::Halted(Step::ClaimCore),
        Stage::entry(board.entered()).action() == (BringUpAction::Halt {
            fault: Fault::AlreadyClaimed,
        }),
{
    crate::claim::lemma_claimed_for_good(board.core);
}

} // verus!
