//! Why the firmware stops.

use vstd::prelude::*;

verus! {

/// A reason to halt. None of them is recovered from: the firmware stops at
/// the first one.
#[derive(Clone, Copy, Debug, PartialEq, Eq, Structural)]
pub enum Fault {
    /// A peripheral set was asked for after it had been handed out.
    AlreadyClaimed,
    /// A step of bring-up failed on the bus or in the sensor.
    Initialization,
    /// The sensor gave no sample when the sampling cycle asked for one.
    SampleRead,
}

} // verus!
