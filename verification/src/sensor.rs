//! What the firmware knows of the magnetometer: its modes, its output data
//! rates and its readings.

use vstd::prelude::*;

verus! {

/// Operating mode of the magnetometer driver. A driver starts idle and is
/// switched to continuous sampling once, during bring-up; samples can be
/// read in continuous mode only.
#[derive(Clone, Copy, Debug, PartialEq, Eq, Structural)]
pub enum SensorMode {
    /// Built, measuring nothing.
    Idle,
    /// Measuring on its own; a read returns the latest measurement.
    Continuous,
}

/// Output data rate of the magnetometer.
#[derive(Clone, Copy, Debug, PartialEq, Eq, Structural)]
pub enum MagDataRate {
    /// 10 Hz.
    Hz10,
    /// 20 Hz.
    Hz20,
    /// 50 Hz.
    Hz50,
    /// 100 Hz.
    Hz100,
}

impl MagDataRate {
    /// The rate in hertz.
    pub open spec fn hertz_spec(self) -> int {
        match self {
            MagDataRate::Hz10 => 10,
            MagDataRate::Hz20 => 20,
            MagDataRate::Hz50 => 50,
            MagDataRate::Hz100 => 100,
        }
    }

    /// The rate in hertz.
    pub fn hertz(&self) -> (hz: u32)
        ensures
            hz == self.hertz_spec(),
    {
        match self {
            MagDataRate::Hz10 => 10,
            MagDataRate::Hz20 => 20,
            MagDataRate::Hz50 => 50,
            MagDataRate::Hz100 => 100,
        }
    }
}

/// One sample of the magnetic field, in nanotesla on each axis.
#[derive(Clone, Copy, Debug, PartialEq, Eq, Structural)]
pub struct Reading {
    /// Field along the X axis.
    pub x: i32,
    /// Field along the Y axis.
    pub y: i32,
    /// Field along the Z axis.
    pub z: i32,
}

/// The text that `lsm303agr::Measurement` has under `{:?}` when its fields
/// are `x`, `y` and `z`.
pub uninterp spec fn measurement_debug(x: i32, y: i32, z: i32) -> Seq<char>;

/// A text with a line feed after it.
pub open spec fn line_of(text: Seq<char>) -> Seq<char> {
    text.push('\n')
}

/// The line that the firmware writes for a reading: the reading as the
/// sensor driver's measurement prints under `{:?}`, and a line feed.
pub open spec fn trace_text(reading: Reading) -> Seq<char> {
    line_of(measurement_debug(reading.x, reading.y, reading.z))
}

/// Formats an `lsm303agr::Measurement` with the fields `x`, `y` and `z`
/// under `{:?}`, through the `Debug` that the driver crate derives for it.
/// Trusted: the text depends on the three fields alone.
#[verifier::external_body]
fn debug_text(x: i32, y: i32, z: i32) -> (text: String)
    ensures
        text@ == measurement_debug(x, y, z),
{
    format!("{:?}", lsm303agr::Measurement { x, y, z })
}

/// Ends a text with a line feed.
pub fn end_line(text: String) -> (line: String)
    ensures
        line@ == line_of(text@),
{
    proof {
        reveal_strlit("\n");
    }
    let line = text.concat("\n");
    assert(line@ =~= line_of(text@));
    line
}

impl Reading {
    /// The line that the firmware writes for this reading.
    pub fn trace_line(&self) -> (line: String)
        ensures
            line@ == trace_text(*self),
    {
        end_line(debug_text(self.x, self.y, self.z))
    }
}

} // verus!
