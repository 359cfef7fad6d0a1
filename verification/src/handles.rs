//! The four handles that a finished bring-up hands to the sampling cycle.
//!
//! A handle here is a record of how its piece of hardware was set up; the
//! registers themselves stay with the firmware.

use crate::direction::LED_COUNT;
use crate::sensor::{MagDataRate, SensorMode};
use vstd::prelude::*;

verus! {

/// Clock of the I2C bus to the sensor, in kilohertz.
pub const BUS_KHZ: u32 = 400;

/// The trace channel that readings are written to.
pub const TRACE_CHANNEL: usize = 0;

/// The ring of LEDs, one at each compass point.
#[derive(Debug, PartialEq, Eq)]
pub struct LedBank {
    /// Number of LEDs in the ring.
    pub leds: usize,
}

/// The magnetometer driver and the bus that it owns.
#[derive(Debug, PartialEq, Eq)]
pub struct Sensor {
    /// Mode that the driver is in.
    pub mode: SensorMode,
    /// Output data rate that the sensor was set to.
    pub rate: MagDataRate,
    /// Clock of the bus under the driver, in kilohertz.
    pub bus_khz: u32,
}

/// The busy-wait delay on the system timer. It has no state of its own.
#[derive(Debug, PartialEq, Eq)]
pub struct DelayProvider {}

/// The debug trace output.
#[derive(Debug, PartialEq, Eq)]
pub struct TraceHandle {
    /// The channel that the firmware writes to.
    pub channel: usize,
}

/// The bundle of the four handles. Only a bring-up that went through every
/// step makes one, so whoever holds a bundle holds a sensor in continuous
/// mode.
#[derive(Debug)]
pub struct Handles {
    leds: LedBank,
    sensor: Sensor,
    delay: DelayProvider,
    trace: TraceHandle,
}

impl Handles {
    /// The LED bank in the bundle.
    pub closed spec fn led_bank(self) -> LedBank {
        self.leds
    }

    /// The sensor driver in the bundle.
    pub closed spec fn sensor_driver(self) -> Sensor {
        self.sensor
    }

    /// The trace handle in the bundle.
    pub closed spec fn trace_handle(self) -> TraceHandle {
        self.trace
    }

    /// The four handles fit together: the bank has all `LED_COUNT` LEDs of
    /// the ring, the sensor driver is in continuous mode, set to 10 Hz, on a
    /// bus clocked at `BUS_KHZ`, and the trace writes to `TRACE_CHANNEL`.
    /// This holds of every bundle there is.
    pub open spec fn consistent(self) -> bool {
        &&& self.led_bank().leds == LED_COUNT
        &&& self.sensor_driver().mode == SensorMode::Continuous
        &&& self.sensor_driver().rate == MagDataRate::Hz10
        &&& self.sensor_driver().bus_khz == BUS_KHZ
        &&& self.trace_handle().channel == TRACE_CHANNEL
    }

    #[verifier::type_invariant]
    spec fn always_consistent(self) -> bool {
        self.consistent()
    }

    /// The bundle as bring-up leaves it.
    pub(crate) fn complete() -> (handles: Handles)
        ensures
            handles.consistent(),
    {
        Handles {
            leds: LedBank { leds: LED_COUNT },
            sensor: Sensor {
                mode: SensorMode::Continuous,
                rate: MagDataRate::Hz10,
                bus_khz: BUS_KHZ,
            },
            delay: DelayProvider {  },
            trace: TraceHandle { channel: TRACE_CHANNEL },
        }
    }

    /// The LED bank: all `LED_COUNT` LEDs of the ring.
    pub fn leds(&self) -> (leds: &LedBank)
        ensures
            *leds == self.led_bank(),
            leds.leds == LED_COUNT,
    {
        proof {
            use_type_invariant(self);
        }
        &self.leds
    }

    /// The sensor driver: in continuous mode, at 10 Hz, on a bus clocked at
    /// `BUS_KHZ`.
    pub fn sensor(&self) -> (sensor: &Sensor)
        ensures
            *sensor == self.sensor_driver(),
            sensor.mode == SensorMode::Continuous,
            sensor.rate == MagDataRate::Hz10,
            sensor.bus_khz == BUS_KHZ,
    {
        proof {
            use_type_invariant(self);
        }
        &self.sensor
    }

    /// The delay provider.
    pub fn delay(&self) -> (delay: &DelayProvider)
        ensures
            *delay == (DelayProvider {  }),
    {
        &self.delay
    }

    /// The trace handle, on channel `TRACE_CHANNEL`.
    pub fn trace(&self) -> (trace: &TraceHandle)
        ensures
            *trace == self.trace_handle(),
            trace.channel == TRACE_CHANNEL,
    {
        proof {
            use_type_invariant(self);
        }
        &self.trace
    }
}

} // verus!
