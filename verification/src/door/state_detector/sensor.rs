//! A detector on a sensor's line, not yet asked for anything.

use crate::config::gpio::GpioPin;
use crate::error::{GarageError, GarageResult};
use crate::mock_gpio::{Gpio, InputPin};
use vstd::prelude::*;

verus! {

/// Where the sensor's line is and how long the door needs, in milliseconds.
#[derive(Debug, Clone, Copy, PartialEq, Eq)]
pub struct SensorStateDetectorConfig {
    /// The pin of the sensor's line.
    pub pin: GpioPin,
    /// How long the door is expected to take from one end to the other.
    pub travel_time: u64,
}

/// The detector on a sensor's line.
#[derive(Debug, Clone, Copy, PartialEq, Eq, Structural)]
pub struct SensorStateDetector {
    pub pin: InputPin,
    pub travel_time: u64,
}

impl SensorStateDetector {
    /// The detector on the line that `config` names.
    pub fn with_config(config: SensorStateDetectorConfig) -> (made: GarageResult<
        SensorStateDetector,
    >)
        ensures
            made == Ok::<SensorStateDetector, GarageError>(
                SensorStateDetector {
                    pin: InputPin(config.pin.bcm()),
                    travel_time: config.travel_time,
                },
            ),
    {
        let gpio = match Gpio::new() {
            Ok(gpio) => gpio,
            Err(_) => {
                return Err(GarageError::Gpio);
            },
        };
        let pin = match gpio.get(config.pin.bcm_number()) {
            Ok(pin) => pin.into_input_pullup(),
            Err(_) => {
                return Err(GarageError::Gpio);
            },
        };
        Ok(SensorStateDetector { pin, travel_time: config.travel_time })
    }
}

} // verus!
