//! Detectors that are asked for the door's position, and that judge a travel by
//! how long it has been under way.

use crate::door::state::{SensorState, TargetState};
use crate::door::state_detector::assumed::AssumedStateDetectorConfig;
use crate::door::state_detector::gpio::GpioStateDetectorConfig;
use crate::door::state_detector::zigbee2mqtt::Zigbee2MqttStateDetectorConfig;
use vstd::prelude::*;

pub mod assumed;
pub mod gpio;
pub mod sensor;
pub mod zigbee2mqtt;

verus! {

/// A reading of the door's position, as detectors speak of it.
pub type DetectedState = SensorState;

/// The detector that a door is configured with.
#[derive(Debug, Clone, PartialEq, Eq)]
pub enum StateDetectorConfig {
    Gpio(GpioStateDetectorConfig),
    Assumed(AssumedStateDetectorConfig),
    Zigbee2Mqtt(Zigbee2MqttStateDetectorConfig),
}

/// A travel that is under way: when it began and where it leads.
#[derive(Debug, Clone, Copy, PartialEq, Eq, Structural)]
pub struct Travel {
    /// The instant at which the travel began.
    pub start_time: u64,
    /// Where the travel leads.
    pub target_state: TargetState,
}

impl Travel {
    /// Whether the travel, seen at `now` with the door detected in
    /// `detected_state`, has failed: it has been under way for longer than
    /// `duration` and the door is not where the travel leads. A travel that
    /// began after `now`, as a clock that was set back makes it seem, has not.
    pub open spec fn is_expired_invalid(
        self,
        detected_state: SensorState,
        duration: nat,
        now: nat,
    ) -> bool {
        &&& detected_state != SensorState::of_target(self.target_state)
        &&& now >= self.start_time
        &&& now - self.start_time > duration
    }

    /// A travel to `target_state` that begins at `now`.
    pub fn new(target_state: TargetState, now: u64) -> (travel: Travel)
        ensures
            travel == (Travel { start_time: now, target_state }),
    {
        Travel { start_time: now, target_state }
    }

    /// True if at `now` the travel has been under way for longer than `duration`
    /// and the door is detected in the wrong state.
    pub fn expired_invalid(&self, detected_state: DetectedState, duration: u64, now: u64) -> (expired:
        bool)
        ensures
            expired == self.is_expired_invalid(detected_state, duration as nat, now as nat),
    {
        if detected_state != DetectedState::from(self.target_state) {
            if now >= self.start_time {
                now - self.start_time > duration
            } else {
                false
            }
        } else {
            false
        }
    }
}

} // verus!
