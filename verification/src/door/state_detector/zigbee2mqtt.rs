//! A detector that remembers what a contact sensor last reported over the bus.

use crate::door::identifier::Identifier;
use crate::door::state::{AssumedTravel, AssumedTravelView, SensorState, State, StateView, TargetState};
use crate::door::state_detector::{DetectedState, Travel};
use crate::door::SensorPayload;
use crate::error::GarageResult;
use crate::json::json_bool_member;
use crate::mqtt_client::{MqttPublish, MqttPublishView};
use crate::text::str_eq;
use vstd::prelude::*;

verus! {

/// Where the sensor reports and how long the door needs, in milliseconds.
#[derive(Debug, Clone, PartialEq, Eq)]
pub struct Zigbee2MqttStateDetectorConfig {
    /// The topic on which the sensor reports.
    pub sensor_topic: String,
    /// How long the door is expected to take from one end to the other.
    pub travel_time: u64,
}

/// What a [`Zigbee2MqttStateDetector`] is.
pub struct Zigbee2MqttStateDetectorView {
    pub sensor_topic: Seq<char>,
    pub travel_time: nat,
    pub current_travel: Option<Travel>,
    pub last_state: SensorState,
}

impl Zigbee2MqttStateDetectorView {
    /// What the detector says at `now`: `Stuck` if a travel is under way that has
    /// failed, and what the sensor last reported otherwise.
    pub open spec fn detect_state(self, now: nat) -> SensorState {
        match self.current_travel {
            Some(travel) if travel.is_expired_invalid(self.last_state, self.travel_time, now) => {
                SensorState::Stuck
            },
            _ => self.last_state,
        }
    }

    /// The detector after a message from the bus: one on the sensor's topic is
    /// the sensor's last report from then on, `Stuck` if it cannot be read; any
    /// other changes nothing.
    pub open spec fn receive_message(self, publish: MqttPublishView) -> Zigbee2MqttStateDetectorView {
        if self.sensor_topic == publish.topic {
            Zigbee2MqttStateDetectorView {
                last_state: SensorState::of_contact(json_bool_member(publish.payload, "contact"@)),
                ..self
            }
        } else {
            self
        }
    }
}

/// The detector behind a contact sensor that reports over the bus.
#[derive(Debug, PartialEq, Eq)]
pub struct Zigbee2MqttStateDetector {
    sensor_topic: String,
    travel_time: u64,
    current_travel: Option<Travel>,
    last_state: DetectedState,
}

impl View for Zigbee2MqttStateDetector {
    type V = Zigbee2MqttStateDetectorView;

    closed spec fn view(&self) -> Zigbee2MqttStateDetectorView {
        Zigbee2MqttStateDetectorView {
            sensor_topic: self.sensor_topic@,
            travel_time: self.travel_time as nat,
            current_travel: self.current_travel,
            last_state: self.last_state,
        }
    }
}

impl Zigbee2MqttStateDetector {
    /// The detector for the sensor that `config` names. Until the sensor has
    /// reported, nothing is known of the door.
    pub fn with_config(_identifier: Identifier, config: Zigbee2MqttStateDetectorConfig) -> (made:
        GarageResult<Zigbee2MqttStateDetector>)
        ensures
            made matches Ok(detector) && detector@ == (Zigbee2MqttStateDetectorView {
                sensor_topic: config.sensor_topic@,
                travel_time: config.travel_time as nat,
                current_travel: None,
                last_state: SensorState::Stuck,
            }),
    {
        Ok(
            Zigbee2MqttStateDetector {
                sensor_topic: config.sensor_topic,
                travel_time: config.travel_time,
                last_state: DetectedState::Stuck,
                current_travel: None,
            },
        )
    }

    /// The topic on which the sensor reports.
    pub fn sensor_topic(&self) -> (topic: &str)
        ensures
            topic@ == self@.sensor_topic,
    {
        self.sensor_topic.as_str()
    }

    /// What the sensor last reported.
    pub fn last_state(&self) -> (state: DetectedState)
        ensures
            state == self@.last_state,
    {
        self.last_state
    }

    /// The travel that is under way, if one is.
    pub fn current_travel(&self) -> (travel: Option<Travel>)
        ensures
            travel == self@.current_travel,
    {
        self.current_travel
    }

    /// Notes that the door sets out for `target_state` at `now`, and tells how
    /// long to wait before the door is asked where it is. Only one travel can be
    /// under way.
    pub fn travel(&mut self, target_state: TargetState, now: u64) -> (wait: u64)
        requires
            old(self)@.current_travel is None,
        ensures
            wait == old(self)@.travel_time,
            final(self)@ == (Zigbee2MqttStateDetectorView {
                current_travel: Some(Travel { start_time: now, target_state }),
                ..old(self)@
            }),
    {
        self.current_travel = Some(Travel::new(target_state, now));
        self.travel_time
    }

    /// Where the door is at `now`: what the sensor last reported, unless a travel
    /// is under way that has failed, which leaves the door stuck. The travel is
    /// over either way.
    pub fn detect_state(&mut self, now: u64) -> (state: DetectedState)
        ensures
            state == old(self)@.detect_state(now as nat),
            final(self)@ == (Zigbee2MqttStateDetectorView { current_travel: None, ..old(self)@ }),
    {
        let current_travel = self.current_travel;
        self.current_travel = None;
        if let Some(current_travel) = current_travel {
            if current_travel.expired_invalid(self.last_state, self.travel_time, now) {
                return DetectedState::Stuck;
            }
        }
        self.last_state
    }

    /// Whether the detector is to be asked again and again: it is.
    pub fn should_check_periodically(&self) -> (check: bool)
        ensures
            check,
    {
        true
    }

    /// Takes a message from the bus: one on the sensor's topic is the sensor's
    /// last report from then on.
    pub fn receive_message(&mut self, publish: MqttPublish)
        ensures
            final(self)@ == old(self)@.receive_message(publish@),
    {
        if str_eq(self.sensor_topic.as_str(), publish.topic.as_str()) {
            self.last_state = SensorPayload::read(publish.payload.as_str());
        }
    }

    /// The state of a door that was moved by hand and is now detected at
    /// `target_state`. The sensor shows when the door is closed, so a door that is
    /// no longer closed has begun to open at `now`.
    pub fn manual_travel_state(&self, target_state: TargetState, now: u64) -> (state: State)
        requires
            now + self@.travel_time <= u64::MAX,
        ensures
            state@ == (match target_state {
                TargetState::Open => StateView::Opening(
                    AssumedTravelView::new(now as nat, self@.travel_time),
                ),
                TargetState::Closed => StateView::Closed,
            }),
    {
        match target_state {
            TargetState::Open => State::Opening(AssumedTravel::new(now, self.travel_time)),
            TargetState::Closed => State::Closed,
        }
    }
}

} // verus!
