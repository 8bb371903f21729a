//! A contact sensor that reports over the bus, as Zigbee2MQTT relays it: a JSON
//! object whose member `contact` is `true` while the door is closed.

use crate::door::detector::{publish_views, readings, DoorDetector};
use crate::door::state_detector::DetectedState;
use crate::door::identifier::Identifier;
use crate::door::state::SensorState;
use crate::error::{GarageError, GarageResult};
use crate::json::{json_bool_member, read_bool_member};
use crate::mqtt_client::{MqttPublish, MqttPublishView};
use crate::text::str_eq;
use vstd::prelude::*;

verus! {

/// Where the sensor reports.
#[derive(Debug, Clone, PartialEq, Eq)]
pub struct Zigbee2MqttDoorDetectorConfig {
    pub sensor_topic: String,
}

/// The detector for a contact sensor on one topic.
#[derive(Debug, Clone, PartialEq, Eq)]
pub struct Zigbee2MqttDoorDetector {
    sensor_topic: String,
}

impl SensorState {
    /// The reading that a message holds for a sensor that reports on
    /// `sensor_topic`: none if the message is on another topic; otherwise what its
    /// member `contact` stands for, which is `Stuck` for a payload without one.
    pub open spec fn of_publish(sensor_topic: Seq<char>, publish: MqttPublishView) -> Option<
        SensorState,
    > {
        if sensor_topic == publish.topic {
            Some(SensorState::of_contact(json_bool_member(publish.payload, "contact"@)))
        } else {
            None
        }
    }

    /// The reading that `publish` holds for a sensor that reports on `sensor_topic`.
    pub fn from_publish(sensor_topic: &str, publish: MqttPublish) -> (reading: Option<
        DetectedState,
    >)
        ensures
            reading == SensorState::of_publish(sensor_topic@, publish@),
    {
        SensorState::read_publish(sensor_topic, &publish)
    }

    /// The reading that `publish` holds for a sensor that reports on
    /// `sensor_topic`, without taking the message.
    pub fn read_publish(sensor_topic: &str, publish: &MqttPublish) -> (reading: Option<
        DetectedState,
    >)
        ensures
            reading == SensorState::of_publish(sensor_topic@, publish@),
    {
        if str_eq(sensor_topic, publish.topic.as_str()) {
            Some(SensorState::from_contact(read_bool_member(publish.payload.as_str(), "contact")))
        } else {
            None
        }
    }
}

impl Zigbee2MqttDoorDetector {
    /// The topic on which the sensor reports.
    pub fn sensor_topic(&self) -> (topic: &str)
        ensures
            topic@ == self.topic(),
    {
        self.sensor_topic.as_str()
    }
}

impl DoorDetector for Zigbee2MqttDoorDetector {
    type Config = Zigbee2MqttDoorDetectorConfig;

    closed spec fn topic(&self) -> Seq<char> {
        self.sensor_topic@
    }

    open spec fn configured_topic(config: Zigbee2MqttDoorDetectorConfig) -> Seq<char> {
        config.sensor_topic@
    }

    fn new(identifier: Identifier, config: Zigbee2MqttDoorDetectorConfig) -> (detector:
        Zigbee2MqttDoorDetector) {
        Zigbee2MqttDoorDetector { sensor_topic: config.sensor_topic }
    }

    fn listen(self, publishes: Vec<MqttPublish>) -> (heard: GarageResult<
        (DetectedState, Vec<DetectedState>),
    >) {
        let mut initial: Option<DetectedState> = None;
        let mut after: Vec<DetectedState> = Vec::new();
        let mut i: usize = 0;
        while i < publishes.len()
            invariant
                i <= publishes.len(),
                ({
                    let found = readings(self.topic(), publish_views(publishes@.take(i as int)));
                    match initial {
                        Some(first) => found.len() > 0 && found[0] == first && after@
                            == found.skip(1),
                        None => found.len() == 0 && after@.len() == 0,
                    }
                }),
            decreases publishes.len() - i,
        {
            let ghost before = publish_views(publishes@.take(i as int));
            proof {
                let until = publish_views(publishes@.take(i + 1));
                assert(until.drop_last() =~= before);
            }
            match SensorState::read_publish(self.sensor_topic.as_str(), &publishes[i]) {
                Some(reading) => {
                    match initial {
                        Some(_) => {
                            after.push(reading);
                        },
                        None => {
                            initial = Some(reading);
                        },
                    }
                },
                None => {},
            }
            i += 1;
        }
        proof {
            assert(publishes@.take(i as int) =~= publishes@);
        }
        match initial {
            Some(first) => Ok((first, after)),
            None => Err(GarageError::MqttClosed),
        }
    }
}

} // verus!
