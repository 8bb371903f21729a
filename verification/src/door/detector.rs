//! Detectors: where the readings of a door's position come from.

use crate::door::detector::zigbee2mqtt::{
    Zigbee2MqttDoorDetector, Zigbee2MqttDoorDetectorConfig,
};
use crate::door::identifier::Identifier;
use crate::door::state::SensorState;
use crate::door::state_detector::DetectedState;
use crate::error::{GarageError, GarageResult};
use crate::mqtt_client::{MqttPublish, MqttPublishView};
use vstd::prelude::*;

pub mod zigbee2mqtt;

verus! {

/// The readings that a run of messages holds for a sensor that reports on
/// `sensor_topic`, in the order of the messages. Messages on other topics hold none.
pub open spec fn readings(sensor_topic: Seq<char>, publishes: Seq<MqttPublishView>) -> Seq<
    SensorState,
>
    decreases publishes.len(),
{
    if publishes.len() == 0 {
        Seq::empty()
    } else {
        let before = readings(sensor_topic, publishes.drop_last());
        match SensorState::of_publish(sensor_topic, publishes.last()) {
            Some(reading) => before.push(reading),
            None => before,
        }
    }
}

/// The views of a run of messages, in the same order.
pub open spec fn publish_views(publishes: Seq<MqttPublish>) -> Seq<MqttPublishView> {
    publishes.map_values(|publish: MqttPublish| publish@)
}

/// Whether `heard` is what a detector has to say of the readings `found`: the
/// first reading and those after it, in order, or, without any reading, that the
/// bus has closed.
pub open spec fn is_heard(
    found: Seq<SensorState>,
    heard: GarageResult<(DetectedState, Vec<DetectedState>)>,
) -> bool {
    match heard {
        Ok((first, after)) => found.len() > 0 && first == found[0] && after@ == found.skip(1),
        Err(error) => found.len() == 0 && error == GarageError::MqttClosed,
    }
}

/// A source of readings. It is made for one door from its configuration, and
/// turns what arrives from the bus into a first reading and the readings after it.
pub trait DoorDetector: Sized {
    type Config;

    /// The topic on which the detector's sensor reports.
    spec fn topic(&self) -> Seq<char>;

    /// The topic that a configuration names for the sensor.
    spec fn configured_topic(config: Self::Config) -> Seq<char>;

    /// The detector for the door `identifier`, on the topic that `config` names.
    fn new(identifier: Identifier, config: Self::Config) -> (detector: Self)
        ensures
            detector.topic() == Self::configured_topic(config),
    ;

    /// Reads the messages that arrived, in their order: the first reading among
    /// them is the initial state, and the readings after it follow. Messages on
    /// other topics are passed over. Where the messages end before any reading,
    /// the bus has closed on the detector.
    fn listen(self, publishes: Vec<MqttPublish>) -> (heard: GarageResult<
        (DetectedState, Vec<DetectedState>),
    >)
        ensures
            is_heard(readings(self.topic(), publish_views(publishes@)), heard),
    ;
}

/// The detector that a door is configured with.
#[derive(Debug, Clone, PartialEq, Eq)]
pub enum DoorDetectorConfig {
    Zigbee2Mqtt(Zigbee2MqttDoorDetectorConfig),
}

/// Any of the detectors there are.
#[derive(Debug, Clone, PartialEq, Eq)]
pub enum AnyDoorDetector {
    Zigbee2Mqtt(Zigbee2MqttDoorDetector),
}

impl DoorDetector for AnyDoorDetector {
    type Config = DoorDetectorConfig;

    open spec fn topic(&self) -> Seq<char> {
        match self {
            AnyDoorDetector::Zigbee2Mqtt(detector) => detector.topic(),
        }
    }

    open spec fn configured_topic(config: DoorDetectorConfig) -> Seq<char> {
        match config {
            DoorDetectorConfig::Zigbee2Mqtt(config) => config.sensor_topic@,
        }
    }

    fn new(identifier: Identifier, config: DoorDetectorConfig) -> (detector: AnyDoorDetector) {
        match config {
            DoorDetectorConfig::Zigbee2Mqtt(config) => AnyDoorDetector::Zigbee2Mqtt(
                Zigbee2MqttDoorDetector::new(identifier, config),
            ),
        }
    }

    fn listen(self, publishes: Vec<MqttPublish>) -> (heard: GarageResult<
        (DetectedState, Vec<DetectedState>),
    >) {
        match self {
            AnyDoorDetector::Zigbee2Mqtt(detector) => detector.listen(publishes),
        }
    }
}

} // verus!
