//! Messages as they pass between the door and the message bus.

use vstd::prelude::*;

verus! {

/// The delivery guarantee asked of the bus for a message.
#[derive(Debug, Clone, Copy, PartialEq, Eq, Structural)]
pub enum QoS {
    AtMostOnce,
    AtLeastOnce,
    ExactlyOnce,
}

/// What an [`MqttPublish`] is, with its strings as sequences of characters.
pub struct MqttPublishView {
    pub topic: Seq<char>,
    pub qos: QoS,
    pub retain: bool,
    pub payload: Seq<char>,
}

/// One message: received from the bus, or to be sent to it.
#[derive(Debug, Clone, PartialEq, Eq)]
pub struct MqttPublish {
    pub topic: String,
    pub qos: QoS,
    pub retain: bool,
    pub payload: String,
}

impl View for MqttPublish {
    type V = MqttPublishView;

    open spec fn view(&self) -> MqttPublishView {
        MqttPublishView {
            topic: self.topic@,
            qos: self.qos,
            retain: self.retain,
            payload: self.payload@,
        }
    }
}

impl MqttPublish {
    /// A message for `topic` that holds `payload`, asked to be delivered at least once.
    pub fn new(topic: &str, retain: bool, payload: &str) -> (publish: MqttPublish)
        ensures
            publish@ == (MqttPublishView {
                topic: topic@,
                qos: QoS::AtLeastOnce,
                retain,
                payload: payload@,
            }),
    {
        MqttPublish {
            topic: topic.to_owned(),
            qos: QoS::AtLeastOnce,
            retain,
            payload: payload.to_owned(),
        }
    }
}

} // verus!
