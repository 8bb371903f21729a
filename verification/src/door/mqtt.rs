//! The payloads and topics that a door can be told to use on the bus.

use crate::error::{GarageError, GarageResult};
use vstd::prelude::*;

verus! {

/// The topics of a door and the payloads that stand for its commands and states.
#[derive(Debug, Clone, PartialEq, Eq)]
pub struct MqttConfig {
    /// The topic on which open and close commands arrive.
    pub command_topic: String,
    /// The payload of the command to open the door.
    pub open_command: String,
    /// The payload of the command to close the door.
    pub close_command: String,
    /// The topic on which the door's state is announced.
    pub state_topic: String,
    /// The payload that says the door is open.
    pub open_state: String,
    /// The payload that says the door is opening.
    pub opening_state: String,
    /// The payload that says the door is closed.
    pub closed_state: String,
    /// The payload that says the door is closing.
    pub closing_state: String,
}

/// A door's side of the bus. It keeps nothing of its configuration.
#[derive(Debug, Clone, Copy, PartialEq, Eq, Structural)]
pub struct DoorMqtt {}

impl DoorMqtt {
    /// A door's side of the bus. Every configuration gives one.
    pub fn with_config(_config: MqttConfig) -> (made: GarageResult<DoorMqtt>)
        ensures
            made == Ok::<DoorMqtt, GarageError>(DoorMqtt {}),
    {
        Ok(DoorMqtt {})
    }
}

} // verus!
