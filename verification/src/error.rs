//! What ends a door's task.

use vstd::prelude::*;

verus! {

/// A failure that the door does not recover from.
#[derive(Debug, Clone, Copy, PartialEq, Eq, Structural)]
pub enum GarageError {
    /// A line of the board could not be had or written.
    Gpio,
    /// The connection to the message bus is gone.
    MqttClosed,
    /// No sensor reading came in time for the door to start.
    DoorInitialisationTimeout,
    /// The network is gone.
    WifiDisconnected,
}

pub type GarageResult<T> = Result<T, GarageError>;

impl GarageError {
    /// The failure that a change of the network is: none while the network is
    /// there, and a lost network once it is gone.
    pub open spec fn of_network(connected: bool) -> GarageResult<()> {
        if connected {
            Ok(())
        } else {
            Err(GarageError::WifiDisconnected)
        }
    }

    /// Takes word of the network: that it is connected carries on, that it is
    /// disconnected is the end of the whole run.
    pub fn from_network(connected: bool) -> (outcome: GarageResult<()>)
        ensures
            outcome == GarageError::of_network(connected),
    {
        if connected {
            Ok(())
        } else {
            Err(GarageError::WifiDisconnected)
        }
    }

    /// The words that describe the failure.
    pub open spec fn description(self) -> Seq<char> {
        match self {
            GarageError::Gpio => "the GPIO line is not available"@,
            GarageError::MqttClosed => "the MQTT client has been closed"@,
            GarageError::DoorInitialisationTimeout => "door initialisation timeout (sensor state not available)"@,
            GarageError::WifiDisconnected => "wifi disconnected"@,
        }
    }

    /// The words that describe the failure.
    pub fn to_string(&self) -> (text: String)
        ensures
            text@ == self.description(),
    {
        match self {
            GarageError::Gpio => "the GPIO line is not available".to_owned(),
            GarageError::MqttClosed => "the MQTT client has been closed".to_owned(),
            GarageError::DoorInitialisationTimeout => "door initialisation timeout (sensor state not available)".to_owned(),
            GarageError::WifiDisconnected => "wifi disconnected".to_owned(),
        }
    }
}

} // verus!
