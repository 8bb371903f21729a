//! Controller core for an MQTT-driven garage door.
//!
//! The crate holds the door's lifecycle state machine and the rules around it:
//! which transition follows a sensor reading, a timer expiry or a command, what is
//! published for each transition, and how the shared remote is pulsed.
//! Time enters every function as a plain millisecond count, and everything that
//! has to be sent or awaited leaves it as a value.

pub mod config;
pub mod door;
pub mod error;
pub mod json;
pub mod mock_gpio;
pub mod mqtt_client;
pub mod text;
