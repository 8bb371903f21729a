//! What is set once, before the door starts.

pub mod gpio;
