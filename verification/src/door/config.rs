//! What a door is told before it starts.

use crate::door::remote::{RemoteConfig, RemoteConfigView};
use crate::door::state::{SensorState, TargetState};
use crate::door::SensorPayload;
use crate::json::json_bool_member;
use crate::text::str_eq;
use vstd::prelude::*;

verus! {

/// What a [`DoorConfig`] is, with its strings as sequences of characters and its
/// durations as numbers.
pub struct DoorConfigView {
    pub remote: RemoteConfigView,
    pub command_topic: Seq<char>,
    pub initial_target_state: Option<TargetState>,
    pub state_topic: Seq<char>,
    pub stuck_topic: Seq<char>,
    pub travel_duration: nat,
    pub sensor_topic: Seq<char>,
    pub max_attempts: nat,
}

impl DoorConfigView {
    /// The remote's durations add up to one that the machine can count.
    pub open spec fn wf(self) -> bool {
        self.remote.wf()
    }

    /// The reading that a message from the bus holds for this door: none if the
    /// message is not on the sensor's topic; otherwise what its member `contact`
    /// stands for, which is `Stuck` for a payload without one.
    pub open spec fn reading_of(self, topic: Seq<char>, payload: Seq<char>) -> Option<SensorState> {
        if topic == self.sensor_topic {
            Some(SensorState::of_contact(json_bool_member(payload, "contact"@)))
        } else {
            None
        }
    }

    /// The command that a message from the bus holds for this door: the target
    /// that its payload names, if the message is on the command topic and names
    /// one. That the topic is the sensor's as well takes nothing from a command.
    pub open spec fn command_of(self, topic: Seq<char>, payload: Seq<char>) -> Option<TargetState> {
        if topic == self.command_topic {
            match TargetState::parse(payload) {
                Ok(target) => Some(target),
                Err(_) => None,
            }
        } else {
            None
        }
    }

    /// The longest that any travel started from this configuration lasts.
    pub open spec fn longest_travel(self) -> nat {
        if self.travel_duration >= self.remote.max_remote_latency_duration() {
            self.travel_duration
        } else {
            self.remote.max_remote_latency_duration()
        }
    }
}

/// The topics, durations and bounds of one door. Durations are in milliseconds.
#[derive(Debug, Clone, PartialEq, Eq)]
pub struct DoorConfig {
    /// The remote that moves the door.
    pub remote: RemoteConfig,
    /// The topic on which `OPEN` and `CLOSED` commands arrive.
    pub command_topic: String,
    /// Where the door is sent once, right after it has started, if anywhere.
    pub initial_target_state: Option<TargetState>,
    /// The topic on which the door's state is announced, retained.
    pub state_topic: String,
    /// The topic on which the stuck flag is announced, not retained.
    pub stuck_topic: String,
    /// How long the door is taken to need from one end to the other.
    pub travel_duration: u64,
    /// The topic on which the contact sensor reports.
    pub sensor_topic: String,
    /// How many times a travel that the sensor has to confirm is attempted in all.
    pub max_attempts: u8,
}

impl View for DoorConfig {
    type V = DoorConfigView;

    open spec fn view(&self) -> DoorConfigView {
        DoorConfigView {
            remote: self.remote@,
            command_topic: self.command_topic@,
            initial_target_state: self.initial_target_state,
            state_topic: self.state_topic@,
            stuck_topic: self.stuck_topic@,
            travel_duration: self.travel_duration as nat,
            sensor_topic: self.sensor_topic@,
            max_attempts: self.max_attempts as nat,
        }
    }
}

impl DoorConfig {
    /// Whether a door can be made of this configuration.
    pub fn is_valid(&self) -> (valid: bool)
        ensures
            valid == self@.wf(),
    {
        self.remote.is_valid()
    }

    /// The reading that a message from the bus holds for this door. Every
    /// message on the sensor's topic holds one: a payload that cannot be read
    /// reports that nothing is known.
    pub fn reading_of(&self, topic: &str, payload: &str) -> (reading: Option<SensorState>)
        ensures
            reading == self@.reading_of(topic@, payload@),
    {
        if str_eq(topic, self.sensor_topic.as_str()) {
            Some(SensorPayload::read(payload))
        } else {
            None
        }
    }

    /// The command that a message from the bus holds for this door. A message on
    /// the command topic whose payload names no target holds none.
    pub fn command_of(&self, topic: &str, payload: &str) -> (command: Option<TargetState>)
        ensures
            command == self@.command_of(topic@, payload@),
    {
        if str_eq(topic, self.command_topic.as_str()) {
            match TargetState::from_str(payload) {
                Ok(target) => Some(target),
                Err(_) => None,
            }
        } else {
            None
        }
    }

    /// The longest that any travel started from this configuration lasts: the
    /// travel from end to end or the latency of the remote, whichever is longer.
    pub fn longest_travel(&self) -> (duration: u64)
        requires
            self@.wf(),
        ensures
            duration == self@.longest_travel(),
    {
        let latency = self.remote.max_remote_latency_duration();
        if self.travel_duration >= latency {
            self.travel_duration
        } else {
            latency
        }
    }
}

} // verus!
