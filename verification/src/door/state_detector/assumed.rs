//! A detector without a sensor: it takes the door to be where it was last sent,
//! once the time for the travel has passed.

use crate::door::identifier::Identifier;
use crate::door::state::{SensorState, TargetState};
use crate::door::state_detector::{DetectedState, Travel};
use crate::error::GarageResult;
use crate::mqtt_client::{MqttPublish, MqttPublishView};
use crate::text::str_eq;
use vstd::prelude::*;

verus! {

/// How long the door needs and where the assumed state can be put right.
/// Durations are in milliseconds.
#[derive(Debug, Clone, PartialEq, Eq)]
pub struct AssumedStateDetectorConfig {
    /// How long the door is assumed to take from one end to the other.
    pub travel_time: u64,
    /// The topic on which a state can be sent that puts a wrong assumption right.
    pub override_topic: String,
}

/// What an [`AssumedStateDetector`] is.
pub struct AssumedStateDetectorView {
    pub identifier: Seq<char>,
    pub travel_time: nat,
    pub override_topic: Seq<char>,
    pub current_travel: Option<Travel>,
    pub assumed_state: TargetState,
}

impl AssumedStateDetectorView {
    /// The detector with `assumed_state` as its assumption and no travel under way.
    pub open spec fn set_assumed_state(self, assumed_state: TargetState) -> AssumedStateDetectorView {
        AssumedStateDetectorView { assumed_state, current_travel: None, ..self }
    }

    /// The state to assume from now on, where a travel that is under way at `now`
    /// has taken its time: the door is then assumed to have arrived. No travel,
    /// a travel still in its time, and a travel to where the door is assumed to
    /// be already, all change nothing.
    pub open spec fn arrival(self, now: nat) -> Option<TargetState> {
        match self.current_travel {
            Some(travel) if travel.is_expired_invalid(
                SensorState::of_target(self.assumed_state),
                self.travel_time,
                now,
            ) => Some(travel.target_state),
            _ => None,
        }
    }

    /// The state that a message puts in place of the assumption: the one that its
    /// payload names, if the message is on the override topic and names one.
    pub open spec fn overriding(self, publish: MqttPublishView) -> Option<TargetState> {
        if self.override_topic == publish.topic {
            match TargetState::parse(publish.payload) {
                Ok(state) => Some(state),
                Err(_) => None,
            }
        } else {
            None
        }
    }

    /// The detector after `change`, which is a new assumption or none.
    pub open spec fn after(self, change: Option<TargetState>) -> AssumedStateDetectorView {
        match change {
            Some(state) => self.set_assumed_state(state),
            None => self,
        }
    }
}

/// The detector that assumes. Whenever its assumption changes, the function that
/// changed it hands the new one back, to be kept for the next start.
#[derive(Debug, PartialEq, Eq)]
pub struct AssumedStateDetector {
    identifier: Identifier,
    travel_time: u64,
    override_topic: String,
    current_travel: Option<Travel>,
    assumed_state: TargetState,
}

impl View for AssumedStateDetector {
    type V = AssumedStateDetectorView;

    closed spec fn view(&self) -> AssumedStateDetectorView {
        AssumedStateDetectorView {
            identifier: self.identifier@,
            travel_time: self.travel_time as nat,
            override_topic: self.override_topic@,
            current_travel: self.current_travel,
            assumed_state: self.assumed_state,
        }
    }
}

impl AssumedStateDetector {
    /// Takes `assumed_state` as the assumption and ends the travel under way.
    /// Hands back what is to be kept for the next start.
    pub fn set_assumed_state(&mut self, assumed_state: TargetState) -> (kept: TargetState)
        ensures
            final(self)@ == old(self)@.set_assumed_state(assumed_state),
            kept == assumed_state,
    {
        self.assumed_state = assumed_state;
        self.current_travel = None;
        assumed_state
    }

    /// The detector for the door `identifier`. It starts from the state that was
    /// kept at the last change, where `kept` holds one that can be read, and from
    /// a closed door otherwise.
    pub fn with_config(
        identifier: Identifier,
        config: AssumedStateDetectorConfig,
        kept: Option<&str>,
    ) -> (made: GarageResult<AssumedStateDetector>)
        ensures
            made matches Ok(detector) && detector@ == (AssumedStateDetectorView {
                identifier: identifier@,
                travel_time: config.travel_time as nat,
                override_topic: config.override_topic@,
                current_travel: None,
                assumed_state: match kept {
                    Some(text) => match TargetState::parse(text@) {
                        Ok(state) => state,
                        Err(_) => TargetState::Closed,
                    },
                    None => TargetState::Closed,
                },
            }),
    {
        let assumed_state = match kept {
            Some(text) => match TargetState::from_str(text) {
                Ok(state) => state,
                Err(_) => TargetState::Closed,
            },
            None => TargetState::Closed,
        };
        Ok(
            AssumedStateDetector {
                identifier,
                travel_time: config.travel_time,
                override_topic: config.override_topic,
                current_travel: None,
                assumed_state,
            },
        )
    }

    /// The door that the detector is for.
    pub fn identifier(&self) -> (identifier: &Identifier)
        ensures
            identifier@ == self@.identifier,
    {
        &self.identifier
    }

    /// The topic on which the assumption can be put right.
    pub fn override_topic(&self) -> (topic: &str)
        ensures
            topic@ == self@.override_topic,
    {
        self.override_topic.as_str()
    }

    /// The state that the door is assumed to be in.
    pub fn assumed_state(&self) -> (state: TargetState)
        ensures
            state == self@.assumed_state,
    {
        self.assumed_state
    }

    /// The travel that is under way, if one is.
    pub fn current_travel(&self) -> (travel: Option<Travel>)
        ensures
            travel == self@.current_travel,
    {
        self.current_travel
    }

    /// Notes that the door sets out for `target_state` at `now`, and tells how
    /// long to wait before the door is asked where it is. Only one travel can be
    /// under way.
    pub fn travel(&mut self, target_state: TargetState, now: u64) -> (wait: u64)
        requires
            old(self)@.current_travel is None,
        ensures
            wait == old(self)@.travel_time,
            final(self)@ == (AssumedStateDetectorView {
                current_travel: Some(Travel { start_time: now, target_state }),
                ..old(self)@
            }),
    {
        self.current_travel = Some(Travel::new(target_state, now));
        self.travel_time
    }

    /// Where the door is assumed to be at `now`. A travel that has taken its time
    /// is over: the door is assumed to have arrived, and the new assumption is
    /// handed back to be kept. Otherwise the assumption stands.
    pub fn detect_state(&mut self, now: u64) -> (detected: (DetectedState, Option<TargetState>))
        ensures
            detected.1 == old(self)@.arrival(now as nat),
            final(self)@ == old(self)@.after(detected.1),
            detected.0 == SensorState::of_target(final(self)@.assumed_state),
    {
        let mut kept: Option<TargetState> = None;
        if let Some(current_travel) = self.current_travel {
            if current_travel.expired_invalid(
                DetectedState::from(self.assumed_state),
                self.travel_time,
                now,
            ) {
                kept = Some(self.set_assumed_state(current_travel.target_state));
            }
        }
        (DetectedState::from(self.assumed_state), kept)
    }

    /// Whether the detector is to be asked again and again: it is.
    pub fn should_check(&self) -> (check: bool)
        ensures
            check,
    {
        true
    }

    /// Takes a message from the bus. One on the override topic whose payload
    /// names a state puts that state in place of the assumption and ends the
    /// travel under way; the new assumption is handed back to be kept. Any other
    /// message changes nothing.
    pub fn receive_message(&mut self, publish: MqttPublish) -> (kept: Option<TargetState>)
        ensures
            kept == old(self)@.overriding(publish@),
            final(self)@ == old(self)@.after(kept),
    {
        if str_eq(self.override_topic.as_str(), publish.topic.as_str()) {
            if let Ok(override_state) = TargetState::from_str(publish.payload.as_str()) {
                return Some(self.set_assumed_state(override_state));
            }
        }
        None
    }
}

} // verus!
