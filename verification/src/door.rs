//! The door: its lifecycle states and the machine that moves between them.
//!
//! A [`Door`] waits for nothing itself. Whoever runs it waits for the sensor, for
//! the expiry that [`Door::expiry`] names and for commands, hands each event to
//! [`Door::step`] with the instant at which it came, and carries out the actions
//! that come back, in their order.

use crate::door::config::DoorConfig;
use crate::door::machine::{action_views, turn_views, Action, DoorView, Event};
use crate::door::state::{AssumedTravel, ConfirmedTravel, SensorState, State, TargetState};
use crate::error::{GarageError, GarageResult};
use crate::json::{json_bool_member, read_bool_member};
use crate::mqtt_client::MqttPublish;
use vstd::prelude::*;

pub mod config;
pub mod detector;
pub mod identifier;
pub mod laws;
pub mod machine;
pub mod mqtt;
pub mod remote;
pub mod state;
pub mod state_detector;

verus! {

/// How long a door waits for the first reading of its sensor, in milliseconds.
pub const INITIALISATION_TIMEOUT: u64 = 10_000;

/// What a contact sensor reports.
#[derive(Debug, Clone, Copy, PartialEq, Eq, Structural)]
pub struct SensorPayload {
    /// `true` while the contact is closed, which is while the door is closed.
    pub contact: bool,
}

impl SensorPayload {
    /// The report that a sensor's message holds: its member `contact`, if the
    /// message is a JSON object that has one and it is a boolean.
    pub open spec fn parse(text: Seq<char>) -> Option<SensorPayload> {
        match json_bool_member(text, "contact"@) {
            Some(contact) => Some(SensorPayload { contact }),
            None => None,
        }
    }

    /// Reads a sensor's message. Other members of the object are passed over.
    pub fn from_json(text: &str) -> (payload: Option<SensorPayload>)
        ensures
            payload == SensorPayload::parse(text@),
    {
        match read_bool_member(text, "contact") {
            Some(contact) => Some(SensorPayload { contact }),
            None => None,
        }
    }

    /// The reading that the report stands for: a closed contact is a closed door.
    pub fn into_state(self) -> (reading: SensorState)
        ensures
            reading == SensorState::of_contact(Some(self.contact)),
    {
        if self.contact {
            SensorState::Closed
        } else {
            SensorState::Open
        }
    }

    /// The reading that a sensor's message stands for; a message that holds no
    /// report tells nothing of the door.
    pub fn read(text: &str) -> (reading: SensorState)
        ensures
            reading == SensorState::of_contact(json_bool_member(text@, "contact"@)),
    {
        match SensorPayload::from_json(text) {
            Some(payload) => payload.into_state(),
            None => SensorState::Stuck,
        }
    }
}

/// One door: its configuration, its current state, and the command it holds back
/// while it travels.
#[derive(Debug, PartialEq, Eq)]
pub struct Door {
    config: DoorConfig,
    current_state: State,
    next_target_state: Option<TargetState>,
}

impl View for Door {
    type V = DoorView;

    closed spec fn view(&self) -> DoorView {
        DoorView {
            config: self.config@,
            current_state: self.current_state@,
            next_target_state: self.next_target_state,
        }
    }
}

impl Door {
    /// Holds of every door there is: its configuration is sound.
    #[verifier::type_invariant]
    pub open spec fn inv(self) -> bool {
        self@.config.wf()
    }

    /// Starts a door at `now` from the first reading of its sensor: the door takes
    /// the state that the reading stands for, announces it, and sets out for the
    /// initial target if one is configured. Without a reading, which is what the
    /// caller has when none came within [`INITIALISATION_TIMEOUT`], no door starts.
    pub fn new(config: DoorConfig, initial_state: Option<SensorState>, now: u64) -> (started:
        GarageResult<(Door, Vec<Action>)>)
        requires
            config@.wf(),
            now + config@.longest_travel() <= u64::MAX,
        ensures
            match (initial_state, started) {
                (Some(reading), Ok((door, actions))) => (door@, action_views(actions@))
                    == DoorView::start(config@, reading, now as nat) && door@.wf(),
                (None, Err(error)) => error == GarageError::DoorInitialisationTimeout,
                _ => false,
            },
    {
        let reading = match initial_state {
            Some(reading) => reading,
            None => {
                return Err(GarageError::DoorInitialisationTimeout);
            },
        };
        let initial_target_state = config.initial_target_state;
        let mut door = Door { config, current_state: State::from(reading), next_target_state: None };
        let mut actions = door.publish_current_state();
        if let Some(target) = initial_target_state {
            let mut sent = door.goto_target_state(target, now);
            actions.append(&mut sent);
        }
        Ok((door, actions))
    }

    /// The configuration that the door was started with.
    pub fn config(&self) -> (config: &DoorConfig)
        ensures
            config@ == self@.config,
            self@.wf(),
    {
        proof {
            use_type_invariant(self);
        }
        let _ = self.current_state.is_travelling();
        &self.config
    }

    /// The state that the door is in.
    pub fn current_state(&self) -> (state: &State)
        ensures
            state@ == self@.current_state,
            self@.wf(),
    {
        proof {
            use_type_invariant(self);
        }
        let _ = self.current_state.is_travelling();
        &self.current_state
    }

    /// The command that the door holds back, if it holds one.
    pub fn next_target_state(&self) -> (target: Option<TargetState>)
        ensures
            target == self@.next_target_state,
    {
        self.next_target_state
    }

    /// The instant at which the current travel expires; a door that rests has none.
    pub fn expiry(&self) -> (expiry: Option<u64>)
        ensures
            expiry is Some <==> self@.current_state.is_travelling(),
            match expiry {
                Some(instant) => self@.current_state.expiry() == Some(instant as nat),
                None => self@.current_state.expiry() is None,
            },
    {
        self.current_state.expiry()
    }

    /// Whether every travel that the door may start or renew at `now` ends at an
    /// instant that can still be counted. The functions that take `now` ask for it.
    pub fn in_time(&self, now: u64) -> (fits: bool)
        ensures
            fits == self@.in_time(now as nat),
    {
        proof {
            use_type_invariant(self);
        }
        let mut horizon = self.config.longest_travel();
        match &self.current_state {
            State::AttemptingOpen(travel) | State::Closing(travel) => {
                if travel.duration() > horizon {
                    horizon = travel.duration();
                }
            },
            _ => {},
        }
        now.checked_add(horizon).is_some()
    }

    /// The two messages that announce the current state: the state on the state
    /// topic, retained, then the stuck flag on the stuck topic, not retained.
    pub fn publish_current_state(&self) -> (actions: Vec<Action>)
        ensures
            action_views(actions@) == self@.publish_current_state(),
    {
        let mut actions: Vec<Action> = Vec::new();
        let state = MqttPublish::new(
            self.config.state_topic.as_str(),
            true,
            self.current_state.as_str(),
        );
        let stuck = MqttPublish::new(
            self.config.stuck_topic.as_str(),
            false,
            self.current_state.stuck_state().as_str(),
        );
        actions.push(Action::Publish(state));
        actions.push(Action::Publish(stuck));
        actions
    }

    /// Puts the door in `current_state` and announces it. Every call announces,
    /// also one that changes nothing.
    pub fn set_current_state(&mut self, current_state: State) -> (actions: Vec<Action>)
        ensures
            (final(self)@, action_views(actions@)) == old(self)@.set_current_state(
                current_state@,
            ),
    {
        proof {
            use_type_invariant(&*self);
        }
        self.current_state = current_state;
        self.publish_current_state()
    }

    /// Sends the door to `target_state`. A door that rests there is left alone,
    /// at whatever instant; any other sets out, announces that, and has the remote
    /// pressed. A door that travels takes no target: the caller holds the command
    /// back.
    pub fn goto_target_state(&mut self, target_state: TargetState, now: u64) -> (actions: Vec<
        Action,
    >)
        requires
            !old(self)@.current_state.is_travelling(),
            !old(self)@.current_state.rests_at(target_state) ==> old(self)@.in_time(now as nat),
        ensures
            (final(self)@, action_views(actions@)) == old(self)@.goto_target_state(
                target_state,
                now as nat,
            ),
            final(self)@.current_state.wf(),
    {
        let _ = self.current_state.is_travelling();
        if self.current_state == target_state {
            Vec::new()
        } else {
            let departure = match target_state {
                TargetState::Closed => State::Closing(
                    ConfirmedTravel::new(now, self.config.travel_duration, self.config.max_attempts),
                ),
                TargetState::Open => State::AttemptingOpen(
                    ConfirmedTravel::new(
                        now,
                        self.config.remote.max_remote_latency_duration(),
                        self.config.max_attempts,
                    ),
                ),
            };
            let mut actions = self.set_current_state(departure);
            actions.push(Action::TriggerRemote);
            actions
        }
    }

    /// Takes a report of the sensor. What follows is a matter of the state the
    /// door is in: a door that is closed, or trying to open, and is seen open has
    /// begun to open; one that is seen closed is closed; a report that tells
    /// nothing marks a door as stuck where it last rested or was heading from.
    /// A report that agrees with the state changes nothing and announces nothing.
    pub fn on_detected(&mut self, detected: SensorState, now: u64) -> (actions: Vec<Action>)
        requires
            old(self)@.in_time(now as nat),
        ensures
            (final(self)@, action_views(actions@)) == old(self)@.on_detected(
                detected,
                now as nat,
            ),
            final(self)@.wf(),
    {
        let _ = self.current_state.is_travelling();
        let next = match (self.current_state, detected) {
            (State::Closed, SensorState::Open)
            | (State::AttemptingOpen(_), SensorState::Open)
            | (State::Closing(_), SensorState::Open)
            | (State::StuckClosed, SensorState::Open) => Some(
                State::Opening(AssumedTravel::new(now, self.config.travel_duration)),
            ),
            (State::Closed, SensorState::Stuck) | (State::AttemptingOpen(_), SensorState::Stuck) => {
                Some(State::StuckClosed)
            },
            (State::Opening(_), SensorState::Stuck)
            | (State::Open, SensorState::Stuck)
            | (State::Closing(_), SensorState::Stuck) => Some(State::StuckOpen),
            (State::Opening(_), SensorState::Closed)
            | (State::Open, SensorState::Closed)
            | (State::Closing(_), SensorState::Closed)
            | (State::StuckOpen, SensorState::Closed) => Some(State::Closed),
            _ => None,
        };
        match next {
            Some(state) => self.set_current_state(state),
            None => Vec::new(),
        }
    }

    /// Takes the expiry of the current travel. An assumed travel is over, so the
    /// door is open. A confirmed travel was not confirmed: the remote is pressed
    /// again and the travel renewed from `now`, with nothing announced, or, when
    /// every attempt has been used up, the door is stuck closed. Only a door that
    /// travels has an expiry to take.
    pub fn on_expiry(&mut self, now: u64) -> (actions: Vec<Action>)
        requires
            old(self)@.current_state.is_travelling(),
            old(self)@.in_time(now as nat),
        ensures
            (final(self)@, action_views(actions@)) == old(self)@.on_expiry(now as nat),
            final(self)@.wf(),
    {
        match self.current_state {
            State::AttemptingOpen(travel) => {
                let mut travel = travel;
                match travel.reattempt(now) {
                    Ok(()) => {
                        self.current_state = State::AttemptingOpen(travel);
                        let mut actions: Vec<Action> = Vec::new();
                        actions.push(Action::TriggerRemote);
                        actions
                    },
                    Err(()) => self.set_current_state(State::StuckClosed),
                }
            },
            State::Closing(travel) => {
                let mut travel = travel;
                match travel.reattempt(now) {
                    Ok(()) => {
                        self.current_state = State::Closing(travel);
                        let mut actions: Vec<Action> = Vec::new();
                        actions.push(Action::TriggerRemote);
                        actions
                    },
                    Err(()) => self.set_current_state(State::StuckClosed),
                }
            },
            State::Opening(_) => self.set_current_state(State::Open),
            _ => Vec::new(),
        }
    }

    /// Takes a command: it is held back until the door rests, in place of any
    /// command held back before.
    pub fn on_command(&mut self, target_state: TargetState)
        ensures
            final(self)@ == old(self)@.on_command(target_state),
    {
        proof {
            use_type_invariant(&*self);
        }
        self.next_target_state = Some(target_state);
    }

    /// Takes up the command held back, if there is one and the door rests: the
    /// command is dropped from the door and the door sent to its target. A door
    /// that travels keeps the command and does nothing.
    pub fn apply_pending(&mut self, now: u64) -> (actions: Vec<Action>)
        requires
            old(self)@.in_time(now as nat),
        ensures
            (final(self)@, action_views(actions@)) == old(self)@.apply_pending(now as nat),
            final(self)@.wf(),
    {
        let travelling = self.current_state.is_travelling();
        match self.next_target_state {
            Some(target) => {
                if travelling {
                    Vec::new()
                } else {
                    self.next_target_state = None;
                    self.goto_target_state(target, now)
                }
            },
            None => Vec::new(),
        }
    }

    /// The events that a message from the bus is for this door, in the order in
    /// which the door takes them: first the report of the sensor, if the message
    /// is on the sensor's topic, then the command, if it is on the command topic
    /// and names a target. Commands that name no target are passed over.
    pub fn events_of(&self, topic: &str, payload: &str) -> (events: Vec<Event>)
        ensures
            events@ == self@.events_of(topic@, payload@),
    {
        let mut events: Vec<Event> = Vec::new();
        if let Some(reading) = self.config.reading_of(topic, payload) {
            events.push(Event::Detected(reading));
        }
        if let Some(target) = self.config.command_of(topic, payload) {
            events.push(Event::Command(target));
        }
        events
    }

    /// Takes a message from the bus at `now`: the door takes one turn on each
    /// event that the message is, in their order, and no turn on a message that is
    /// none. A message is never the expiry of a travel.
    pub fn on_message(&mut self, topic: &str, payload: &str, now: u64) -> (actions: Vec<Action>)
        requires
            old(self)@.in_time(now as nat),
        ensures
            (final(self)@, action_views(actions@)) == old(self)@.on_message(
                topic@,
                payload@,
                now as nat,
            ),
            final(self)@.wf(),
    {
        let events = self.events_of(topic, payload);
        let mut actions: Vec<Action> = Vec::new();
        let _ = self.current_state();
        let mut taken: usize = 0;
        proof {
            assert(events@.skip(0) =~= events@);
        }
        while taken < events.len()
            invariant
                taken <= events.len(),
                self@.wf(),
                self@.in_time(now as nat),
                forall|i: int| 0 <= i < events.len() ==> !(#[trigger] events[i] is Expired),
                ({
                    let (last, rest) = self@.take(events@.skip(taken as int), now as nat);
                    old(self)@.take(events@, now as nat) == (last, action_views(actions@) + rest)
                }),
            decreases events.len() - taken,
        {
            proof {
                let ahead = events@.skip(taken as int);
                assert(ahead.skip(1) =~= events@.skip(taken + 1));
            }
            let mut first = self.step(events[taken], now);
            actions.append(&mut first);
            taken += 1;
        }
        actions
    }

    /// Whether the door can take a turn on `event` at `now`.
    pub fn accepts(&self, event: Event, now: u64) -> (accepted: bool)
        ensures
            accepted == self@.accepts(event, now as nat),
    {
        if !self.in_time(now) {
            return false;
        }
        match event {
            Event::Expired => self.current_state.is_travelling(),
            _ => true,
        }
    }

    /// Takes a run of turns, each an event and the instant at which it came, in
    /// order, and stops before the first turn that the door cannot take. Hands
    /// back the actions of the turns taken, in the order in which they are to be
    /// carried out, and how many turns were taken.
    pub fn listen(&mut self, turns: &Vec<(Event, u64)>) -> (heard: (Vec<Action>, usize))
        ensures
            (final(self)@, action_views(heard.0@), heard.1 as nat) == old(self)@.listen(
                turn_views(turns@),
            ),
            final(self)@.wf(),
    {
        let mut actions: Vec<Action> = Vec::new();
        let mut taken: usize = 0;
        let _ = self.current_state();
        proof {
            assert(turn_views(turns@).skip(0) =~= turn_views(turns@));
        }
        while taken < turns.len()
            invariant
                taken <= turns.len(),
                self@.wf(),
                ({
                    let (last, rest, more) = self@.listen(turn_views(turns@).skip(taken as int));
                    old(self)@.listen(turn_views(turns@)) == (
                        last,
                        action_views(actions@) + rest,
                        (taken + more) as nat,
                    )
                }),
            ensures
                (self@, action_views(actions@), taken as nat) == old(self)@.listen(
                    turn_views(turns@),
                ),
                self@.wf(),
            decreases turns.len() - taken,
        {
            let (event, now) = turns[taken];
            proof {
                let ahead = turn_views(turns@).skip(taken as int);
                assert(ahead.skip(1) =~= turn_views(turns@).skip(taken + 1));
            }
            if !self.accepts(event, now) {
                break;
            }
            let mut first = self.step(event, now);
            actions.append(&mut first);
            taken += 1;
        }
        (actions, taken)
    }

    /// One turn of the door: the event is handled, then the command held back, which
    /// may be the one that just came, is taken up if the door rests. The actions
    /// come back in the order in which they are to be carried out.
    pub fn step(&mut self, event: Event, now: u64) -> (actions: Vec<Action>)
        requires
            event is Expired ==> old(self)@.current_state.is_travelling(),
            old(self)@.in_time(now as nat),
        ensures
            (final(self)@, action_views(actions@)) == old(self)@.step(event, now as nat),
            final(self)@.wf(),
    {
        let mut actions = match event {
            Event::Detected(detected) => self.on_detected(detected, now),
            Event::Expired => self.on_expiry(now),
            Event::Command(target) => {
                self.on_command(target);
                Vec::new()
            },
        };
        let mut second = self.apply_pending(now);
        actions.append(&mut second);
        actions
    }
}

} // verus!
