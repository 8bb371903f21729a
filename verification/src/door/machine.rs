//! The door's state machine as mathematics: what each event does to the door and
//! what the door asks to be done in return.

use crate::door::config::DoorConfigView;
use crate::door::state::{
    AssumedTravelView, ConfirmedTravelView, SensorState, StateView, TargetState,
};
use crate::mqtt_client::{MqttPublish, MqttPublishView, QoS};
use vstd::prelude::*;

verus! {

/// One of the three things that a door waits for.
#[derive(Debug, Clone, Copy, PartialEq, Eq, Structural)]
pub enum Event {
    /// The sensor reported.
    Detected(SensorState),
    /// The travel of the current state expired.
    Expired,
    /// A command arrived.
    Command(TargetState),
}

/// What an [`Action`] is, with its strings as sequences of characters.
pub enum ActionView {
    Publish(MqttPublishView),
    TriggerRemote,
}

/// One thing that the door asks to be done. Actions are carried out in the order
/// in which the door hands them over.
#[derive(Debug, Clone, PartialEq, Eq)]
pub enum Action {
    /// Send this message to the bus.
    Publish(MqttPublish),
    /// Press the remote, and come back when the press and the pause after it are over.
    TriggerRemote,
}

impl View for Action {
    type V = ActionView;

    open spec fn view(&self) -> ActionView {
        match self {
            Action::Publish(publish) => ActionView::Publish(publish@),
            Action::TriggerRemote => ActionView::TriggerRemote,
        }
    }
}

/// The views of a sequence of actions, in the same order.
pub open spec fn action_views(actions: Seq<Action>) -> Seq<ActionView> {
    actions.map_values(|action: Action| action@)
}

/// A run of turns with its instants as numbers.
pub open spec fn turn_views(turns: Seq<(Event, u64)>) -> Seq<(Event, nat)> {
    turns.map_values(|turn: (Event, u64)| (turn.0, turn.1 as nat))
}

/// What a door is: its configuration, the state it is in, and the one command
/// that it may hold back while it travels.
pub struct DoorView {
    pub config: DoorConfigView,
    pub current_state: StateView,
    pub next_target_state: Option<TargetState>,
}

impl DoorView {
    /// The message that announces the current state: retained.
    pub open spec fn state_publish(self) -> MqttPublishView {
        MqttPublishView {
            topic: self.config.state_topic,
            qos: QoS::AtLeastOnce,
            retain: true,
            payload: self.current_state.topic_string(),
        }
    }

    /// The message that announces the stuck flag of the current state: not retained.
    pub open spec fn stuck_publish(self) -> MqttPublishView {
        MqttPublishView {
            topic: self.config.stuck_topic,
            qos: QoS::AtLeastOnce,
            retain: false,
            payload: self.current_state.stuck_state().payload(),
        }
    }

    /// The two messages that announce the current state, the state first.
    pub open spec fn publish_current_state(self) -> Seq<ActionView> {
        seq![ActionView::Publish(self.state_publish()), ActionView::Publish(self.stuck_publish())]
    }

    /// The door in `state`, and the announcement of it.
    pub open spec fn set_current_state(self, state: StateView) -> (DoorView, Seq<ActionView>) {
        let door = DoorView { current_state: state, ..self };
        (door, door.publish_current_state())
    }

    /// The state in which a door sets out for `target` at `now`. The way to closed
    /// is given the whole travel; the way to open only the latency of the remote,
    /// since the sensor shows at once when the door leaves the closed position.
    pub open spec fn departure(self, target: TargetState, now: nat) -> StateView {
        match target {
            TargetState::Closed => StateView::Closing(
                ConfirmedTravelView::new(now, self.config.travel_duration, self.config.max_attempts),
            ),
            TargetState::Open => StateView::AttemptingOpen(
                ConfirmedTravelView::new(
                    now,
                    self.config.remote.max_remote_latency_duration(),
                    self.config.max_attempts,
                ),
            ),
        }
    }

    /// The state in which a door that is sent to `target` at `now` sets out, if it
    /// sets out: a door that rests at `target` stays.
    pub open spec fn target_transition(self, target: TargetState, now: nat) -> Option<StateView> {
        if self.current_state.rests_at(target) {
            None
        } else {
            Some(self.departure(target, now))
        }
    }

    /// Sends a door that rests to `target`: nothing happens if it rests there;
    /// otherwise it sets out, announces that, and has the remote pressed.
    pub open spec fn goto_target_state(self, target: TargetState, now: nat) -> (
        DoorView,
        Seq<ActionView>,
    ) {
        match self.target_transition(target, now) {
            Some(state) => {
                let (door, announced) = self.set_current_state(state);
                (door, announced.push(ActionView::TriggerRemote))
            },
            None => (self, Seq::empty()),
        }
    }

    /// The state that follows when the sensor reports `detected` at `now`, if the
    /// report changes anything.
    pub open spec fn detected_transition(self, detected: SensorState, now: nat) -> Option<
        StateView,
    > {
        let opening = StateView::Opening(AssumedTravelView::new(now, self.config.travel_duration));
        match (self.current_state, detected) {
            (StateView::Closed, SensorState::Open) => Some(opening),
            (StateView::Closed, SensorState::Stuck) => Some(StateView::StuckClosed),
            (StateView::AttemptingOpen(_), SensorState::Open) => Some(opening),
            (StateView::AttemptingOpen(_), SensorState::Stuck) => Some(StateView::StuckClosed),
            (StateView::Opening(_), SensorState::Closed) => Some(StateView::Closed),
            (StateView::Opening(_), SensorState::Stuck) => Some(StateView::StuckOpen),
            (StateView::Open, SensorState::Closed) => Some(StateView::Closed),
            (StateView::Open, SensorState::Stuck) => Some(StateView::StuckOpen),
            (StateView::Closing(_), SensorState::Closed) => Some(StateView::Closed),
            (StateView::Closing(_), SensorState::Open) => Some(opening),
            (StateView::Closing(_), SensorState::Stuck) => Some(StateView::StuckOpen),
            (StateView::StuckClosed, SensorState::Open) => Some(opening),
            (StateView::StuckOpen, SensorState::Closed) => Some(StateView::Closed),
            _ => None,
        }
    }

    /// What a report of the sensor does.
    pub open spec fn on_detected(self, detected: SensorState, now: nat) -> (
        DoorView,
        Seq<ActionView>,
    ) {
        match self.detected_transition(detected, now) {
            Some(state) => self.set_current_state(state),
            None => (self, Seq::empty()),
        }
    }

    /// The state that follows when the current travel expires, if the expiry
    /// changes the state: an assumed travel is over, so the door is open; a
    /// confirmed travel with every attempt used up leaves the door stuck closed.
    pub open spec fn expiry_transition(self) -> Option<StateView> {
        match self.current_state {
            StateView::AttemptingOpen(travel) | StateView::Closing(travel) => {
                if travel.exhausted() {
                    Some(StateView::StuckClosed)
                } else {
                    None
                }
            },
            StateView::Opening(_) => Some(StateView::Open),
            _ => None,
        }
    }

    /// What the expiry of the current travel does at `now`. Where it changes the
    /// state, the new state is announced. Where it does not, a confirmed travel
    /// was not confirmed and has attempts left: the remote is pressed again and
    /// the travel renewed, with nothing announced. (A door that rests has no
    /// travel; the function then gives the door as it is.)
    pub open spec fn on_expiry(self, now: nat) -> (DoorView, Seq<ActionView>) {
        match self.expiry_transition() {
            Some(state) => self.set_current_state(state),
            None => match self.current_state.confirmed_travel() {
                Some(travel) => (
                    DoorView {
                        current_state: self.current_state.with_confirmed_travel(
                            travel.reattempt(now),
                        ),
                        ..self
                    },
                    seq![ActionView::TriggerRemote],
                ),
                None => (self, Seq::empty()),
            },
        }
    }

    /// What a command does: it is held back, in place of any command held back before.
    pub open spec fn on_command(self, target: TargetState) -> DoorView {
        DoorView { next_target_state: Some(target), ..self }
    }

    /// What one event does, before the command held back is looked at.
    pub open spec fn handle(self, event: Event, now: nat) -> (DoorView, Seq<ActionView>) {
        match event {
            Event::Detected(detected) => self.on_detected(detected, now),
            Event::Expired => self.on_expiry(now),
            Event::Command(target) => (self.on_command(target), Seq::empty()),
        }
    }

    /// Takes up the command held back, if there is one and the door rests;
    /// a door that travels keeps it.
    pub open spec fn apply_pending(self, now: nat) -> (DoorView, Seq<ActionView>) {
        match self.next_target_state {
            Some(target) if !self.current_state.is_travelling() => (DoorView {
                next_target_state: None,
                ..self
            }).goto_target_state(target, now),
            _ => (self, Seq::empty()),
        }
    }

    /// One turn of the door: the event is handled, then the command held back is
    /// taken up if the door rests.
    pub open spec fn step(self, event: Event, now: nat) -> (DoorView, Seq<ActionView>) {
        let (handled, first) = self.handle(event, now);
        let (door, second) = handled.apply_pending(now);
        (door, first + second)
    }

    /// Whether the door can take a turn on `event` at `now`: a travel that starts
    /// then ends at an instant that can be counted, and only the travel of a door
    /// that travels expires.
    pub open spec fn accepts(self, event: Event, now: nat) -> bool {
        self.in_time(now) && (event is Expired ==> self.current_state.is_travelling())
    }

    /// What a run of turns does, each an event and the instant at which it came:
    /// the door takes them in order, up to the first that it cannot take. The
    /// result is the door after the last turn taken, the actions of the turns
    /// taken, in order, and how many were taken.
    pub open spec fn listen(self, turns: Seq<(Event, nat)>) -> (DoorView, Seq<ActionView>, nat)
        decreases turns.len(),
    {
        if turns.len() == 0 || !self.accepts(turns[0].0, turns[0].1) {
            (self, Seq::empty(), 0)
        } else {
            let (door, first) = self.step(turns[0].0, turns[0].1);
            let (last, rest, taken) = door.listen(turns.skip(1));
            (last, first + rest, taken + 1)
        }
    }

    /// The door as it starts: in the state that the first reading stands for,
    /// announced, and sent to the initial target if one is configured.
    pub open spec fn start(config: DoorConfigView, reading: SensorState, now: nat) -> (
        DoorView,
        Seq<ActionView>,
    ) {
        let door = DoorView {
            config,
            current_state: StateView::of_sensor(reading),
            next_target_state: None,
        };
        let announced = door.publish_current_state();
        match config.initial_target_state {
            Some(target) => {
                let (door, sent) = door.goto_target_state(target, now);
                (door, announced + sent)
            },
            None => (door, announced),
        }
    }

    /// The events that a message from the bus is for this door, in the order in
    /// which the door takes them: the report of the sensor, if the message is on
    /// the sensor's topic, and then the command, if the message is on the command
    /// topic and its payload names a target. A message on one topic that serves
    /// as both is both; a message on any other topic is nothing.
    pub open spec fn events_of(self, topic: Seq<char>, payload: Seq<char>) -> Seq<Event> {
        let reported = match self.config.reading_of(topic, payload) {
            Some(reading) => seq![Event::Detected(reading)],
            None => Seq::empty(),
        };
        let commanded = match self.config.command_of(topic, payload) {
            Some(target) => seq![Event::Command(target)],
            None => Seq::empty(),
        };
        reported + commanded
    }

    /// What a run of events does that all come at `now`: one turn for each, in order.
    pub open spec fn take(self, events: Seq<Event>, now: nat) -> (DoorView, Seq<ActionView>)
        decreases events.len(),
    {
        if events.len() == 0 {
            (self, Seq::empty())
        } else {
            let (door, first) = self.step(events[0], now);
            let (last, rest) = door.take(events.skip(1), now);
            (last, first + rest)
        }
    }

    /// What a message from the bus does at `now`: one turn for each event that the
    /// message is, in their order.
    pub open spec fn on_message(self, topic: Seq<char>, payload: Seq<char>, now: nat) -> (
        DoorView,
        Seq<ActionView>,
    ) {
        self.take(self.events_of(topic, payload), now)
    }

    /// The longest that a travel lasts which the door may start or renew.
    pub open spec fn horizon(self) -> nat {
        match self.current_state.confirmed_travel() {
            Some(travel) if travel.duration > self.config.longest_travel() => travel.duration,
            _ => self.config.longest_travel(),
        }
    }

    /// Whether every travel that the door may start or renew at `now` expires at an
    /// instant that the machine can count.
    pub open spec fn in_time(self, now: nat) -> bool {
        now + self.horizon() <= u64::MAX
    }

    /// The configuration is sound and of the travel of the current state, if it is
    /// a confirmed one, no more attempts were made than may be.
    pub open spec fn wf(self) -> bool {
        self.config.wf() && self.current_state.wf()
    }
}

} // verus!
