//! What holds of the door's machine, whatever the door and whatever the event.

use crate::door::config::DoorConfigView;
use crate::door::machine::{ActionView, DoorView, Event};
use crate::door::state::{
    AssumedTravelView, ConfirmedTravelView, SensorState, StateView, TargetState,
};
use crate::mqtt_client::{MqttPublishView, QoS};
use vstd::prelude::*;

verus! {

/// The payloads of the messages for `topic` among `actions` that are retained, or
/// of those that are not, in their order. The state is announced retained and the
/// stuck flag is not, so the two are told apart even on one topic.
pub open spec fn payloads_on(actions: Seq<ActionView>, topic: Seq<char>, retain: bool) -> Seq<
    Seq<char>,
>
    decreases actions.len(),
{
    if actions.len() == 0 {
        Seq::empty()
    } else {
        let before = payloads_on(actions.drop_last(), topic, retain);
        match actions.last() {
            ActionView::Publish(publish) if publish.topic == topic && publish.retain == retain => {
                before.push(publish.payload)
            },
            _ => before,
        }
    }
}

/// How many times `actions` ask for the remote to be pressed.
pub open spec fn presses(actions: Seq<ActionView>) -> nat
    decreases actions.len(),
{
    if actions.len() == 0 {
        0
    } else if actions.last() is TriggerRemote {
        presses(actions.drop_last()) + 1
    } else {
        presses(actions.drop_last())
    }
}

/// The payloads for a topic among two runs of actions are those of the first run
/// followed by those of the second.
proof fn lemma_payloads_on_add(
    first: Seq<ActionView>,
    second: Seq<ActionView>,
    topic: Seq<char>,
    retain: bool,
)
    ensures
        payloads_on(first + second, topic, retain) == payloads_on(first, topic, retain)
            + payloads_on(second, topic, retain),
    decreases second.len(),
{
    if second.len() > 0 {
        assert((first + second).drop_last() =~= first + second.drop_last());
        lemma_payloads_on_add(first, second.drop_last(), topic, retain);
    }
}

/// The states that an optional transition passes into: one or none.
pub open spec fn passed(transition: Option<StateView>) -> Seq<StateView> {
    match transition {
        Some(state) => seq![state],
        None => Seq::empty(),
    }
}

/// The states that the door passes into during one turn, in their order: the one
/// that the event leads to, if it leads anywhere, and then the one in which the
/// door sets out for the command held back, if it takes that command up.
pub open spec fn states_passed(door: DoorView, event: Event, now: nat) -> Seq<StateView> {
    let handled = door.handle(event, now).0;
    let first = match event {
        Event::Detected(detected) => door.detected_transition(detected, now),
        Event::Expired => door.expiry_transition(),
        Event::Command(_) => None,
    };
    let second = match handled.next_target_state {
        Some(target) if !handled.current_state.is_travelling() => handled.target_transition(
            target,
            now,
        ),
        _ => None,
    };
    passed(first) + passed(second)
}

/// A door that travels takes up no command: the command held back stays where it
/// is, the door stays as it is, and nothing is asked for. So a door is only ever
/// sent to a target while it rests.
pub proof fn law_travelling_door_defers_command(door: DoorView, now: nat)
    requires
        door.current_state.is_travelling(),
    ensures
        door.apply_pending(now) == (door, Seq::<ActionView>::empty()),
{
}

/// A door starts in a state in which it rests, so the initial target, the one
/// target that is not held back first, also meets a door that rests. And a
/// command that comes as an event is never acted on by the handling of the event
/// itself: it is held back.
pub proof fn law_commands_meet_resting_door(
    reading: SensorState,
    door: DoorView,
    target: TargetState,
    now: nat,
)
    ensures
        !StateView::of_sensor(reading).is_travelling(),
        door.handle(Event::Command(target), now) == (
            DoorView { next_target_state: Some(target), ..door },
            Seq::<ActionView>::empty(),
        ),
        door.current_state.is_travelling() ==> door.step(Event::Command(target), now) == (
            DoorView { next_target_state: Some(target), ..door },
            Seq::<ActionView>::empty(),
        ),
{
}

/// No turn of the door lets more attempts of a travel be made than may be: a
/// door whose travel is within its bound is so after every event.
pub proof fn law_attempts_stay_bounded(door: DoorView, event: Event, now: nat)
    requires
        door.current_state.wf(),
    ensures
        door.handle(event, now).0.current_state.wf(),
        door.step(event, now).0.current_state.wf(),
{
}

/// A door that starts is within the bound of its travel, if it starts with one.
pub proof fn law_start_is_bounded(config: DoorConfigView, reading: SensorState, now: nat)
    ensures
        DoorView::start(config, reading, now).0.current_state.wf(),
{
}

/// In every state that a door can reach, whatever events come when, no more
/// attempts of its travel were made than may be, and its configuration is the
/// one it had: what holds of a door holds of the door after any run of turns.
/// With [`law_start_is_bounded`], it holds of every door from its start.
pub proof fn law_reachable_states_are_bounded(door: DoorView, turns: Seq<(Event, nat)>)
    requires
        door.current_state.wf(),
    ensures
        door.listen(turns).0.current_state.wf(),
        door.listen(turns).0.config == door.config,
        door.listen(turns).2 <= turns.len(),
    decreases turns.len(),
{
    if turns.len() > 0 && door.accepts(turns[0].0, turns[0].1) {
        law_attempts_stay_bounded(door, turns[0].0, turns[0].1);
        law_reachable_states_are_bounded(door.step(turns[0].0, turns[0].1).0, turns.skip(1));
    }
}

/// Every transition is announced exactly once on the state topic, retained, with
/// the topic string of the state that the door passes into, and its stuck flag
/// once on the stuck topic, not retained. No announcement presses the remote.
pub proof fn law_transition_announced_once(door: DoorView, state: StateView)
    ensures
        payloads_on(door.set_current_state(state).1, door.config.state_topic, true) == seq![
            state.topic_string(),
        ],
        payloads_on(door.set_current_state(state).1, door.config.stuck_topic, false) == seq![
            state.stuck_state().payload(),
        ],
        presses(door.set_current_state(state).1) == 0,
{
    let actions = door.set_current_state(state).1;
    let topic = door.config.state_topic;
    assert(payloads_on(actions.drop_last().drop_last(), topic, true) =~= Seq::<
        Seq<char>,
    >::empty());
    assert(payloads_on(actions.drop_last(), topic, true) =~= seq![state.topic_string()]);
    let stuck = door.config.stuck_topic;
    assert(payloads_on(actions.drop_last().drop_last(), stuck, false) =~= Seq::<
        Seq<char>,
    >::empty());
    assert(payloads_on(actions.drop_last(), stuck, false) =~= Seq::<Seq<char>>::empty());
    assert(presses(actions.drop_last().drop_last()) == 0);
    assert(presses(actions.drop_last()) == 0);
}

/// What one turn of the door puts on the state topic is the topic string of each
/// state that the door passes into during the turn, in order, and nothing else.
/// A turn that passes into no state puts nothing there.
pub proof fn law_turn_announces_each_state(door: DoorView, event: Event, now: nat)
    ensures
        payloads_on(door.step(event, now).1, door.config.state_topic, true) == states_passed(
            door,
            event,
            now,
        ).map_values(|state: StateView| state.topic_string()),
{
    let topic = door.config.state_topic;
    let (handled, first) = door.handle(event, now);
    let (after, second) = handled.apply_pending(now);
    lemma_payloads_on_add(first, second, topic, true);
    let first_transition = match event {
        Event::Detected(detected) => door.detected_transition(detected, now),
        Event::Expired => door.expiry_transition(),
        Event::Command(_) => None,
    };
    let second_transition = match handled.next_target_state {
        Some(target) if !handled.current_state.is_travelling() => handled.target_transition(
            target,
            now,
        ),
        _ => None,
    };
    let name = |state: StateView| state.topic_string();
    assert(payloads_on(first, topic, true) == passed(first_transition).map_values(name)) by {
        match first_transition {
            Some(state) => {
                law_transition_announced_once(door, state);
                assert(first == door.set_current_state(state).1);
                assert(passed(first_transition).map_values(name) =~= seq![state.topic_string()]);
            },
            None => {
                lemma_no_transition_announces_nothing(door, event, now);
                assert(passed(first_transition).map_values(name) =~= Seq::<Seq<char>>::empty());
            },
        }
    }
    assert(payloads_on(second, topic, true) == passed(second_transition).map_values(name)) by {
        match second_transition {
            Some(state) => {
                let taken = DoorView { next_target_state: None, ..handled };
                law_transition_announced_once(taken, state);
                let announced = taken.set_current_state(state).1;
                assert(second == announced.push(ActionView::TriggerRemote));
                assert(second.drop_last() =~= announced);
                assert(passed(second_transition).map_values(name) =~= seq![state.topic_string()]);
            },
            None => {
                assert(second =~= Seq::<ActionView>::empty() || handled.next_target_state is Some);
                assert(second =~= Seq::<ActionView>::empty());
                assert(passed(second_transition).map_values(name) =~= Seq::<Seq<char>>::empty());
            },
        }
    }
}

/// An event that leads to no state has nothing put on the state topic.
proof fn lemma_no_transition_announces_nothing(door: DoorView, event: Event, now: nat)
    requires
        match event {
            Event::Detected(detected) => door.detected_transition(detected, now) is None,
            Event::Expired => door.expiry_transition() is None,
            Event::Command(_) => true,
        },
    ensures
        payloads_on(door.handle(event, now).1, door.config.state_topic, true) == Seq::<
            Seq<char>,
        >::empty(),
{
    let actions = door.handle(event, now).1;
    let topic = door.config.state_topic;
    if actions.len() > 0 {
        assert(payloads_on(actions.drop_last(), topic, true) =~= Seq::<Seq<char>>::empty());
    }
}

/// Sending a door that rests open or closed to where it already is does nothing:
/// the door is as before and nothing is asked for.
pub proof fn law_goto_end_state_is_noop(door: DoorView, now: nat)
    requires
        door.current_state is Open || door.current_state is Closed,
    ensures
        door.goto_target_state(door.current_state.end_state(), now) == (
            door,
            Seq::<ActionView>::empty(),
        ),
{
}

/// Announcements are not deduplicated: putting the door in the same state twice
/// in a row announces it twice, with the same two messages each time, and
/// announcing the current state again gives those two messages once more.
pub proof fn law_repeated_state_announced_again(door: DoorView, state: StateView)
    ensures
        ({
            let (once, first) = door.set_current_state(state);
            let (twice, second) = once.set_current_state(state);
            &&& first == second
            &&& first.len() == 2
            &&& once == twice
            &&& twice.publish_current_state() == second
        }),
{
}

/// The announcement of a state of `door`'s kind on the state topic: retained, to
/// be delivered at least once.
pub open spec fn says(door: DoorView, payload: Seq<char>) -> ActionView {
    ActionView::Publish(
        MqttPublishView {
            topic: door.config.state_topic,
            qos: QoS::AtLeastOnce,
            retain: true,
            payload,
        },
    )
}

/// The announcement of a stuck flag on the stuck topic: not retained, to be
/// delivered at least once.
pub open spec fn flags(door: DoorView, payload: Seq<char>) -> ActionView {
    ActionView::Publish(
        MqttPublishView {
            topic: door.config.stuck_topic,
            qos: QoS::AtLeastOnce,
            retain: false,
            payload,
        },
    )
}

/// A command that the door holds back is taken up in a turn exactly if the door
/// rests once the event of the turn is handled: then the command leaves the door
/// and the door is sent to its target. While the door travels it is sent
/// nowhere, asks for nothing on account of the command, and keeps the command.
pub proof fn law_held_command_waits_for_rest(door: DoorView, command: TargetState, now: nat)
    requires
        door.next_target_state == Some(command),
    ensures
        door.current_state.is_travelling() ==> door.apply_pending(now) == (
            door,
            Seq::<ActionView>::empty(),
        ),
        !door.current_state.is_travelling() ==> door.apply_pending(now) == (DoorView {
            next_target_state: None,
            ..door
        }).goto_target_state(command, now),
        !door.current_state.is_travelling() ==> door.apply_pending(now).0.next_target_state
            is None,
{
}

/// A door that attempts to open and is seen open has begun to open: it is
/// opening, for the length of the travel from `now`, and says so once, with the
/// stuck flag clear. The remote is not pressed, and a command held back stays.
pub proof fn law_attempt_seen_open_is_opening(door: DoorView, now: nat)
    requires
        door.current_state is AttemptingOpen,
    ensures
        door.step(Event::Detected(SensorState::Open), now) == (
            DoorView {
                current_state: StateView::Opening(
                    AssumedTravelView { expiry: now + door.config.travel_duration },
                ),
                ..door
            },
            seq![says(door, "opening"@), flags(door, "ok"@)],
        ),
        presses(door.step(Event::Detected(SensorState::Open), now).1) == 0,
{
    let actions = door.on_detected(SensorState::Open, now).1;
    lemma_announcement_presses_nothing(door, door.on_detected(SensorState::Open, now).0.current_state);
}

/// An announcement asks for no press.
proof fn lemma_announcement_presses_nothing(door: DoorView, state: StateView)
    ensures
        presses(door.set_current_state(state).1) == 0,
{
    law_transition_announced_once(door, state);
}

/// A door that is opening is open when its travel expires, whatever the sensor
/// last said: it says so once, with the stuck flag clear, and the remote is not
/// pressed for it. Only then, in the same turn, is a command held back taken up.
pub proof fn law_opening_expires_open(door: DoorView, now: nat)
    requires
        door.current_state is Opening,
    ensures
        door.on_expiry(now) == (
            DoorView { current_state: StateView::Open, ..door },
            seq![says(door, "open"@), flags(door, "ok"@)],
        ),
        door.next_target_state is None ==> door.step(Event::Expired, now) == door.on_expiry(now),
        door.next_target_state matches Some(command) ==> door.step(Event::Expired, now) == (
            (DoorView {
                current_state: StateView::Open,
                next_target_state: None,
                ..door
            }).goto_target_state(command, now).0,
            seq![says(door, "open"@), flags(door, "ok"@)] + (DoorView {
                current_state: StateView::Open,
                next_target_state: None,
                ..door
            }).goto_target_state(command, now).1,
        ),
{
}

/// A door that is closing and is seen closed is closed: it says so once, with
/// the stuck flag clear, the remote is not pressed again, and no expiry is left.
pub proof fn law_closing_seen_closed_is_closed(door: DoorView, now: nat)
    requires
        door.current_state is Closing,
    ensures
        door.on_detected(SensorState::Closed, now) == (
            DoorView { current_state: StateView::Closed, ..door },
            seq![says(door, "closed"@), flags(door, "ok"@)],
        ),
        door.on_detected(SensorState::Closed, now).0.current_state.expiry() is None,
        presses(door.on_detected(SensorState::Closed, now).1) == 0,
{
    lemma_announcement_presses_nothing(door, StateView::Closed);
}

/// A confirmed travel that expires with attempts left is attempted once more:
/// the remote is pressed once, the attempt is counted, the expiry is renewed by
/// the same duration from `now`, and nothing is announced. The door stays in the
/// state it was in and keeps the command it holds back.
pub proof fn law_expiry_with_attempts_left_presses_again(door: DoorView, now: nat)
    requires
        door.current_state.confirmed_travel() matches Some(travel) && !travel.exhausted(),
    ensures
        ({
            let travel = door.current_state.confirmed_travel()->0;
            door.step(Event::Expired, now) == (
                DoorView {
                    current_state: door.current_state.with_confirmed_travel(
                        ConfirmedTravelView {
                            expiry: now + travel.duration,
                            attempt: travel.attempt + 1,
                            ..travel
                        },
                    ),
                    ..door
                },
                seq![ActionView::TriggerRemote],
            )
        }),
{
}

/// A closed door that may make three attempts, is told to open and is never seen
/// to move, presses its remote three times in all, the first press included, and
/// is then stuck closed: it announced that it is opening when it set out, and
/// announces closed and stuck when it gives up. No expiry is left.
pub proof fn law_three_attempts_then_stuck(
    door: DoorView,
    told: nat,
    first: nat,
    second: nat,
    third: nat,
)
    requires
        door.current_state is Closed,
        door.next_target_state is None,
        door.config.max_attempts == 3,
    ensures
        ({
            let (set_out, a) = door.step(Event::Command(TargetState::Open), told);
            let (again, b) = set_out.step(Event::Expired, first);
            let (once_more, c) = again.step(Event::Expired, second);
            let (given_up, d) = once_more.step(Event::Expired, third);
            &&& a == seq![says(door, "opening"@), flags(door, "ok"@), ActionView::TriggerRemote]
            &&& b == seq![ActionView::TriggerRemote]
            &&& c == seq![ActionView::TriggerRemote]
            &&& d == seq![says(door, "closed"@), flags(door, "stuck"@)]
            &&& given_up == (DoorView { current_state: StateView::StuckClosed, ..door })
            &&& given_up.current_state.expiry() is None
        }),
{
}

/// A closed door that is opened by hand, with no command held back or coming,
/// goes to opening when it is seen open and to open when that travel expires. It
/// announces opening and then open, each with the stuck flag clear, in that
/// order, never attempts to open, and never has its remote pressed.
pub proof fn law_door_opened_by_hand(door: DoorView, seen: nat, expired: nat)
    requires
        door.current_state is Closed,
        door.next_target_state is None,
    ensures
        ({
            let (opening, a) = door.step(Event::Detected(SensorState::Open), seen);
            let (open, b) = opening.step(Event::Expired, expired);
            &&& opening == (DoorView {
                current_state: StateView::Opening(
                    AssumedTravelView { expiry: seen + door.config.travel_duration },
                ),
                ..door
            })
            &&& a == seq![says(door, "opening"@), flags(door, "ok"@)]
            &&& open == (DoorView { current_state: StateView::Open, ..door })
            &&& b == seq![says(door, "open"@), flags(door, "ok"@)]
        }),
{
}

/// Of two commands that come while the door is opening, only the later is kept.
/// When the travel expires the door is open; the command kept, to open, finds
/// the door where it sends it, so it is dropped without a travel: open is the
/// last thing announced, closing never is, and the remote is not pressed.
pub proof fn law_later_command_replaces_earlier(
    door: DoorView,
    first: nat,
    second: nat,
    expired: nat,
)
    requires
        door.current_state is Opening,
    ensures
        ({
            let (one, a) = door.step(Event::Command(TargetState::Closed), first);
            let (two, b) = one.step(Event::Command(TargetState::Open), second);
            let (open, c) = two.step(Event::Expired, expired);
            &&& a == Seq::<ActionView>::empty()
            &&& b == Seq::<ActionView>::empty()
            &&& two == (DoorView { next_target_state: Some(TargetState::Open), ..door })
            &&& c == seq![says(door, "open"@), flags(door, "ok"@)]
            &&& open == (DoorView {
                current_state: StateView::Open,
                next_target_state: None,
                ..door
            })
        }),
{
}

/// A message on a topic that serves as both the sensor's and the command topic
/// is both: a payload that names a target is a report that tells nothing,
/// followed by the command. On a command topic of its own it is the command alone.
pub proof fn law_command_is_read_on_any_command_topic(
    door: DoorView,
    topic: Seq<char>,
    command: TargetState,
)
    requires
        topic == door.config.command_topic,
    ensures
        door.events_of(topic, command.payload()).last() == Event::Command(command),
        topic != door.config.sensor_topic ==> door.events_of(topic, command.payload()) == seq![
            Event::Command(command),
        ],
        topic == door.config.sensor_topic ==> door.events_of(topic, command.payload()).len() == 2
            && door.events_of(topic, command.payload())[0] is Detected,
{
    reveal_strlit("OPEN");
    reveal_strlit("CLOSED");
    assert("OPEN"@ != "CLOSED"@) by {
        assert("OPEN"@.len() == 4);
        assert("CLOSED"@.len() == 6);
    }
}

} // verus!
