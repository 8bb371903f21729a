//! Lifecycle states of the door and the travels that three of them carry.
//!
//! Time is counted in milliseconds. An instant is a count from an origin that the
//! caller chooses and keeps; a duration is a count of its own.

use crate::text::str_eq;
use vstd::prelude::*;

verus! {

/// The state the door is asked to reach.
#[derive(Debug, Clone, Copy, PartialEq, Eq, Structural)]
pub enum TargetState {
    Open,
    Closed,
}

impl TargetState {
    /// The command payload that asks for this state.
    pub open spec fn payload(self) -> Seq<char> {
        match self {
            TargetState::Open => "OPEN"@,
            TargetState::Closed => "CLOSED"@,
        }
    }

    /// The target that a command payload asks for, if it asks for one.
    pub open spec fn parse(text: Seq<char>) -> Result<TargetState, ()> {
        if text == "OPEN"@ {
            Ok(TargetState::Open)
        } else if text == "CLOSED"@ {
            Ok(TargetState::Closed)
        } else {
            Err(())
        }
    }

    /// Reads a command payload: `"OPEN"` and `"CLOSED"` name a target, nothing else does.
    pub fn from_str(s: &str) -> (target: Result<TargetState, ()>)
        ensures
            target == TargetState::parse(s@),
    {
        if str_eq(s, "OPEN") {
            Ok(TargetState::Open)
        } else if str_eq(s, "CLOSED") {
            Ok(TargetState::Closed)
        } else {
            Err(())
        }
    }

    /// The command payload of this target, `"OPEN"` or `"CLOSED"`.
    pub fn as_str(&self) -> (text: &'static str)
        ensures
            text@ == self.payload(),
    {
        match self {
            TargetState::Open => "OPEN",
            TargetState::Closed => "CLOSED",
        }
    }

    /// The command payload of this target as an owned string.
    pub fn to_string(&self) -> (text: String)
        ensures
            text@ == self.payload(),
    {
        self.as_str().to_owned()
    }
}

/// Whether the door has given up moving.
#[derive(Debug, Clone, Copy, PartialEq, Eq, Structural)]
pub enum Stuck {
    Okay,
    Stuck,
}

impl Stuck {
    /// The payload published for this flag.
    pub open spec fn payload(self) -> Seq<char> {
        match self {
            Stuck::Okay => "ok"@,
            Stuck::Stuck => "stuck"@,
        }
    }

    /// The payload published for this flag, `"ok"` or `"stuck"`.
    pub fn as_str(&self) -> (text: &'static str)
        ensures
            text@ == self.payload(),
    {
        match self {
            Stuck::Okay => "ok",
            Stuck::Stuck => "stuck",
        }
    }
}

/// What a sensor can tell of the door: open, closed, or that it cannot tell.
///
/// `Stuck` also stands for a reading that could not be understood.
#[derive(Debug, Clone, Copy, PartialEq, Eq, Structural)]
pub enum SensorState {
    Open,
    Closed,
    Stuck,
}

impl SensorState {
    /// The reading that a textual state names, if it names one.
    pub open spec fn parse(text: Seq<char>) -> Result<SensorState, ()> {
        if text == "OPEN"@ {
            Ok(SensorState::Open)
        } else if text == "CLOSED"@ {
            Ok(SensorState::Closed)
        } else {
            Err(())
        }
    }

    /// The reading that a contact sensor's `contact` member stands for: a closed
    /// contact is a closed door, an open contact an open door, and a member that
    /// is missing or no boolean is no knowledge at all.
    pub open spec fn of_contact(contact: Option<bool>) -> SensorState {
        match contact {
            Some(true) => SensorState::Closed,
            Some(false) => SensorState::Open,
            None => SensorState::Stuck,
        }
    }

    /// The reading in which a door that reached `target` is found.
    pub open spec fn of_target(target: TargetState) -> SensorState {
        match target {
            TargetState::Open => SensorState::Open,
            TargetState::Closed => SensorState::Closed,
        }
    }

    /// Reads a textual state: `"OPEN"` and `"CLOSED"` name a reading, nothing else does.
    pub fn from_str(s: &str) -> (reading: Result<SensorState, ()>)
        ensures
            reading == SensorState::parse(s@),
    {
        if str_eq(s, "OPEN") {
            Ok(SensorState::Open)
        } else if str_eq(s, "CLOSED") {
            Ok(SensorState::Closed)
        } else {
            Err(())
        }
    }

    /// The reading for what was found under `contact` in a sensor's message.
    pub fn from_contact(contact: Option<bool>) -> (reading: SensorState)
        ensures
            reading == SensorState::of_contact(contact),
    {
        match contact {
            Some(true) => SensorState::Closed,
            Some(false) => SensorState::Open,
            None => SensorState::Stuck,
        }
    }
}

impl From<TargetState> for SensorState {
    fn from(target_state: TargetState) -> (reading: SensorState) {
        match target_state {
            TargetState::Open => SensorState::Open,
            TargetState::Closed => SensorState::Closed,
        }
    }
}

impl vstd::std_specs::convert::FromSpecImpl<TargetState> for SensorState {
    open spec fn obeys_from_spec() -> bool {
        true
    }

    open spec fn from_spec(target_state: TargetState) -> SensorState {
        SensorState::of_target(target_state)
    }
}

/// What a [`ConfirmedTravel`] is, as numbers.
pub struct ConfirmedTravelView {
    /// The instant at which the travel expires.
    pub expiry: nat,
    /// How many attempts of the travel were made, the first included.
    pub attempt: nat,
    /// How long each attempt is given.
    pub duration: nat,
    /// How many attempts of the travel may be made in all.
    pub max_attempts: nat,
}

impl ConfirmedTravelView {
    /// A travel whose first attempt starts at `now`. The attempt is counted,
    /// unless no attempt may be: such a travel counts nothing and is exhausted
    /// from the start.
    pub open spec fn new(now: nat, duration: nat, max_attempts: nat) -> ConfirmedTravelView {
        ConfirmedTravelView {
            expiry: now + duration,
            attempt: if max_attempts == 0 {
                0
            } else {
                1
            },
            duration,
            max_attempts,
        }
    }

    /// No more attempts of the travel were made than may be.
    pub open spec fn wf(self) -> bool {
        self.attempt <= self.max_attempts
    }

    /// Whether every attempt has been used up.
    pub open spec fn exhausted(self) -> bool {
        self.attempt >= self.max_attempts
    }

    /// The travel after one more attempt that starts at `now`.
    pub open spec fn reattempt(self, now: nat) -> ConfirmedTravelView {
        ConfirmedTravelView { expiry: now + self.duration, attempt: self.attempt + 1, ..self }
    }
}

/// The count of the attempts of a travel, and its bound.
#[derive(Debug, Clone, Copy, PartialEq, Eq)]
struct Attempts {
    made: u8,
    allowed: u8,
}

impl Attempts {
    /// Holds of every count there is: no more attempts were made than allowed.
    #[verifier::type_invariant]
    spec fn inv(self) -> bool {
        self.made <= self.allowed
    }
}

/// A travel whose end the sensor confirms. Until it does, the travel expires after
/// its duration and may then be attempted again, up to a bounded number of attempts.
#[derive(Debug, Clone, Copy, PartialEq, Eq)]
pub struct ConfirmedTravel {
    expiry: u64,
    attempts: Attempts,
    duration: u64,
}

impl View for ConfirmedTravel {
    type V = ConfirmedTravelView;

    closed spec fn view(&self) -> ConfirmedTravelView {
        ConfirmedTravelView {
            expiry: self.expiry as nat,
            attempt: self.attempts.made as nat,
            duration: self.duration as nat,
            max_attempts: self.attempts.allowed as nat,
        }
    }
}

impl ConfirmedTravel {
    /// Starts a travel at `now` that expires after `duration` and may be attempted
    /// `max_attempts` times in all, the attempt that starts now included.
    pub fn new(now: u64, duration: u64, max_attempts: u8) -> (travel: ConfirmedTravel)
        requires
            now + duration <= u64::MAX,
        ensures
            travel@ == ConfirmedTravelView::new(now as nat, duration as nat, max_attempts as nat),
    {
        ConfirmedTravel {
            expiry: now + duration,
            attempts: Attempts {
                made: if max_attempts == 0 {
                    0
                } else {
                    1
                },
                allowed: max_attempts,
            },
            duration,
        }
    }

    /// The instant at which the travel expires.
    pub fn expiry(&self) -> (expiry: u64)
        ensures
            expiry == self@.expiry,
    {
        self.expiry
    }

    /// The instant at which the travel expires, for change in place: whoever holds
    /// the travel may put the expiry off or bring it forward.
    pub fn expiry_mut(&mut self) -> (expiry: &mut u64)
        ensures
            *expiry == old(self)@.expiry,
            final(self)@ == (ConfirmedTravelView { expiry: *final(expiry) as nat, ..old(self)@ }),
    {
        &mut self.expiry
    }

    /// How many attempts of the travel were made, the first included. It is never
    /// more than the travel allows.
    pub fn attempt(&self) -> (attempt: u8)
        ensures
            attempt == self@.attempt,
            self@.wf(),
    {
        proof {
            use_type_invariant(&self.attempts);
        }
        self.attempts.made
    }

    /// How long each attempt is given.
    pub fn duration(&self) -> (duration: u64)
        ensures
            duration == self@.duration,
    {
        self.duration
    }

    /// How many attempts of the travel may be made in all.
    pub fn max_attempts(&self) -> (max_attempts: u8)
        ensures
            max_attempts == self@.max_attempts,
            self@.wf(),
    {
        proof {
            use_type_invariant(&self.attempts);
        }
        self.attempts.allowed
    }

    /// Attempts the travel again from `now`: counts the attempt and renews the
    /// expiry. Fails, and changes nothing, when every attempt has been used up.
    pub fn reattempt(&mut self, now: u64) -> (outcome: Result<(), ()>)
        requires
            now + old(self)@.duration <= u64::MAX,
        ensures
            outcome is Err <==> old(self)@.exhausted(),
            outcome is Err ==> final(self)@ == old(self)@,
            outcome is Ok ==> final(self)@ == old(self)@.reattempt(now as nat),
            old(self)@.wf(),
            final(self)@.wf(),
    {
        proof {
            use_type_invariant(&self.attempts);
        }
        if self.attempts.made >= self.attempts.allowed {
            Err(())
        } else {
            self.expiry = now + self.duration;
            self.attempts = Attempts { made: self.attempts.made + 1, allowed: self.attempts.allowed };
            Ok(())
        }
    }
}

/// What an [`AssumedTravel`] is, as a number.
pub struct AssumedTravelView {
    /// The instant at which the travel is taken to be over.
    pub expiry: nat,
}

impl AssumedTravelView {
    /// A travel that starts at `now` and is over after `duration`.
    pub open spec fn new(now: nat, duration: nat) -> AssumedTravelView {
        AssumedTravelView { expiry: now + duration }
    }
}

/// A travel whose end no sensor can confirm: once it expires the door is taken to
/// have arrived.
#[derive(Debug, Clone, Copy, PartialEq, Eq)]
pub struct AssumedTravel {
    expiry: u64,
}

impl View for AssumedTravel {
    type V = AssumedTravelView;

    closed spec fn view(&self) -> AssumedTravelView {
        AssumedTravelView { expiry: self.expiry as nat }
    }
}

impl AssumedTravel {
    /// Starts a travel at `now` that is over after `duration`.
    pub fn new(now: u64, duration: u64) -> (travel: AssumedTravel)
        requires
            now + duration <= u64::MAX,
        ensures
            travel@ == AssumedTravelView::new(now as nat, duration as nat),
    {
        AssumedTravel { expiry: now + duration }
    }

    /// The instant at which the travel is taken to be over.
    pub fn expiry(&self) -> (expiry: u64)
        ensures
            expiry == self@.expiry,
    {
        self.expiry
    }

    /// The instant at which the travel is taken to be over, for change in place.
    pub fn expiry_mut(&mut self) -> (expiry: &mut u64)
        ensures
            *expiry == old(self)@.expiry,
            final(self)@ == (AssumedTravelView { expiry: *final(expiry) as nat }),
    {
        &mut self.expiry
    }
}

/// What a [`State`] is, with its travel as numbers.
pub enum StateView {
    AttemptingOpen(ConfirmedTravelView),
    Opening(AssumedTravelView),
    Open,
    StuckOpen,
    Closing(ConfirmedTravelView),
    Closed,
    StuckClosed,
}

impl StateView {
    /// The payload published on the state topic: the seven states collapse to four.
    pub open spec fn topic_string(self) -> Seq<char> {
        match self {
            StateView::AttemptingOpen(_) | StateView::Opening(_) => "opening"@,
            StateView::Open | StateView::StuckOpen => "open"@,
            StateView::Closing(_) => "closing"@,
            StateView::Closed | StateView::StuckClosed => "closed"@,
        }
    }

    /// Whether the door is on its way: exactly in the three states that carry a travel.
    pub open spec fn is_travelling(self) -> bool {
        self is AttemptingOpen || self is Opening || self is Closing
    }

    /// The stuck flag that goes with the state.
    pub open spec fn stuck_state(self) -> Stuck {
        if self is StuckOpen || self is StuckClosed {
            Stuck::Stuck
        } else {
            Stuck::Okay
        }
    }

    /// Whether the door rests in the position that `target` asks for.
    pub open spec fn rests_at(self, target: TargetState) -> bool {
        (self is Open && target is Open) || (self is Closed && target is Closed)
    }

    /// The position that the state stands for on the state topic, once its travel,
    /// if it has one, is over.
    pub open spec fn end_state(self) -> TargetState {
        match self {
            StateView::AttemptingOpen(_) | StateView::Opening(_) | StateView::Open
            | StateView::StuckOpen => TargetState::Open,
            StateView::Closing(_) | StateView::Closed | StateView::StuckClosed => TargetState::Closed,
        }
    }

    /// The instant at which the state's travel expires, if it has one.
    pub open spec fn expiry(self) -> Option<nat> {
        match self {
            StateView::AttemptingOpen(travel) | StateView::Closing(travel) => Some(travel.expiry),
            StateView::Opening(travel) => Some(travel.expiry),
            _ => None,
        }
    }

    /// The confirmed travel that the state carries, if it carries one.
    pub open spec fn confirmed_travel(self) -> Option<ConfirmedTravelView> {
        match self {
            StateView::AttemptingOpen(travel) | StateView::Closing(travel) => Some(travel),
            _ => None,
        }
    }

    /// The state with `travel` in place of its confirmed travel; a state without
    /// one is left as it is.
    pub open spec fn with_confirmed_travel(self, travel: ConfirmedTravelView) -> StateView {
        match self {
            StateView::AttemptingOpen(_) => StateView::AttemptingOpen(travel),
            StateView::Closing(_) => StateView::Closing(travel),
            _ => self,
        }
    }

    /// The state with its travel set to expire at `expiry`; a state without a
    /// travel is left as it is.
    pub open spec fn with_expiry(self, expiry: nat) -> StateView {
        match self {
            StateView::AttemptingOpen(travel) => StateView::AttemptingOpen(
                ConfirmedTravelView { expiry, ..travel },
            ),
            StateView::Closing(travel) => StateView::Closing(
                ConfirmedTravelView { expiry, ..travel },
            ),
            StateView::Opening(_) => StateView::Opening(AssumedTravelView { expiry }),
            _ => self,
        }
    }

    /// Of a confirmed travel, where the state carries one, no more attempts were
    /// made than may be.
    pub open spec fn wf(self) -> bool {
        match self {
            StateView::AttemptingOpen(travel) | StateView::Closing(travel) => travel.wf(),
            _ => true,
        }
    }

    /// The state in which a door is taken to be when the first reading comes:
    /// a reading that tells nothing counts as open, so that the door can still be
    /// asked to close.
    pub open spec fn of_sensor(reading: SensorState) -> StateView {
        match reading {
            SensorState::Open => StateView::Open,
            SensorState::Closed => StateView::Closed,
            SensorState::Stuck => StateView::Open,
        }
    }

    /// The state of a door that rests where `target` asks it to be.
    pub open spec fn of_target(target: TargetState) -> StateView {
        match target {
            TargetState::Open => StateView::Open,
            TargetState::Closed => StateView::Closed,
        }
    }
}

/// The lifecycle of the door: two rest states, two stuck states, and three states
/// in which it travels.
#[derive(Debug, Clone, Copy, PartialEq, Eq)]
pub enum State {
    /// The remote was pressed to open; the sensor has yet to show that the door moves.
    AttemptingOpen(ConfirmedTravel),
    /// The door left the closed position; no sensor tells when it is open.
    Opening(AssumedTravel),
    Open,
    StuckOpen,
    /// The remote was pressed to close; the sensor confirms when the door is closed.
    Closing(ConfirmedTravel),
    Closed,
    StuckClosed,
}

impl View for State {
    type V = StateView;

    open spec fn view(&self) -> StateView {
        match self {
            State::AttemptingOpen(travel) => StateView::AttemptingOpen(travel@),
            State::Opening(travel) => StateView::Opening(travel@),
            State::Open => StateView::Open,
            State::StuckOpen => StateView::StuckOpen,
            State::Closing(travel) => StateView::Closing(travel@),
            State::Closed => StateView::Closed,
            State::StuckClosed => StateView::StuckClosed,
        }
    }
}

impl State {
    /// The payload published on the state topic.
    pub fn as_str(&self) -> (text: &'static str)
        ensures
            text@ == self@.topic_string(),
    {
        match self {
            State::AttemptingOpen(_) | State::Opening(_) => "opening",
            State::Open | State::StuckOpen => "open",
            State::Closing(_) => "closing",
            State::Closed | State::StuckClosed => "closed",
        }
    }

    /// The payload published on the state topic, as an owned string.
    pub fn to_string(&self) -> (text: String)
        ensures
            text@ == self@.topic_string(),
    {
        self.as_str().to_owned()
    }

    /// The confirmed travel of a state that carries one, for change in place.
    pub fn confirmed_travel_mut(&mut self) -> (travel: Option<&mut ConfirmedTravel>)
        ensures
            match travel {
                Some(t) => old(self)@.confirmed_travel() == Some(t@) && final(self)@ == old(
                    self,
                )@.with_confirmed_travel(final(t)@),
                None => old(self)@.confirmed_travel() is None && *final(self) == *old(self),
            },
    {
        match self {
            State::AttemptingOpen(travel) => Some(travel),
            State::Closing(travel) => Some(travel),
            _ => None,
        }
    }

    /// The assumed travel of a state that carries one, for change in place.
    pub fn assumed_travel_mut(&mut self) -> (travel: Option<&mut AssumedTravel>)
        ensures
            match travel {
                Some(t) => *old(self) == State::Opening(*t) && *final(self) == State::Opening(
                    *final(t),
                ),
                None => !(*old(self) is Opening) && *final(self) == *old(self),
            },
    {
        match self {
            State::Opening(travel) => Some(travel),
            _ => None,
        }
    }

    /// The instant at which the state's travel expires, if it has one.
    pub fn expiry(&self) -> (expiry: Option<u64>)
        ensures
            expiry is Some <==> self@.is_travelling(),
            match expiry {
                Some(instant) => self@.expiry() == Some(instant as nat),
                None => self@.expiry() is None,
            },
    {
        match self {
            State::Opening(travel) => Some(travel.expiry()),
            State::AttemptingOpen(travel) | State::Closing(travel) => Some(travel.expiry()),
            _ => None,
        }
    }

    /// The instant at which the state's travel expires, for change in place.
    pub fn expiry_mut(&mut self) -> (expiry: Option<&mut u64>)
        ensures
            expiry is Some <==> old(self)@.is_travelling(),
            match expiry {
                Some(instant) => old(self)@.expiry() == Some(*instant as nat) && final(self)@
                    == old(self)@.with_expiry(*final(instant) as nat),
                None => *final(self) == *old(self),
            },
    {
        match self {
            State::Opening(travel) => Some(travel.expiry_mut()),
            State::AttemptingOpen(travel) => Some(travel.expiry_mut()),
            State::Closing(travel) => Some(travel.expiry_mut()),
            _ => None,
        }
    }

    /// True while the door is on its way, in `AttemptingOpen`, `Opening` or `Closing`.
    /// Whatever the state, no more attempts of a travel in it were made than may be.
    pub fn is_travelling(&self) -> (travelling: bool)
        ensures
            travelling == self@.is_travelling(),
            self@.wf(),
    {
        match self {
            State::AttemptingOpen(travel) | State::Closing(travel) => {
                proof {
                    use_type_invariant(&travel.attempts);
                }
                true
            },
            State::Opening(..) => true,
            _ => false,
        }
    }

    /// The stuck flag that goes with the state.
    pub fn stuck_state(&self) -> (stuck: Stuck)
        ensures
            stuck == self@.stuck_state(),
    {
        match self {
            State::StuckOpen | State::StuckClosed => Stuck::Stuck,
            _ => Stuck::Okay,
        }
    }
}

impl PartialEq<TargetState> for State {
    fn eq(&self, other: &TargetState) -> (same: bool) {
        match (self, other) {
            (State::Open, TargetState::Open) | (State::Closed, TargetState::Closed) => true,
            _ => false,
        }
    }
}

impl vstd::std_specs::cmp::PartialEqSpecImpl<TargetState> for State {
    open spec fn obeys_eq_spec() -> bool {
        true
    }

    open spec fn eq_spec(&self, other: &TargetState) -> bool {
        self@.rests_at(*other)
    }
}

impl From<SensorState> for State {
    fn from(reading: SensorState) -> (state: State) {
        match reading {
            SensorState::Open => State::Open,
            SensorState::Closed => State::Closed,
            SensorState::Stuck => State::Open,
        }
    }
}

impl vstd::std_specs::convert::FromSpecImpl<SensorState> for State {
    open spec fn obeys_from_spec() -> bool {
        true
    }

    open spec fn from_spec(reading: SensorState) -> State {
        match reading {
            SensorState::Open => State::Open,
            SensorState::Closed => State::Closed,
            SensorState::Stuck => State::Open,
        }
    }
}

impl From<TargetState> for State {
    fn from(target_state: TargetState) -> (state: State) {
        match target_state {
            TargetState::Open => State::Open,
            TargetState::Closed => State::Closed,
        }
    }
}

impl vstd::std_specs::convert::FromSpecImpl<TargetState> for State {
    open spec fn obeys_from_spec() -> bool {
        true
    }

    open spec fn from_spec(target_state: TargetState) -> State {
        match target_state {
            TargetState::Open => State::Open,
            TargetState::Closed => State::Closed,
        }
    }
}

} // verus!
