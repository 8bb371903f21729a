use mqtt_garage::door::state::{
    AssumedTravel, ConfirmedTravel, SensorState, State, Stuck, TargetState,
};

#[test]
fn target_state_reads_its_two_payloads() {
    assert_eq!(TargetState::from_str("OPEN"), Ok(TargetState::Open));
    assert_eq!(TargetState::from_str("CLOSED"), Ok(TargetState::Closed));
    assert_eq!(TargetState::from_str("open"), Err(()));
    assert_eq!(TargetState::from_str("CLOSE"), Err(()));
    assert_eq!(TargetState::from_str("OPEN "), Err(()));
    assert_eq!(TargetState::from_str(""), Err(()));
}

#[test]
fn target_state_writes_what_it_reads() {
    assert_eq!(TargetState::Open.as_str(), "OPEN");
    assert_eq!(TargetState::Closed.as_str(), "CLOSED");
    assert_eq!(TargetState::Open.to_string(), "OPEN");
    assert_eq!(TargetState::Closed.to_string(), "CLOSED");
    assert_eq!(TargetState::from_str(TargetState::Open.as_str()), Ok(TargetState::Open));
    assert_eq!(TargetState::from_str(TargetState::Closed.as_str()), Ok(TargetState::Closed));
}

#[test]
fn sensor_state_reads_open_and_closed_only() {
    assert_eq!(SensorState::from_str("OPEN"), Ok(SensorState::Open));
    assert_eq!(SensorState::from_str("CLOSED"), Ok(SensorState::Closed));
    assert_eq!(SensorState::from_str("STUCK"), Err(()));
    assert_eq!(SensorState::from_str("closed"), Err(()));
}

#[test]
fn sensor_state_of_a_target() {
    assert_eq!(SensorState::from(TargetState::Open), SensorState::Open);
    assert_eq!(SensorState::from(TargetState::Closed), SensorState::Closed);
}

#[test]
fn sensor_state_of_a_contact() {
    assert_eq!(SensorState::from_contact(Some(true)), SensorState::Closed);
    assert_eq!(SensorState::from_contact(Some(false)), SensorState::Open);
    assert_eq!(SensorState::from_contact(None), SensorState::Stuck);
}

#[test]
fn stuck_payloads() {
    assert_eq!(Stuck::Okay.as_str(), "ok");
    assert_eq!(Stuck::Stuck.as_str(), "stuck");
}

#[test]
fn first_reading_gives_the_first_state() {
    assert_eq!(State::from(SensorState::Open), State::Open);
    assert_eq!(State::from(SensorState::Closed), State::Closed);
    assert_eq!(State::from(SensorState::Stuck), State::Open);
}

#[test]
fn target_gives_its_rest_state() {
    assert_eq!(State::from(TargetState::Open), State::Open);
    assert_eq!(State::from(TargetState::Closed), State::Closed);
}

#[test]
fn seven_states_collapse_to_four_payloads() {
    let confirmed = ConfirmedTravel::new(0, 1000, 3);
    let assumed = AssumedTravel::new(0, 1000);
    assert_eq!(State::AttemptingOpen(confirmed).as_str(), "opening");
    assert_eq!(State::Opening(assumed).as_str(), "opening");
    assert_eq!(State::Open.as_str(), "open");
    assert_eq!(State::StuckOpen.as_str(), "open");
    assert_eq!(State::Closing(confirmed).as_str(), "closing");
    assert_eq!(State::Closed.as_str(), "closed");
    assert_eq!(State::StuckClosed.as_str(), "closed");
    assert_eq!(State::StuckClosed.to_string(), "closed");
}

#[test]
fn travelling_is_the_three_states_with_a_travel() {
    let confirmed = ConfirmedTravel::new(0, 1000, 3);
    let assumed = AssumedTravel::new(0, 1000);
    assert!(State::AttemptingOpen(confirmed).is_travelling());
    assert!(State::Opening(assumed).is_travelling());
    assert!(State::Closing(confirmed).is_travelling());
    assert!(!State::Open.is_travelling());
    assert!(!State::Closed.is_travelling());
    assert!(!State::StuckOpen.is_travelling());
    assert!(!State::StuckClosed.is_travelling());
}

#[test]
fn stuck_flag_of_each_state() {
    let confirmed = ConfirmedTravel::new(0, 1000, 3);
    let assumed = AssumedTravel::new(0, 1000);
    assert_eq!(State::StuckOpen.stuck_state(), Stuck::Stuck);
    assert_eq!(State::StuckClosed.stuck_state(), Stuck::Stuck);
    assert_eq!(State::Open.stuck_state(), Stuck::Okay);
    assert_eq!(State::Closed.stuck_state(), Stuck::Okay);
    assert_eq!(State::AttemptingOpen(confirmed).stuck_state(), Stuck::Okay);
    assert_eq!(State::Opening(assumed).stuck_state(), Stuck::Okay);
    assert_eq!(State::Closing(confirmed).stuck_state(), Stuck::Okay);
}

#[test]
fn state_equals_target_only_at_rest() {
    let confirmed = ConfirmedTravel::new(0, 1000, 3);
    let assumed = AssumedTravel::new(0, 1000);
    assert!(State::Open == TargetState::Open);
    assert!(State::Closed == TargetState::Closed);
    assert!(State::Open != TargetState::Closed);
    assert!(State::Closed != TargetState::Open);
    assert!(State::StuckOpen != TargetState::Open);
    assert!(State::StuckClosed != TargetState::Closed);
    assert!(State::Opening(assumed) != TargetState::Open);
    assert!(State::AttemptingOpen(confirmed) != TargetState::Open);
    assert!(State::Closing(confirmed) != TargetState::Closed);
}

#[test]
fn confirmed_travel_counts_its_first_attempt() {
    let travel = ConfirmedTravel::new(1_000, 3_500, 3);
    assert_eq!(travel.expiry(), 4_500);
    assert_eq!(travel.attempt(), 1);
    assert_eq!(travel.duration(), 3_500);
    assert_eq!(travel.max_attempts(), 3);
}

#[test]
fn reattempt_counts_and_renews_until_exhausted() {
    let mut travel = ConfirmedTravel::new(0, 3_500, 3);
    assert_eq!(travel.reattempt(3_500), Ok(()));
    assert_eq!((travel.attempt(), travel.expiry()), (2, 7_000));
    assert_eq!(travel.reattempt(7_100), Ok(()));
    assert_eq!((travel.attempt(), travel.expiry()), (3, 10_600));
    assert_eq!(travel.reattempt(10_600), Err(()));
    assert_eq!((travel.attempt(), travel.expiry()), (3, 10_600));
    assert_eq!(travel.reattempt(20_000), Err(()));
    assert_eq!((travel.attempt(), travel.expiry()), (3, 10_600));
    assert_eq!(travel.duration(), 3_500);
    assert_eq!(travel.max_attempts(), 3);
}

#[test]
fn travel_with_one_attempt_is_exhausted_at_once() {
    let mut travel = ConfirmedTravel::new(5, 10, 1);
    assert_eq!(travel.attempt(), 1);
    assert_eq!(travel.reattempt(15), Err(()));
    assert_eq!(travel.attempt(), 1);
    assert_eq!(travel.expiry(), 15);
}

#[test]
fn travel_without_attempts_counts_nothing() {
    let mut travel = ConfirmedTravel::new(5, 10, 0);
    assert_eq!(travel.attempt(), 0);
    assert_eq!(travel.reattempt(15), Err(()));
    assert_eq!(travel.attempt(), 0);
    assert_eq!(travel.expiry(), 15);
}

#[test]
fn attempt_never_passes_its_bound() {
    let mut travel = ConfirmedTravel::new(0, 1, 255);
    let mut now: u64 = 0;
    for _ in 0..300 {
        now += 1;
        let _ = travel.reattempt(now);
        assert!(travel.attempt() <= travel.max_attempts());
    }
    assert_eq!(travel.attempt(), 255);
}

#[test]
fn travel_may_end_at_the_last_instant() {
    let confirmed = ConfirmedTravel::new(u64::MAX - 10, 10, 1);
    assert_eq!(confirmed.expiry(), u64::MAX);
    let assumed = AssumedTravel::new(u64::MAX, 0);
    assert_eq!(assumed.expiry(), u64::MAX);
}

#[test]
fn assumed_travel_expires_after_its_duration() {
    let travel = AssumedTravel::new(2_000, 30_000);
    assert_eq!(travel.expiry(), 32_000);
}

#[test]
fn expiry_can_be_changed_in_place() {
    let mut confirmed = ConfirmedTravel::new(0, 100, 2);
    *confirmed.expiry_mut() = 250;
    assert_eq!(confirmed.expiry(), 250);
    assert_eq!((confirmed.attempt(), confirmed.duration(), confirmed.max_attempts()), (1, 100, 2));
    let mut assumed = AssumedTravel::new(0, 100);
    *assumed.expiry_mut() += 5;
    assert_eq!(assumed.expiry(), 105);
}

#[test]
fn state_expiry_is_that_of_its_travel() {
    assert_eq!(State::AttemptingOpen(ConfirmedTravel::new(10, 20, 3)).expiry(), Some(30));
    assert_eq!(State::Closing(ConfirmedTravel::new(10, 30, 3)).expiry(), Some(40));
    assert_eq!(State::Opening(AssumedTravel::new(10, 40)).expiry(), Some(50));
    assert_eq!(State::Open.expiry(), None);
    assert_eq!(State::Closed.expiry(), None);
    assert_eq!(State::StuckOpen.expiry(), None);
    assert_eq!(State::StuckClosed.expiry(), None);
}

#[test]
fn state_expiry_mut_reaches_the_travel() {
    let mut state = State::Closing(ConfirmedTravel::new(10, 30, 3));
    match state.expiry_mut() {
        Some(expiry) => *expiry = 99,
        None => panic!("a closing door has an expiry"),
    }
    assert_eq!(state.expiry(), Some(99));
    assert!(matches!(state, State::Closing(_)));
    let mut state = State::Opening(AssumedTravel::new(0, 7));
    match state.expiry_mut() {
        Some(expiry) => *expiry = 8,
        None => panic!("an opening door has an expiry"),
    }
    assert_eq!(state, State::Opening(AssumedTravel::new(0, 8)));
    let mut state = State::Open;
    assert!(state.expiry_mut().is_none());
    assert_eq!(state, State::Open);
}

#[test]
fn confirmed_travel_mut_reaches_the_two_confirmed_states() {
    let mut state = State::AttemptingOpen(ConfirmedTravel::new(0, 10, 2));
    match state.confirmed_travel_mut() {
        Some(travel) => assert_eq!(travel.reattempt(10), Ok(())),
        None => panic!("an attempt to open carries a confirmed travel"),
    }
    match state {
        State::AttemptingOpen(travel) => assert_eq!((travel.attempt(), travel.expiry()), (2, 20)),
        _ => panic!("the state keeps its kind"),
    }
    let mut state = State::Closing(ConfirmedTravel::new(0, 10, 1));
    assert!(state.confirmed_travel_mut().is_some());
    let mut state = State::Opening(AssumedTravel::new(0, 10));
    assert!(state.confirmed_travel_mut().is_none());
    let mut state = State::StuckClosed;
    assert!(state.confirmed_travel_mut().is_none());
}

#[test]
fn assumed_travel_mut_reaches_opening_only() {
    let mut state = State::Opening(AssumedTravel::new(0, 10));
    match state.assumed_travel_mut() {
        Some(travel) => *travel = AssumedTravel::new(5, 10),
        None => panic!("an opening door carries an assumed travel"),
    }
    assert_eq!(state, State::Opening(AssumedTravel::new(5, 10)));
    let mut state = State::Closing(ConfirmedTravel::new(0, 10, 1));
    assert!(state.assumed_travel_mut().is_none());
    let mut state = State::Closed;
    assert!(state.assumed_travel_mut().is_none());
}
