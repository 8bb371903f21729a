use mqtt_garage::config::gpio::GpioPin;
use mqtt_garage::door::detector::zigbee2mqtt::{
    Zigbee2MqttDoorDetector, Zigbee2MqttDoorDetectorConfig,
};
use mqtt_garage::door::detector::{AnyDoorDetector, DoorDetector, DoorDetectorConfig};
use mqtt_garage::door::identifier::Identifier;
use mqtt_garage::door::mqtt::{DoorMqtt, MqttConfig};
use mqtt_garage::door::state::{AssumedTravel, SensorState, State, TargetState};
use mqtt_garage::door::state_detector::assumed::{
    AssumedStateDetector, AssumedStateDetectorConfig,
};
use mqtt_garage::door::state_detector::gpio::{
    GpioStateDetector, GpioStateDetectorConfig, MAX_READS, MIN_CONSECUTIVE, READ_INTERVAL,
};
use mqtt_garage::door::state_detector::sensor::{SensorStateDetector, SensorStateDetectorConfig};
use mqtt_garage::door::state_detector::zigbee2mqtt::{
    Zigbee2MqttStateDetector, Zigbee2MqttStateDetectorConfig,
};
use mqtt_garage::door::state_detector::{DetectedState, Travel};
use mqtt_garage::error::GarageError;
use mqtt_garage::mock_gpio::InputPin;
use mqtt_garage::mqtt_client::{MqttPublish, QoS};

fn publish(topic: &str, payload: &str) -> MqttPublish {
    MqttPublish {
        topic: topic.to_string(),
        qos: QoS::AtLeastOnce,
        retain: false,
        payload: payload.to_string(),
    }
}

fn identifier() -> Identifier {
    Identifier::from("front".to_string())
}

#[test]
fn publish_is_made_to_be_delivered_at_least_once() {
    let made = MqttPublish::new("a/topic", true, "payload");
    assert_eq!(
        made,
        MqttPublish {
            topic: "a/topic".to_string(),
            qos: QoS::AtLeastOnce,
            retain: true,
            payload: "payload".to_string(),
        }
    );
    assert!(!MqttPublish::new("a/topic", false, "").retain);
}

#[test]
fn identifier_is_the_string_it_is_made_from() {
    assert_eq!(identifier(), Identifier("front".to_string()));
    assert_eq!(identifier().0, "front");
}

#[test]
fn reading_of_a_publish_on_the_sensor_topic() {
    let topic = "zigbee2mqtt/door";
    assert_eq!(
        DetectedState::from_publish(topic, publish(topic, "{\"contact\":true}")),
        Some(DetectedState::Closed)
    );
    assert_eq!(
        DetectedState::from_publish(topic, publish(topic, "{\"contact\":false,\"battery\":80}")),
        Some(DetectedState::Open)
    );
    assert_eq!(
        DetectedState::from_publish(topic, publish(topic, "{\"battery\":80}")),
        Some(DetectedState::Stuck)
    );
    assert_eq!(
        DetectedState::from_publish(topic, publish(topic, "contact")),
        Some(DetectedState::Stuck)
    );
    assert_eq!(DetectedState::from_publish(topic, publish(topic, "")), Some(DetectedState::Stuck));
    assert_eq!(
        DetectedState::read_publish(topic, &publish(topic, "{\"contact\":true}")),
        Some(DetectedState::Closed)
    );
}

#[test]
fn publish_on_another_topic_holds_no_reading() {
    let topic = "zigbee2mqtt/door";
    assert_eq!(
        DetectedState::from_publish(topic, publish("zigbee2mqtt/window", "{\"contact\":true}")),
        None
    );
    assert_eq!(
        DetectedState::from_publish(topic, publish("zigbee2mqtt/door/", "{\"contact\":true}")),
        None
    );
    assert_eq!(DetectedState::from_publish(topic, publish("", "{\"contact\":true}")), None);
}

#[test]
fn detector_hears_the_first_reading_and_those_after_it() {
    let config = Zigbee2MqttDoorDetectorConfig { sensor_topic: "door".to_string() };
    let detector = Zigbee2MqttDoorDetector::new(identifier(), config);
    assert_eq!(detector.sensor_topic(), "door");
    let heard = detector.listen(vec![
        publish("other", "{\"contact\":true}"),
        publish("door", "{\"contact\":false}"),
        publish("door", "garbage"),
        publish("other", "{\"contact\":false}"),
        publish("door", "{\"contact\":true}"),
    ]);
    assert_eq!(
        heard,
        Ok((DetectedState::Open, vec![DetectedState::Stuck, DetectedState::Closed]))
    );
}

#[test]
fn detector_without_a_reading_has_lost_the_bus() {
    let config = Zigbee2MqttDoorDetectorConfig { sensor_topic: "door".to_string() };
    let detector = Zigbee2MqttDoorDetector::new(identifier(), config.clone());
    assert_eq!(detector.listen(vec![]), Err(GarageError::MqttClosed));
    let detector = Zigbee2MqttDoorDetector::new(identifier(), config.clone());
    assert_eq!(
        detector.listen(vec![publish("other", "{\"contact\":true}")]),
        Err(GarageError::MqttClosed)
    );
    let detector = Zigbee2MqttDoorDetector::new(identifier(), config);
    assert_eq!(
        detector.listen(vec![publish("door", "{\"contact\":true}")]),
        Ok((DetectedState::Closed, vec![]))
    );
    assert_eq!(GarageError::MqttClosed.to_string(), "the MQTT client has been closed");
}

#[test]
fn any_detector_is_the_one_it_is_configured_as() {
    let config = DoorDetectorConfig::Zigbee2Mqtt(Zigbee2MqttDoorDetectorConfig {
        sensor_topic: "door".to_string(),
    });
    let detector = AnyDoorDetector::new(identifier(), config);
    assert!(matches!(detector, AnyDoorDetector::Zigbee2Mqtt(_)));
    let heard = detector.listen(vec![
        publish("door", "{\"contact\":true}"),
        publish("door", "{\"contact\":false}"),
    ]);
    assert_eq!(heard, Ok((DetectedState::Closed, vec![DetectedState::Open])));
}

#[test]
fn travel_expires_invalid_only_late_and_in_the_wrong_state() {
    let travel = Travel::new(TargetState::Open, 1_000);
    assert_eq!(travel, Travel { start_time: 1_000, target_state: TargetState::Open });
    assert!(travel.expired_invalid(DetectedState::Closed, 500, 1_501));
    assert!(travel.expired_invalid(DetectedState::Stuck, 500, 1_501));
    assert!(!travel.expired_invalid(DetectedState::Closed, 500, 1_500));
    assert!(!travel.expired_invalid(DetectedState::Closed, 500, 1_000));
    assert!(!travel.expired_invalid(DetectedState::Open, 500, 9_000));
    assert!(!travel.expired_invalid(DetectedState::Closed, 500, 999));
    assert!(!travel.expired_invalid(DetectedState::Closed, 500, 0));
    assert!(travel.expired_invalid(DetectedState::Closed, 0, 1_001));
    assert!(!travel.expired_invalid(DetectedState::Closed, u64::MAX, u64::MAX));
    let closing = Travel::new(TargetState::Closed, 0);
    assert!(closing.expired_invalid(DetectedState::Open, 10, 11));
    assert!(!closing.expired_invalid(DetectedState::Closed, 10, 11));
}

fn gpio_detector() -> GpioStateDetector {
    let config = GpioStateDetectorConfig { pin: GpioPin::Gpio17, travel_time: 20_000 };
    GpioStateDetector::with_config(identifier(), config).unwrap()
}

#[test]
fn pin_state_is_open_while_the_line_is_high() {
    let detector = gpio_detector();
    assert_eq!(detector.pin_state(Some("1")), DetectedState::Open);
    assert_eq!(detector.pin_state(Some("0")), DetectedState::Closed);
    assert_eq!(detector.pin_state(None), DetectedState::Closed);
}

#[test]
fn stable_state_needs_eleven_equal_readings_in_a_row() {
    assert_eq!((MAX_READS, MIN_CONSECUTIVE, READ_INTERVAL), (50, 10, 20));
    let detector = gpio_detector();
    assert_eq!(detector.stable_state(&vec![true; 11]), DetectedState::Open);
    assert_eq!(detector.stable_state(&vec![false; 11]), DetectedState::Closed);
    assert_eq!(detector.stable_state(&vec![true; 10]), DetectedState::Stuck);
    assert_eq!(detector.stable_state(&vec![]), DetectedState::Stuck);
    assert_eq!(detector.stable_state(&vec![false]), DetectedState::Stuck);
}

#[test]
fn stable_state_is_that_of_the_first_run() {
    let detector = gpio_detector();
    let mut levels = vec![true, false, true, true, false];
    levels.extend(vec![false; 10]);
    levels.extend(vec![true; 30]);
    assert_eq!(detector.stable_state(&levels), DetectedState::Closed);

    let mut levels = vec![false; 10];
    levels.push(true);
    levels.extend(vec![true; 10]);
    assert_eq!(detector.stable_state(&levels), DetectedState::Open);
}

#[test]
fn readings_that_never_settle_leave_the_door_stuck() {
    let detector = gpio_detector();
    let levels: Vec<bool> = (0..50).map(|i| i % 2 == 0).collect();
    assert_eq!(detector.stable_state(&levels), DetectedState::Stuck);
    let levels: Vec<bool> = (0..50).map(|i| (i / 10) % 2 == 0).collect();
    assert_eq!(detector.stable_state(&levels), DetectedState::Stuck);
}

#[test]
fn readings_after_the_fiftieth_are_not_looked_at() {
    let detector = gpio_detector();
    let mut levels: Vec<bool> = (0..40).map(|i| i % 2 == 0).collect();
    levels.extend(vec![true; 10]);
    assert_eq!(levels.len(), 50);
    assert_eq!(detector.stable_state(&levels), DetectedState::Stuck);
    levels.push(true);
    assert_eq!(detector.stable_state(&levels), DetectedState::Stuck);
    levels.extend(vec![true; 20]);
    assert_eq!(detector.stable_state(&levels), DetectedState::Stuck);

    let mut levels: Vec<bool> = (0..39).map(|i| i % 2 == 0).collect();
    levels.extend(vec![false; 11]);
    assert_eq!(levels.len(), 50);
    assert_eq!(detector.stable_state(&levels), DetectedState::Closed);
}

#[test]
fn gpio_detector_reports_a_failed_travel_as_stuck() {
    let mut detector = gpio_detector();
    assert!(detector.should_check());
    assert_eq!(detector.current_travel(), None);
    assert_eq!(detector.travel(TargetState::Open, 1_000), 20_000);
    assert_eq!(
        detector.current_travel(),
        Some(Travel { start_time: 1_000, target_state: TargetState::Open })
    );
    assert_eq!(detector.detect_state(&vec![false; 11], 21_001), DetectedState::Stuck);
    assert_eq!(detector.current_travel(), None);

    assert_eq!(detector.travel(TargetState::Open, 1_000), 20_000);
    assert_eq!(detector.detect_state(&vec![true; 11], 21_001), DetectedState::Open);
    assert_eq!(detector.travel(TargetState::Open, 1_000), 20_000);
    assert_eq!(detector.detect_state(&vec![false; 11], 21_000), DetectedState::Closed);
    assert_eq!(detector.detect_state(&vec![false; 11], 99_000), DetectedState::Closed);
    assert_eq!(detector.detect_state(&vec![false; 3], 99_000), DetectedState::Stuck);
}

#[test]
fn door_moved_by_hand_is_opening_or_closed() {
    let detector = gpio_detector();
    assert_eq!(
        detector.manual_travel_state(TargetState::Open, 500),
        State::Opening(AssumedTravel::new(500, 20_000))
    );
    assert_eq!(detector.manual_travel_state(TargetState::Closed, 500), State::Closed);
}

#[test]
fn sensor_detector_sits_on_the_configured_line() {
    let config = SensorStateDetectorConfig { pin: GpioPin::Gpio27, travel_time: 15_000 };
    assert_eq!(
        SensorStateDetector::with_config(config),
        Ok(SensorStateDetector { pin: InputPin(27), travel_time: 15_000 })
    );
}

fn assumed_detector(kept: Option<&str>) -> AssumedStateDetector {
    let config = AssumedStateDetectorConfig {
        travel_time: 15_000,
        override_topic: "door/override".to_string(),
    };
    AssumedStateDetector::with_config(identifier(), config, kept).unwrap()
}

#[test]
fn assumed_detector_starts_from_what_was_kept() {
    assert_eq!(assumed_detector(Some("OPEN")).assumed_state(), TargetState::Open);
    assert_eq!(assumed_detector(Some("CLOSED")).assumed_state(), TargetState::Closed);
    assert_eq!(assumed_detector(Some("ajar")).assumed_state(), TargetState::Closed);
    assert_eq!(assumed_detector(None).assumed_state(), TargetState::Closed);
    let detector = assumed_detector(None);
    assert_eq!(*detector.identifier(), identifier());
    assert_eq!(detector.override_topic(), "door/override");
    assert_eq!(detector.current_travel(), None);
    assert!(detector.should_check());
}

#[test]
fn assumed_detector_assumes_arrival_when_the_time_has_passed() {
    let mut detector = assumed_detector(None);
    assert_eq!(detector.detect_state(0), (DetectedState::Closed, None));
    assert_eq!(detector.travel(TargetState::Open, 1_000), 15_000);
    assert_eq!(detector.detect_state(16_000), (DetectedState::Closed, None));
    assert!(detector.current_travel().is_some());
    assert_eq!(detector.detect_state(16_001), (DetectedState::Open, Some(TargetState::Open)));
    assert_eq!(detector.assumed_state(), TargetState::Open);
    assert_eq!(detector.current_travel(), None);
    assert_eq!(detector.detect_state(99_000), (DetectedState::Open, None));
}

#[test]
fn assumed_detector_takes_an_override() {
    let mut detector = assumed_detector(None);
    detector.travel(TargetState::Open, 0);
    assert_eq!(detector.receive_message(publish("door/other", "OPEN")), None);
    assert_eq!(detector.receive_message(publish("door/override", "open")), None);
    assert_eq!(detector.assumed_state(), TargetState::Closed);
    assert!(detector.current_travel().is_some());
    assert_eq!(detector.receive_message(publish("door/override", "OPEN")), Some(TargetState::Open));
    assert_eq!(detector.assumed_state(), TargetState::Open);
    assert_eq!(detector.current_travel(), None);
    assert_eq!(detector.set_assumed_state(TargetState::Closed), TargetState::Closed);
    assert_eq!(detector.assumed_state(), TargetState::Closed);
}

fn zigbee_detector() -> Zigbee2MqttStateDetector {
    let config = Zigbee2MqttStateDetectorConfig {
        sensor_topic: "zigbee2mqtt/door".to_string(),
        travel_time: 15_000,
    };
    Zigbee2MqttStateDetector::with_config(identifier(), config).unwrap()
}

#[test]
fn zigbee_detector_remembers_the_last_report() {
    let mut detector = zigbee_detector();
    assert!(detector.should_check_periodically());
    assert_eq!(detector.sensor_topic(), "zigbee2mqtt/door");
    assert_eq!(detector.last_state(), DetectedState::Stuck);
    detector.receive_message(publish("zigbee2mqtt/door", "{\"contact\":true}"));
    assert_eq!(detector.last_state(), DetectedState::Closed);
    detector.receive_message(publish("zigbee2mqtt/window", "{\"contact\":false}"));
    assert_eq!(detector.last_state(), DetectedState::Closed);
    detector.receive_message(publish("zigbee2mqtt/door", "{\"contact\":false}"));
    assert_eq!(detector.last_state(), DetectedState::Open);
    assert_eq!(detector.detect_state(0), DetectedState::Open);
    detector.receive_message(publish("zigbee2mqtt/door", "{\"contact\":"));
    assert_eq!(detector.last_state(), DetectedState::Stuck);
    assert_eq!(detector.detect_state(0), DetectedState::Stuck);
}

#[test]
fn zigbee_detector_reports_a_failed_travel_as_stuck() {
    let mut detector = zigbee_detector();
    detector.receive_message(publish("zigbee2mqtt/door", "{\"contact\":true}"));
    assert_eq!(detector.travel(TargetState::Open, 100), 15_000);
    assert_eq!(
        detector.current_travel(),
        Some(Travel { start_time: 100, target_state: TargetState::Open })
    );
    assert_eq!(detector.detect_state(15_101), DetectedState::Stuck);
    assert_eq!(detector.current_travel(), None);
    assert_eq!(detector.detect_state(15_101), DetectedState::Closed);

    detector.travel(TargetState::Open, 100);
    assert_eq!(detector.detect_state(15_100), DetectedState::Closed);
    detector.travel(TargetState::Closed, 100);
    assert_eq!(detector.detect_state(99_000), DetectedState::Closed);
    assert_eq!(
        detector.manual_travel_state(TargetState::Open, 5),
        State::Opening(AssumedTravel::new(5, 15_000))
    );
    assert_eq!(detector.manual_travel_state(TargetState::Closed, 5), State::Closed);
}

#[test]
fn door_mqtt_is_made_of_any_configuration() {
    let config = MqttConfig {
        command_topic: "c".to_string(),
        open_command: "OPEN".to_string(),
        close_command: "CLOSE".to_string(),
        state_topic: "s".to_string(),
        open_state: "open".to_string(),
        opening_state: "opening".to_string(),
        closed_state: "closed".to_string(),
        closing_state: "closing".to_string(),
    };
    assert_eq!(DoorMqtt::with_config(config), Ok(DoorMqtt {}));
}

#[test]
fn each_error_has_its_words() {
    assert_eq!(GarageError::Gpio.to_string(), "the GPIO line is not available");
    assert_eq!(GarageError::WifiDisconnected.to_string(), "wifi disconnected");
    assert_eq!(GarageError::from_network(true), Ok(()));
    assert_eq!(GarageError::from_network(false), Err(GarageError::WifiDisconnected));
    assert_eq!(SensorState::from(TargetState::Open), DetectedState::Open);
}
