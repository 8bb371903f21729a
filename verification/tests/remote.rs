use mqtt_garage::config::gpio::GpioPin;
use mqtt_garage::door::remote::mutex::RemoteMutex;
use mqtt_garage::door::remote::{DoorRemote, Pulse, RemoteConfig, RemoteStep};
use mqtt_garage::error::GarageError;
use mqtt_garage::mock_gpio::Error;

fn config(pin: GpioPin) -> RemoteConfig {
    RemoteConfig { pin, pressed_duration: 500, wait_duration: 1_000, max_latency_duration: 2_000 }
}

fn remote(pin: GpioPin) -> DoorRemote {
    DoorRemote::new(config(pin), Ok(())).unwrap()
}

#[test]
fn new_remote_is_idle_with_its_line_low() {
    let remote = remote(GpioPin::Gpio14);
    assert!(!remote.is_high());
    assert_eq!(remote.pulse(), Pulse::Idle);
    assert_eq!(*remote.config(), config(GpioPin::Gpio14));
}

#[test]
fn line_that_cannot_be_set_low_gives_no_remote() {
    assert_eq!(DoorRemote::new(config(GpioPin::Gpio14), Err(Error)), Err(GarageError::Gpio));
    assert_eq!(GarageError::Gpio.to_string(), "the GPIO line is not available");
}

#[test]
fn press_raises_the_line_for_the_pressed_duration_under_the_lock() {
    let mut mutex = RemoteMutex::new();
    let mut remote = remote(GpioPin::Gpio14);
    assert_eq!(mutex.holder(), None);

    assert_eq!(remote.trigger(&mut mutex, Ok(())), Ok(RemoteStep::Sleep(500)));
    assert!(remote.is_high());
    assert_eq!(remote.pulse(), Pulse::Pressed);
    assert_eq!(mutex.holder(), Some(14));

    assert_eq!(remote.trigger(&mut mutex, Ok(())), Ok(RemoteStep::Sleep(1_000)));
    assert!(!remote.is_high());
    assert_eq!(remote.pulse(), Pulse::Released);
    assert_eq!(mutex.holder(), Some(14));

    assert_eq!(remote.trigger(&mut mutex, Ok(())), Ok(RemoteStep::Done));
    assert!(!remote.is_high());
    assert_eq!(remote.pulse(), Pulse::Idle);
    assert_eq!(mutex.holder(), None);
}

#[test]
fn failed_raise_ends_the_press_and_reaches_the_caller() {
    let mut mutex = RemoteMutex::new();
    let mut remote = remote(GpioPin::Gpio14);
    assert_eq!(remote.trigger(&mut mutex, Ok(())), Ok(RemoteStep::Sleep(500)));
    assert_eq!(remote.trigger(&mut mutex, Err(Error)), Err(GarageError::Gpio));
    assert_eq!(remote.pulse(), Pulse::Failed);
    assert!(!remote.is_high());
    assert_eq!(mutex.holder(), None);

    assert_eq!(remote.trigger(&mut mutex, Ok(())), Err(GarageError::Gpio));
    assert_eq!(remote.trigger(&mut mutex, Err(Error)), Err(GarageError::Gpio));
    assert_eq!(remote.pulse(), Pulse::Failed);
    assert_eq!(mutex.holder(), None);
}

#[test]
fn failed_lowering_ends_the_press_with_the_line_still_high() {
    let mut mutex = RemoteMutex::new();
    let mut remote = remote(GpioPin::Gpio14);
    assert_eq!(remote.trigger(&mut mutex, Ok(())), Ok(RemoteStep::Sleep(500)));
    assert_eq!(remote.trigger(&mut mutex, Ok(())), Ok(RemoteStep::Sleep(1_000)));
    assert_eq!(remote.trigger(&mut mutex, Err(Error)), Err(GarageError::Gpio));
    assert_eq!(remote.pulse(), Pulse::Failed);
    assert!(remote.is_high());
    assert_eq!(mutex.holder(), None);
}

#[test]
fn failure_of_one_remote_leaves_the_lock_of_another() {
    let mut mutex = RemoteMutex::new();
    let mut first = remote(GpioPin::Gpio14);
    let mut second = remote(GpioPin::Gpio15);
    assert_eq!(first.trigger(&mut mutex, Ok(())), Ok(RemoteStep::Sleep(500)));
    assert_eq!(second.trigger(&mut mutex, Ok(())), Ok(RemoteStep::Blocked));
    assert_eq!(second.trigger(&mut mutex, Err(Error)), Err(GarageError::Gpio));
    assert_eq!(second.pulse(), Pulse::Failed);
    assert_eq!(mutex.holder(), Some(14));
    assert_eq!(first.trigger(&mut mutex, Ok(())), Ok(RemoteStep::Sleep(1_000)));
    assert_eq!(first.trigger(&mut mutex, Ok(())), Ok(RemoteStep::Done));
    assert_eq!(mutex.holder(), None);
}

#[test]
fn line_is_high_only_while_pressed() {
    let mut mutex = RemoteMutex::new();
    let mut remote = remote(GpioPin::Gpio4);
    for _ in 0..10 {
        let _ = remote.trigger(&mut mutex, Ok(()));
        assert_eq!(remote.is_high(), remote.pulse() == Pulse::Pressed);
        if remote.pulse() == Pulse::Idle {
            assert!(!remote.is_high());
        }
    }
}

#[test]
fn second_remote_is_blocked_until_the_first_is_done() {
    let mut mutex = RemoteMutex::new();
    let mut first = remote(GpioPin::Gpio14);
    let mut second = remote(GpioPin::Gpio15);

    assert_eq!(first.trigger(&mut mutex, Ok(())), Ok(RemoteStep::Sleep(500)));
    assert_eq!(second.trigger(&mut mutex, Ok(())), Ok(RemoteStep::Blocked));
    assert_eq!(second.pulse(), Pulse::Idle);
    assert!(!second.is_high());
    assert_eq!(mutex.holder(), Some(14));

    assert_eq!(first.trigger(&mut mutex, Ok(())), Ok(RemoteStep::Sleep(1_000)));
    assert_eq!(second.trigger(&mut mutex, Ok(())), Ok(RemoteStep::Blocked));
    assert!(!second.is_high());

    assert_eq!(first.trigger(&mut mutex, Ok(())), Ok(RemoteStep::Done));
    assert_eq!(second.trigger(&mut mutex, Ok(())), Ok(RemoteStep::Sleep(500)));
    assert!(second.is_high());
    assert!(!first.is_high());
    assert_eq!(mutex.holder(), Some(15));
    assert_eq!(first.trigger(&mut mutex, Ok(())), Ok(RemoteStep::Blocked));
}

#[test]
fn at_most_one_remote_is_in_a_press_whatever_the_order() {
    let mut mutex = RemoteMutex::new();
    let mut remotes = vec![remote(GpioPin::Gpio2), remote(GpioPin::Gpio3), remote(GpioPin::Gpio4)];
    let order = [0usize, 1, 2, 2, 0, 1, 0, 0, 2, 1, 1, 2, 2, 0, 1, 2, 1, 1, 0, 2, 2, 2, 0, 0, 0];
    for (turn, stepping) in order.iter().enumerate() {
        let written = if turn == 17 { Err(Error) } else { Ok(()) };
        let _ = remotes[*stepping].trigger(&mut mutex, written);
        let pressing = remotes
            .iter()
            .filter(|remote| matches!(remote.pulse(), Pulse::Pressed | Pulse::Released))
            .count();
        assert!(pressing <= 1);
        if pressing == 1 {
            assert!(mutex.holder().is_some());
        }
    }
}

#[test]
fn two_remotes_on_one_line_still_press_one_at_a_time() {
    let mut mutex = RemoteMutex::new();
    let mut first = remote(GpioPin::Gpio14);
    let mut second = remote(GpioPin::Gpio14);
    assert_eq!(first.trigger(&mut mutex, Ok(())), Ok(RemoteStep::Sleep(500)));
    assert_eq!(second.trigger(&mut mutex, Ok(())), Ok(RemoteStep::Blocked));
    assert_eq!(second.trigger(&mut mutex, Err(Error)), Err(GarageError::Gpio));
    assert_eq!(mutex.holder(), Some(14));
    assert_eq!(first.pulse(), Pulse::Pressed);
}

#[test]
fn lock_is_granted_to_one_line_at_a_time() {
    let mut mutex = RemoteMutex::new();
    assert!(mutex.lock(3));
    assert_eq!(mutex.holder(), Some(3));
    assert!(!mutex.lock(4));
    assert!(!mutex.lock(3));
    assert_eq!(mutex.holder(), Some(3));
    mutex.unlock(4);
    assert_eq!(mutex.holder(), Some(3));
    mutex.unlock(3);
    assert_eq!(mutex.holder(), None);
    mutex.unlock(3);
    assert_eq!(mutex.holder(), None);
    assert!(mutex.lock(4));
    assert_eq!(mutex.holder(), Some(4));
}
