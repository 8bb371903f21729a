use mqtt_garage::config::gpio::GpioPin;
use mqtt_garage::mock_gpio::{Gpio, InputPin, OutputPin, Pin};

fn all_pins() -> Vec<GpioPin> {
    vec![
        GpioPin::Gpio2, GpioPin::Gpio3, GpioPin::Gpio4, GpioPin::Gpio17, GpioPin::Gpio27,
        GpioPin::Gpio22, GpioPin::Gpio10, GpioPin::Gpio9, GpioPin::Gpio11, GpioPin::Gpio0,
        GpioPin::Gpio5, GpioPin::Gpio6, GpioPin::Gpio13, GpioPin::Gpio19, GpioPin::Gpio26,
        GpioPin::Gpio14, GpioPin::Gpio15, GpioPin::Gpio18, GpioPin::Gpio23, GpioPin::Gpio24,
        GpioPin::Gpio25, GpioPin::Gpio8, GpioPin::Gpio7, GpioPin::Gpio1, GpioPin::Gpio12,
        GpioPin::Gpio16, GpioPin::Gpio20, GpioPin::Gpio21,
    ]
}

#[test]
fn bcm_number_is_the_number_in_the_name() {
    let expected: Vec<u8> = vec![
        2, 3, 4, 17, 27, 22, 10, 9, 11, 0, 5, 6, 13, 19, 26, 14, 15, 18, 23, 24, 25, 8, 7, 1, 12,
        16, 20, 21,
    ];
    let numbers: Vec<u8> = all_pins().iter().map(|pin| pin.bcm_number()).collect();
    assert_eq!(numbers, expected);
}

#[test]
fn board_number_of_each_pin() {
    let expected: Vec<u8> = vec![
        3, 5, 6, 11, 13, 15, 19, 21, 23, 27, 29, 31, 33, 35, 26, 8, 10, 12, 16, 18, 22, 24, 37,
        28, 32, 36, 38, 40,
    ];
    let numbers: Vec<u8> = all_pins().iter().map(|pin| pin.board_number()).collect();
    assert_eq!(numbers, expected);
}

#[test]
fn numbers_tell_pins_apart() {
    let pins = all_pins();
    for (i, a) in pins.iter().enumerate() {
        assert!(a.bcm_number() < 28);
        assert!(1 <= a.board_number() && a.board_number() <= 40);
        for (j, b) in pins.iter().enumerate() {
            if i != j {
                assert_ne!(a.bcm_number(), b.bcm_number());
                assert_ne!(a.board_number(), b.board_number());
            }
        }
    }
}

#[test]
fn every_line_can_be_had() {
    let gpio = Gpio::new().unwrap();
    assert_eq!(gpio, Gpio);
    assert_eq!(gpio.get(0), Ok(Pin(0)));
    assert_eq!(gpio.get(14), Ok(Pin(14)));
    assert_eq!(gpio.get(255), Ok(Pin(255)));
}

#[test]
fn output_line_starts_low_and_remembers_its_level() {
    let mut output = Pin(14).into_output();
    assert_eq!(output, OutputPin { pin: 14, high: false });
    assert!(!output.is_set_high());
    output.set_high();
    assert_eq!(output, OutputPin { pin: 14, high: true });
    assert!(output.is_set_high());
    output.set_high();
    assert!(output.is_set_high());
    output.set_low();
    assert_eq!(output, OutputPin { pin: 14, high: false });
    assert!(!output.is_set_high());
}

#[test]
fn input_line_is_high_exactly_on_the_text_one() {
    let input = Pin(7).into_input_pullup();
    assert_eq!(input, InputPin(7));
    assert!(input.is_high(Some("1")));
    assert!(!input.is_high(Some("0")));
    assert!(!input.is_high(Some("")));
    assert!(!input.is_high(Some("1\n")));
    assert!(!input.is_high(Some("11")));
    assert!(!input.is_high(None));
}
