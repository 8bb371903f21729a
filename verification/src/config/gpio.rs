//! The GPIO pins of the board's header, by name.

use vstd::prelude::*;

verus! {

/// A GPIO pin, named by its number in the Broadcom numbering.
#[derive(Debug, Clone, Copy, PartialEq, Eq, Structural)]
pub enum GpioPin {
    Gpio2,
    Gpio3,
    Gpio4,
    Gpio17,
    Gpio27,
    Gpio22,
    Gpio10,
    Gpio9,
    Gpio11,
    Gpio0,
    Gpio5,
    Gpio6,
    Gpio13,
    Gpio19,
    Gpio26,
    Gpio14,
    Gpio15,
    Gpio18,
    Gpio23,
    Gpio24,
    Gpio25,
    Gpio8,
    Gpio7,
    Gpio1,
    Gpio12,
    Gpio16,
    Gpio20,
    Gpio21,
}

impl GpioPin {
    /// The position of the pin on the board's header.
    pub open spec fn board(self) -> u8 {
        match self {
            GpioPin::Gpio2 => 3,
            GpioPin::Gpio3 => 5,
            GpioPin::Gpio4 => 6,
            GpioPin::Gpio17 => 11,
            GpioPin::Gpio27 => 13,
            GpioPin::Gpio22 => 15,
            GpioPin::Gpio10 => 19,
            GpioPin::Gpio9 => 21,
            GpioPin::Gpio11 => 23,
            GpioPin::Gpio0 => 27,
            GpioPin::Gpio5 => 29,
            GpioPin::Gpio6 => 31,
            GpioPin::Gpio13 => 33,
            GpioPin::Gpio19 => 35,
            GpioPin::Gpio26 => 26,
            GpioPin::Gpio14 => 8,
            GpioPin::Gpio15 => 10,
            GpioPin::Gpio18 => 12,
            GpioPin::Gpio23 => 16,
            GpioPin::Gpio24 => 18,
            GpioPin::Gpio25 => 22,
            GpioPin::Gpio8 => 24,
            GpioPin::Gpio7 => 37,
            GpioPin::Gpio1 => 28,
            GpioPin::Gpio12 => 32,
            GpioPin::Gpio16 => 36,
            GpioPin::Gpio20 => 38,
            GpioPin::Gpio21 => 40,
        }
    }

    /// The number of the pin in the Broadcom numbering: the number in its name.
    pub open spec fn bcm(self) -> u8 {
        match self {
            GpioPin::Gpio2 => 2,
            GpioPin::Gpio3 => 3,
            GpioPin::Gpio4 => 4,
            GpioPin::Gpio17 => 17,
            GpioPin::Gpio27 => 27,
            GpioPin::Gpio22 => 22,
            GpioPin::Gpio10 => 10,
            GpioPin::Gpio9 => 9,
            GpioPin::Gpio11 => 11,
            GpioPin::Gpio0 => 0,
            GpioPin::Gpio5 => 5,
            GpioPin::Gpio6 => 6,
            GpioPin::Gpio13 => 13,
            GpioPin::Gpio19 => 19,
            GpioPin::Gpio26 => 26,
            GpioPin::Gpio14 => 14,
            GpioPin::Gpio15 => 15,
            GpioPin::Gpio18 => 18,
            GpioPin::Gpio23 => 23,
            GpioPin::Gpio24 => 24,
            GpioPin::Gpio25 => 25,
            GpioPin::Gpio8 => 8,
            GpioPin::Gpio7 => 7,
            GpioPin::Gpio1 => 1,
            GpioPin::Gpio12 => 12,
            GpioPin::Gpio16 => 16,
            GpioPin::Gpio20 => 20,
            GpioPin::Gpio21 => 21,
        }
    }

    /// The position of the pin on the board's header.
    pub fn board_number(&self) -> (number: u8)
        ensures
            number == self.board(),
    {
        match self {
            GpioPin::Gpio2 => 3,
            GpioPin::Gpio3 => 5,
            GpioPin::Gpio4 => 6,
            GpioPin::Gpio17 => 11,
            GpioPin::Gpio27 => 13,
            GpioPin::Gpio22 => 15,
            GpioPin::Gpio10 => 19,
            GpioPin::Gpio9 => 21,
            GpioPin::Gpio11 => 23,
            GpioPin::Gpio0 => 27,
            GpioPin::Gpio5 => 29,
            GpioPin::Gpio6 => 31,
            GpioPin::Gpio13 => 33,
            GpioPin::Gpio19 => 35,
            GpioPin::Gpio26 => 26,
            GpioPin::Gpio14 => 8,
            GpioPin::Gpio15 => 10,
            GpioPin::Gpio18 => 12,
            GpioPin::Gpio23 => 16,
            GpioPin::Gpio24 => 18,
            GpioPin::Gpio25 => 22,
            GpioPin::Gpio8 => 24,
            GpioPin::Gpio7 => 37,
            GpioPin::Gpio1 => 28,
            GpioPin::Gpio12 => 32,
            GpioPin::Gpio16 => 36,
            GpioPin::Gpio20 => 38,
            GpioPin::Gpio21 => 40,
        }
    }

    /// The number of the pin in the Broadcom numbering.
    pub fn bcm_number(&self) -> (number: u8)
        ensures
            number == self.bcm(),
    {
        match self {
            GpioPin::Gpio2 => 2,
            GpioPin::Gpio3 => 3,
            GpioPin::Gpio4 => 4,
            GpioPin::Gpio17 => 17,
            GpioPin::Gpio27 => 27,
            GpioPin::Gpio22 => 22,
            GpioPin::Gpio10 => 10,
            GpioPin::Gpio9 => 9,
            GpioPin::Gpio11 => 11,
            GpioPin::Gpio0 => 0,
            GpioPin::Gpio5 => 5,
            GpioPin::Gpio6 => 6,
            GpioPin::Gpio13 => 13,
            GpioPin::Gpio19 => 19,
            GpioPin::Gpio26 => 26,
            GpioPin::Gpio14 => 14,
            GpioPin::Gpio15 => 15,
            GpioPin::Gpio18 => 18,
            GpioPin::Gpio23 => 23,
            GpioPin::Gpio24 => 24,
            GpioPin::Gpio25 => 25,
            GpioPin::Gpio8 => 8,
            GpioPin::Gpio7 => 7,
            GpioPin::Gpio1 => 1,
            GpioPin::Gpio12 => 12,
            GpioPin::Gpio16 => 16,
            GpioPin::Gpio20 => 20,
            GpioPin::Gpio21 => 21,
        }
    }

    /// Each pin has a header position of its own, from 1 to 40, and a Broadcom
    /// number of its own, below 28: either number tells the pin.
    pub proof fn lemma_numbers_tell_pins(self, other: GpioPin)
        ensures
            1 <= self.board() <= 40,
            self.bcm() < 28,
            self.board() == other.board() ==> self == other,
            self.bcm() == other.bcm() ==> self == other,
    {
    }
}

} // verus!
