//! Lines of a board that is not there: pins that only remember what was done to them.

use crate::text::str_eq;
use vstd::prelude::*;

verus! {

/// The failure of a line. Lines that are not there never fail.
#[derive(Debug, Clone, Copy, PartialEq, Eq, Structural)]
pub struct Error;

/// The board's lines.
#[derive(Debug, Clone, Copy, PartialEq, Eq, Structural)]
pub struct Gpio;

impl Gpio {
    /// The board's lines. There is always a board.
    pub fn new() -> (gpio: Result<Gpio, Error>)
        ensures
            gpio == Ok::<Gpio, Error>(Gpio),
    {
        Ok(Gpio)
    }

    /// The line with the Broadcom number `pin`. Every line can be had.
    pub fn get(&self, pin: u8) -> (line: Result<Pin, Error>)
        ensures
            line == Ok::<Pin, Error>(Pin(pin)),
    {
        Ok(Pin(pin))
    }
}

/// A line that is not yet an input or an output.
#[derive(Debug, Clone, Copy, PartialEq, Eq, Structural)]
pub struct Pin(pub u8);

impl Pin {
    /// The line as an output. It starts low.
    pub fn into_output(self) -> (output: OutputPin)
        ensures
            output == (OutputPin { pin: self.0, high: false }),
    {
        OutputPin { pin: self.0, high: false }
    }

    /// The line as an input that reads high while nothing pulls it low.
    pub fn into_input_pullup(self) -> (input: InputPin)
        ensures
            input == InputPin(self.0),
    {
        InputPin(self.0)
    }
}

/// An output line and the level it was last set to.
#[derive(Debug, Clone, Copy, PartialEq, Eq, Structural)]
pub struct OutputPin {
    pub pin: u8,
    pub high: bool,
}

impl OutputPin {
    /// Sets the line high.
    pub fn set_high(&mut self)
        ensures
            *final(self) == (OutputPin { pin: old(self).pin, high: true }),
    {
        self.high = true;
    }

    /// Sets the line low.
    pub fn set_low(&mut self)
        ensures
            *final(self) == (OutputPin { pin: old(self).pin, high: false }),
    {
        self.high = false;
    }

    /// Whether the line was last set high.
    pub fn is_set_high(&self) -> (high: bool)
        ensures
            high == self.high,
    {
        self.high
    }
}

/// An input line.
#[derive(Debug, Clone, Copy, PartialEq, Eq, Structural)]
pub struct InputPin(pub u8);

impl InputPin {
    /// Whether the line reads high, given what stands in for the line: the text
    /// kept for this pin, if any is kept. The line is high exactly when the text
    /// is `1`.
    pub fn is_high(&self, level: Option<&str>) -> (high: bool)
        ensures
            high == (level matches Some(text) && text@ == "1"@),
    {
        match level {
            Some(text) => str_eq(text, "1"),
            None => false,
        }
    }
}

} // verus!
