//! Logical pins of the board and the actions that can be taken on them.

use vstd::prelude::*;

verus! {

/// Electrical level of a digital input.
#[derive(Copy, Clone, Debug, PartialEq, Eq, Hash)]
pub enum Level {
    Low,
    High,
}

/// Whether a line is read or driven.
#[derive(Copy, Clone, Debug, PartialEq, Eq, Hash)]
pub enum Direction {
    Input,
    Output,
}

/// A line of the board, named by its role.
///
/// The role is bound to one physical line for the lifetime of the board; see
/// [`Pin::number`].
#[derive(Copy, Clone, Debug, PartialEq, Eq, Hash)]
pub enum Pin {
    ButtonA,
    ButtonB,
    ButtonX,
    ButtonY,
    ButtonALed,
    ButtonBLed,
    ButtonXLed,
    ButtonYLed,
    MotorEnable,
    MotorLeftP,
    MotorLeftN,
    MotorRightP,
    MotorRightN,
    UltraTrig,
    UltraEcho,
}

/// Full scale of a duty cycle, in parts per million.
pub const FULL_DUTY: u32 = 1_000_000;

impl Pin {
    /// The physical (BCM) line number that the role is wired to.
    pub open spec fn spec_number(self) -> u8 {
        match self {
            Pin::ButtonA => 5,
            Pin::ButtonB => 6,
            Pin::ButtonX => 16,
            Pin::ButtonY => 24,
            Pin::ButtonALed => 23,
            Pin::ButtonBLed => 22,
            Pin::ButtonXLed => 17,
            Pin::ButtonYLed => 27,
            Pin::MotorEnable => 26,
            Pin::MotorLeftP => 8,
            Pin::MotorLeftN => 11,
            Pin::MotorRightP => 10,
            Pin::MotorRightN => 9,
            Pin::UltraTrig => 13,
            Pin::UltraEcho => 25,
        }
    }

    /// Buttons and the ultrasonic echo are read; every other line is driven.
    pub open spec fn spec_direction(self) -> Direction {
        match self {
            Pin::ButtonA | Pin::ButtonB | Pin::ButtonX | Pin::ButtonY | Pin::UltraEcho => {
                Direction::Input
            },
            _ => Direction::Output,
        }
    }

    /// All roles, in acquisition order.
    pub open spec fn spec_all() -> Seq<Pin> {
        seq![
            Pin::ButtonA,
            Pin::ButtonB,
            Pin::ButtonX,
            Pin::ButtonY,
            Pin::ButtonALed,
            Pin::ButtonBLed,
            Pin::ButtonXLed,
            Pin::ButtonYLed,
            Pin::MotorEnable,
            Pin::MotorLeftP,
            Pin::MotorLeftN,
            Pin::MotorRightP,
            Pin::MotorRightN,
            Pin::UltraTrig,
            Pin::UltraEcho,
        ]
    }

    /// The physical (BCM) line number that the role is wired to.
    #[verifier::when_used_as_spec(spec_number)]
    pub fn number(self) -> (n: u8)
        ensures
            n == self.spec_number(),
    {
        match self {
            Pin::ButtonA => 5,
            Pin::ButtonB => 6,
            Pin::ButtonX => 16,
            Pin::ButtonY => 24,
            Pin::ButtonALed => 23,
            Pin::ButtonBLed => 22,
            Pin::ButtonXLed => 17,
            Pin::ButtonYLed => 27,
            Pin::MotorEnable => 26,
            Pin::MotorLeftP => 8,
            Pin::MotorLeftN => 11,
            Pin::MotorRightP => 10,
            Pin::MotorRightN => 9,
            Pin::UltraTrig => 13,
            Pin::UltraEcho => 25,
        }
    }

    /// Whether the line is read or driven.
    #[verifier::when_used_as_spec(spec_direction)]
    pub fn direction(self) -> (d: Direction)
        ensures
            d == self.spec_direction(),
    {
        match self {
            Pin::ButtonA | Pin::ButtonB | Pin::ButtonX | Pin::ButtonY | Pin::UltraEcho => {
                Direction::Input
            },
            _ => Direction::Output,
        }
    }

    /// Every role once, in the order in which the board acquires its lines.
    pub fn all() -> (pins: Vec<Pin>)
        ensures
            pins@ == Pin::spec_all(),
    {
        let pins = vec![
            Pin::ButtonA,
            Pin::ButtonB,
            Pin::ButtonX,
            Pin::ButtonY,
            Pin::ButtonALed,
            Pin::ButtonBLed,
            Pin::ButtonXLed,
            Pin::ButtonYLed,
            Pin::MotorEnable,
            Pin::MotorLeftP,
            Pin::MotorLeftN,
            Pin::MotorRightP,
            Pin::MotorRightN,
            Pin::UltraTrig,
            Pin::UltraEcho,
        ];
        assert(pins@ =~= Pin::spec_all());
        pins
    }

    /// No two roles share a physical line.
    pub proof fn lemma_numbers_distinct(a: Pin, b: Pin)
        ensures
            a.spec_number() == b.spec_number() ==> a == b,
    {
    }
}

/// One step on the board's lines, performed by the caller.
#[derive(Copy, Clone, Debug, PartialEq, Eq, Hash)]
pub enum Action {
    /// Drive the line high.
    SetHigh(Pin),
    /// Drive the line low.
    SetLow(Pin),
    /// Drive the line with a PWM signal of the given carrier frequency in
    /// hertz and duty cycle in parts per million.
    SetPwm { pin: Pin, frequency_hz: u32, duty_ppm: u32 },
    /// Wait for the given number of microseconds.
    DelayMicros(u64),
}

} // verus!
