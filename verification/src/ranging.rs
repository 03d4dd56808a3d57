//! Ultrasonic ranging as a state machine.
//!
//! A measurement pulses the trigger line, waits for the echo line to rise and
//! then for it to fall again. The machine holds what has been learned so
//! far; the caller carries out each [`Request`] and reports back with an
//! [`Event`]. Clock readings are in nanoseconds from any fixed origin.
//!
//! The machine never gives up on its own: it asks for samples until the echo
//! has come and gone. A caller that wants a time limit stops asking.

use vstd::prelude::*;
use crate::gpio::Action;
use crate::gpio::Level;
use crate::gpio::Pin;

verus! {

/// Length of the trigger pulse, in microseconds.
pub const TRIGGER_MICROS: u64 = 10;

/// Where a measurement stands.
#[derive(Copy, Clone, Debug, PartialEq, Eq)]
pub enum Phase {
    /// Nothing has been asked for yet.
    Idle,
    /// The trigger pulse is being sent.
    Triggered,
    /// The echo line is being polled until it rises.
    AwaitEchoStart,
    /// The echo line is being polled until it falls.
    AwaitEchoEnd,
    /// The echo has ended and its duration is known.
    Done,
}

/// What the caller reports to the machine.
#[derive(Copy, Clone, Debug, PartialEq, Eq)]
pub enum Event {
    /// A measurement is wanted.
    Start,
    /// The trigger pulse has been sent; `now` is the clock right after it.
    Armed { now: u64 },
    /// The echo line was read as `level`; `now` is the clock right after
    /// the reading.
    Echo { level: Level, now: u64 },
}

/// What the machine asks of the caller.
#[derive(Copy, Clone, Debug, PartialEq, Eq)]
pub enum Request {
    /// Nothing, until a measurement is wanted.
    Rest,
    /// Perform [`trigger_pulse`], read the clock and report [`Event::Armed`].
    Pulse,
    /// Read the echo line, then the clock, and report [`Event::Echo`].
    Sample,
    /// Nothing more: the measurement is complete.
    Finished,
}

/// A measurement in progress.
#[derive(Copy, Clone, Debug, PartialEq, Eq)]
pub struct Ranging {
    /// Where the measurement stands.
    pub phase: Phase,
    /// Clock at the last low reading before the echo rose, or when the
    /// trigger pulse ended if there was none.
    pub pulse_start: u64,
    /// Clock at the last high reading before the echo fell, or when the
    /// trigger pulse ended if there was none.
    pub pulse_end: u64,
}

/// The actions that send the trigger pulse.
pub open spec fn pulse_actions() -> Seq<Action> {
    seq![
        Action::SetHigh(Pin::UltraTrig),
        Action::DelayMicros(TRIGGER_MICROS),
        Action::SetLow(Pin::UltraTrig),
    ]
}

/// The actions that send the trigger pulse: the trigger line is held high
/// for [`TRIGGER_MICROS`] and then released.
pub fn trigger_pulse() -> (actions: Vec<Action>)
    ensures
        actions@ == pulse_actions(),
{
    let mut actions: Vec<Action> = Vec::new();
    actions.push(Action::SetHigh(Pin::UltraTrig));
    actions.push(Action::DelayMicros(TRIGGER_MICROS));
    actions.push(Action::SetLow(Pin::UltraTrig));
    assert(actions@ =~= pulse_actions());
    actions
}

impl Ranging {
    /// The state that follows `self` on `event`. An event that the phase
    /// does not wait for changes nothing.
    pub open spec fn after(self, event: Event) -> Ranging {
        match (self.phase, event) {
            (Phase::Idle, Event::Start) => Ranging { phase: Phase::Triggered, ..self },
            (Phase::Triggered, Event::Armed { now }) => Ranging {
                phase: Phase::AwaitEchoStart,
                pulse_start: now,
                pulse_end: now,
            },
            (Phase::AwaitEchoStart, Event::Echo { level: Level::Low, now }) => Ranging {
                pulse_start: now,
                ..self
            },
            (Phase::AwaitEchoStart, Event::Echo { level: Level::High, now }) => Ranging {
                phase: Phase::AwaitEchoEnd,
                ..self
            },
            (Phase::AwaitEchoEnd, Event::Echo { level: Level::High, now }) => Ranging {
                pulse_end: now,
                ..self
            },
            (Phase::AwaitEchoEnd, Event::Echo { level: Level::Low, now }) => Ranging {
                phase: Phase::Done,
                ..self
            },
            _ => self,
        }
    }

    /// What the machine asks for in its current phase.
    pub open spec fn wants(self) -> Request {
        match self.phase {
            Phase::Idle => Request::Rest,
            Phase::Triggered => Request::Pulse,
            Phase::AwaitEchoStart => Request::Sample,
            Phase::AwaitEchoEnd => Request::Sample,
            Phase::Done => Request::Finished,
        }
    }

    /// The time between the two recorded clock readings, in whole
    /// microseconds; zero if the second is not later than the first.
    pub open spec fn elapsed_micros(self) -> nat {
        if self.pulse_end >= self.pulse_start {
            ((self.pulse_end - self.pulse_start) / 1000) as nat
        } else {
            0
        }
    }

    /// The state after all of `events`, in order.
    pub open spec fn after_all(self, events: Seq<Event>) -> Ranging
        decreases events.len(),
    {
        if events.len() == 0 {
            self
        } else {
            self.after_all(events.drop_last()).after(events.last())
        }
    }

    /// A machine at rest.
    pub open spec fn idle() -> Ranging {
        Ranging { phase: Phase::Idle, pulse_start: 0, pulse_end: 0 }
    }

    /// A machine at rest.
    pub fn new() -> (r: Ranging)
        ensures
            r == Ranging::idle(),
    {
        Ranging { phase: Phase::Idle, pulse_start: 0, pulse_end: 0 }
    }

    /// What the machine asks for in its current phase.
    pub fn request(&self) -> (request: Request)
        ensures
            request == self.wants(),
    {
        match self.phase {
            Phase::Idle => Request::Rest,
            Phase::Triggered => Request::Pulse,
            Phase::AwaitEchoStart => Request::Sample,
            Phase::AwaitEchoEnd => Request::Sample,
            Phase::Done => Request::Finished,
        }
    }

    /// Takes in `event` and yields what to do next.
    pub fn step(&mut self, event: Event) -> (request: Request)
        ensures
            *final(self) == old(self).after(event),
            request == final(self).wants(),
    {
        match self.phase {
            Phase::Idle => {
                if let Event::Start = event {
                    self.phase = Phase::Triggered;
                }
            },
            Phase::Triggered => {
                if let Event::Armed { now } = event {
                    self.phase = Phase::AwaitEchoStart;
                    self.pulse_start = now;
                    self.pulse_end = now;
                }
            },
            Phase::AwaitEchoStart => {
                if let Event::Echo { level, now } = event {
                    match level {
                        Level::Low => {
                            self.pulse_start = now;
                        },
                        Level::High => {
                            self.phase = Phase::AwaitEchoEnd;
                        },
                    }
                }
            },
            Phase::AwaitEchoEnd => {
                if let Event::Echo { level, now } = event {
                    match level {
                        Level::High => {
                            self.pulse_end = now;
                        },
                        Level::Low => {
                            self.phase = Phase::Done;
                        },
                    }
                }
            },
            Phase::Done => {},
        }
        self.request()
    }

    /// The duration of the echo in whole microseconds, once the measurement
    /// is complete.
    pub fn echo_micros(&self) -> (micros: Option<u64>)
        ensures
            micros == if self.phase == Phase::Done {
                Some(self.elapsed_micros() as u64)
            } else {
                None
            },
    {
        match self.phase {
            Phase::Done => {
                if self.pulse_end >= self.pulse_start {
                    Some((self.pulse_end - self.pulse_start) / 1000)
                } else {
                    Some(0)
                }
            },
            _ => None,
        }
    }
}

/// Readings of the echo line that all gave `level`, taken at the times
/// `times`.
pub open spec fn readings(level: Level, times: Seq<u64>) -> Seq<Event> {
    Seq::new(times.len(), |k: int| Event::Echo { level, now: times[k] })
}

/// What is reported in the course of one measurement: the start, the end of
/// the trigger pulse at `armed`, low readings at `lows`, the high reading
/// at `rise` that shows the echo has begun, further high readings at `highs`
/// and the low reading at `fall` that shows it has ended.
pub open spec fn measurement(
    armed: u64,
    lows: Seq<u64>,
    rise: u64,
    highs: Seq<u64>,
    fall: u64,
) -> Seq<Event> {
    seq![Event::Start, Event::Armed { now: armed }] + readings(Level::Low, lows)
        + seq![Event::Echo { level: Level::High, now: rise }] + readings(Level::High, highs)
        + seq![Event::Echo { level: Level::Low, now: fall }]
}

/// The last of `times`, or `otherwise` if there is none.
pub open spec fn last_or(times: Seq<u64>, otherwise: u64) -> u64 {
    if times.len() > 0 {
        times.last()
    } else {
        otherwise
    }
}

/// Events taken in one after the other are taken in as one sequence.
pub proof fn lemma_after_all_concat(state: Ranging, first: Seq<Event>, second: Seq<Event>)
    ensures
        state.after_all(first + second) == state.after_all(first).after_all(second),
    decreases second.len(),
{
    if second.len() == 0 {
        assert(first + second =~= first);
    } else {
        assert((first + second).drop_last() =~= first + second.drop_last());
        lemma_after_all_concat(state, first, second.drop_last());
    }
}

/// A single event taken in as a sequence.
proof fn lemma_after_all_one(state: Ranging, event: Event)
    ensures
        state.after_all(seq![event]) == state.after(event),
{
    assert(seq![event].drop_last() =~= Seq::<Event>::empty());
    assert(state.after_all(Seq::<Event>::empty()) == state);
}

/// While the echo is awaited, each low reading moves the start of the
/// pulse to its own time.
proof fn lemma_low_readings(state: Ranging, lows: Seq<u64>)
    requires
        state.phase == Phase::AwaitEchoStart,
    ensures
        state.after_all(readings(Level::Low, lows)) == (Ranging {
            pulse_start: last_or(lows, state.pulse_start),
            ..state
        }),
    decreases lows.len(),
{
    if lows.len() > 0 {
        lemma_low_readings(state, lows.drop_last());
        assert(readings(Level::Low, lows).drop_last() =~= readings(Level::Low, lows.drop_last()));
    }
}

/// While the echo lasts, each high reading moves the end of the pulse to
/// its own time.
proof fn lemma_high_readings(state: Ranging, highs: Seq<u64>)
    requires
        state.phase == Phase::AwaitEchoEnd,
    ensures
        state.after_all(readings(Level::High, highs)) == (Ranging {
            pulse_end: last_or(highs, state.pulse_end),
            ..state
        }),
    decreases highs.len(),
{
    if highs.len() > 0 {
        lemma_high_readings(state, highs.drop_last());
        assert(readings(Level::High, highs).drop_last() =~= readings(
            Level::High,
            highs.drop_last(),
        ));
    }
}

/// A measurement ends with the pulse timed from the last low reading before
/// the echo to the last high reading within it; where there was no such
/// reading, the end of the trigger pulse stands in. The readings that show
/// the two edges are not themselves times of the pulse.
pub proof fn lemma_measurement(armed: u64, lows: Seq<u64>, rise: u64, highs: Seq<u64>, fall: u64)
    ensures
        Ranging::idle().after_all(measurement(armed, lows, rise, highs, fall)) == (Ranging {
            phase: Phase::Done,
            pulse_start: last_or(lows, armed),
            pulse_end: last_or(highs, armed),
        }),
{
    let begin = seq![Event::Start, Event::Armed { now: armed }];
    let up = Event::Echo { level: Level::High, now: rise };
    let down = Event::Echo { level: Level::Low, now: fall };
    let s0 = Ranging::idle();
    let s1 = s0.after(Event::Start).after(Event::Armed { now: armed });
    assert(s0.after_all(begin) == s1) by {
        assert(begin =~= seq![Event::Start] + seq![Event::Armed { now: armed }]);
        lemma_after_all_concat(s0, seq![Event::Start], seq![Event::Armed { now: armed }]);
        lemma_after_all_one(s0, Event::Start);
        lemma_after_all_one(s0.after(Event::Start), Event::Armed { now: armed });
    }
    let s2 = s1.after_all(readings(Level::Low, lows));
    lemma_low_readings(s1, lows);
    lemma_after_all_concat(s0, begin, readings(Level::Low, lows));
    let s3 = s2.after(up);
    lemma_after_all_one(s2, up);
    lemma_after_all_concat(s0, begin + readings(Level::Low, lows), seq![up]);
    let s4 = s3.after_all(readings(Level::High, highs));
    lemma_high_readings(s3, highs);
    lemma_after_all_concat(
        s0,
        begin + readings(Level::Low, lows) + seq![up],
        readings(Level::High, highs),
    );
    lemma_after_all_one(s4, down);
    lemma_after_all_concat(
        s0,
        begin + readings(Level::Low, lows) + seq![up] + readings(Level::High, highs),
        seq![down],
    );
}

} // verus!
