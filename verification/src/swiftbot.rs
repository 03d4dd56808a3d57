//! The robot: buttons and their lights, the two motors, the underlights and
//! the camera's configuration state.
//!
//! Speeds and light intensities are in parts per million of full scale;
//! values beyond full scale count as full scale.

use vstd::prelude::*;
use crate::gpio::Action;
use crate::gpio::Level;
use crate::gpio::Pin;
use crate::gpio::FULL_DUTY;
use crate::ranging::Phase;
use crate::ranging::Ranging;
use crate::sn3218::loads;
use crate::sn3218::masks;
use crate::sn3218::Frame;
use crate::sn3218::ALL_CHANNELS;
use crate::sn3218::SN3218;

verus! {

/// Carrier frequency of the motor control lines, in hertz.
pub const MOTOR_PWM_HZ: u32 = 100;

/// Carrier frequency of the button lights, in hertz.
pub const LIGHT_PWM_HZ: u32 = 2000;

/// Full forward speed, in parts per million.
pub const FULL_SPEED: i32 = 1_000_000;

/// Number of underlight positions; each has a red, a green and a blue
/// channel.
pub const UNDERLIGHTS: usize = 6;

/// One of the four buttons, each with an indicator light.
#[derive(Copy, Clone, Debug, PartialEq, Eq, Hash)]
pub enum Button {
    A,
    B,
    X,
    Y,
}

/// One of the two drive motors.
#[derive(Copy, Clone, Debug, PartialEq, Eq, Hash)]
pub enum Motor {
    Left,
    Right,
}

/// The levels read on the four button lines.
#[derive(Copy, Clone, Debug, PartialEq, Eq)]
pub struct ButtonLevels {
    pub a: Level,
    pub b: Level,
    pub x: Level,
    pub y: Level,
}

impl ButtonLevels {
    /// The level on the line of `button`.
    pub open spec fn level(self, button: Button) -> Level {
        match button {
            Button::A => self.a,
            Button::B => self.b,
            Button::X => self.x,
            Button::Y => self.y,
        }
    }
}

/// What to do next to take a photo.
#[derive(Copy, Clone, Debug, PartialEq, Eq)]
pub enum Capture {
    /// Configure the camera with these dimensions and activate it, then
    /// report the outcome with [`SwiftBot::camera_activated`].
    Activate { width: u32, height: u32 },
    /// Wait for the exposure time, in milliseconds, then take one frame.
    Expose { millis: u64 },
    /// The camera could not be activated: the photo is empty.
    Abandon,
}

impl Button {
    /// The input line of the button.
    pub open spec fn spec_pin(self) -> Pin {
        match self {
            Button::A => Pin::ButtonA,
            Button::B => Pin::ButtonB,
            Button::X => Pin::ButtonX,
            Button::Y => Pin::ButtonY,
        }
    }

    /// The line of the button's indicator light.
    pub open spec fn spec_led(self) -> Pin {
        match self {
            Button::A => Pin::ButtonALed,
            Button::B => Pin::ButtonBLed,
            Button::X => Pin::ButtonXLed,
            Button::Y => Pin::ButtonYLed,
        }
    }

    /// The input line of the button.
    #[verifier::when_used_as_spec(spec_pin)]
    pub fn pin(self) -> (pin: Pin)
        ensures
            pin == self.spec_pin(),
    {
        match self {
            Button::A => Pin::ButtonA,
            Button::B => Pin::ButtonB,
            Button::X => Pin::ButtonX,
            Button::Y => Pin::ButtonY,
        }
    }

    /// The line of the button's indicator light.
    #[verifier::when_used_as_spec(spec_led)]
    pub fn led(self) -> (pin: Pin)
        ensures
            pin == self.spec_led(),
    {
        match self {
            Button::A => Pin::ButtonALed,
            Button::B => Pin::ButtonBLed,
            Button::X => Pin::ButtonXLed,
            Button::Y => Pin::ButtonYLed,
        }
    }
}

impl Motor {
    /// The motor's two control lines, in the order in which they are driven.
    /// The left motor is mounted mirrored, so its lines are crossed.
    pub open spec fn spec_pins(self) -> (Pin, Pin) {
        match self {
            Motor::Left => (Pin::MotorLeftN, Pin::MotorLeftP),
            Motor::Right => (Pin::MotorRightP, Pin::MotorRightN),
        }
    }

    /// The motor's two control lines, in the order in which they are driven.
    #[verifier::when_used_as_spec(spec_pins)]
    pub fn pins(self) -> (pins: (Pin, Pin))
        ensures
            pins == self.spec_pins(),
    {
        match self {
            Motor::Left => (Pin::MotorLeftN, Pin::MotorLeftP),
            Motor::Right => (Pin::MotorRightP, Pin::MotorRightN),
        }
    }
}

/// A speed limited to full scale in either direction.
pub open spec fn clamped_speed(speed: int) -> int {
    if speed > FULL_SPEED {
        FULL_SPEED as int
    } else if speed < -FULL_SPEED {
        -FULL_SPEED
    } else {
        speed
    }
}

/// The duty cycles of a motor's first and second control line for a signed
/// speed, all in parts per million. Forward holds the first line high and
/// releases the second in proportion to the speed; reverse does the
/// opposite; at rest both lines are held high.
pub open spec fn motor_duties(speed: int) -> (int, int) {
    let s = clamped_speed(speed);
    if s > 0 {
        (FULL_DUTY as int, FULL_DUTY - s)
    } else if s < 0 {
        (FULL_DUTY + s, FULL_DUTY as int)
    } else {
        (FULL_DUTY as int, FULL_DUTY as int)
    }
}

/// The actions that drive `motor` at `speed`: raise the shared enable line,
/// then set the two control lines.
pub open spec fn motor_actions(motor: Motor, speed: int) -> Seq<Action> {
    seq![
        Action::SetHigh(Pin::MotorEnable),
        Action::SetPwm {
            pin: motor.spec_pins().0,
            frequency_hz: MOTOR_PWM_HZ,
            duty_ppm: motor_duties(speed).0 as u32,
        },
        Action::SetPwm {
            pin: motor.spec_pins().1,
            frequency_hz: MOTOR_PWM_HZ,
            duty_ppm: motor_duties(speed).1 as u32,
        },
    ]
}

/// A light intensity limited to full scale.
pub open spec fn clamped_intensity(value: u32) -> u32 {
    if value > FULL_DUTY {
        FULL_DUTY
    } else {
        value
    }
}

/// The action that lights the indicator of `button` at intensity `value`.
pub open spec fn light_action(button: Button, value: u32) -> Action {
    Action::SetPwm {
        pin: button.spec_led(),
        frequency_hz: LIGHT_PWM_HZ,
        duty_ppm: clamped_intensity(value),
    }
}

/// The underlight buffer in which every position shows the colour
/// `(r, g, b)`.
pub open spec fn rgb_fill(r: u8, g: u8, b: u8) -> Seq<u8> {
    Seq::new(
        18,
        |k: int|
            if k % 3 == 0 {
                r
            } else if k % 3 == 1 {
                g
            } else {
                b
            },
    )
}

/// The underlight buffer in which every channel is off.
pub open spec fn dark() -> Seq<u8> {
    Seq::new(18, |k: int| 0u8)
}

/// Whether `frames` show `buffer` on the underlights: load it, latch it,
/// and switch the outputs on.
pub open spec fn shows(frames: Seq<Frame>, buffer: Seq<u8>) -> bool {
    &&& frames.len() == 3
    &&& loads(frames.take(2), buffer)
    &&& frames[2] == Frame::EnableOutput(true)
}

/// Whether `frames` bring the chip from any state to its initial one:
/// reset, all values zero, every channel enabled, outputs off.
pub open spec fn starts(frames: Seq<Frame>) -> bool {
    &&& frames.len() == 6
    &&& frames[0] == Frame::Reset
    &&& loads(frames.subrange(1, 3), dark())
    &&& masks(frames.subrange(3, 5), ALL_CHANNELS)
    &&& frames[5] == Frame::EnableOutput(false)
}

/// The distance, in thousandths of a centimetre, that an echo of
/// `echo_micros` microseconds stands for: sound covers 0.034 cm in a
/// microsecond, and the echo has gone there and back.
pub open spec fn distance_of(echo_micros: nat) -> nat {
    echo_micros * 34 / 2
}

/// The robot's state.
pub struct SwiftBot {
    sn3218: SN3218,
    buffer: [u8; 18],
    camera_configured: bool,
}

/// What the robot remembers between operations.
pub struct SwiftBotView {
    /// The raw brightness of the 18 underlight channels.
    pub underlight: Seq<u8>,
    /// Whether the camera has been configured and activated.
    pub camera_ready: bool,
}

impl SwiftBotView {
    /// The state after the underlights have been cleared.
    pub open spec fn cleared(self) -> SwiftBotView {
        SwiftBotView { underlight: dark(), ..self }
    }

    /// The state after an attempt to activate the camera.
    pub open spec fn activated(self, success: bool) -> SwiftBotView {
        SwiftBotView { camera_ready: self.camera_ready || success, ..self }
    }
}

impl View for SwiftBot {
    type V = SwiftBotView;

    /// What the robot remembers.
    closed spec fn view(&self) -> SwiftBotView {
        SwiftBotView { underlight: self.buffer@, camera_ready: self.camera_configured }
    }
}

/// Whether clearing the underlights takes the robot from `before` to
/// `after` and yields `frame`: the buffer goes dark, nothing else changes,
/// and the frame switches the outputs off.
pub open spec fn clears(before: SwiftBotView, after: SwiftBotView, frame: Frame) -> bool {
    &&& after == before.cleared()
    &&& frame == Frame::EnableOutput(false)
}

/// Clearing the underlights twice is the same as clearing them once: the
/// buffer is dark after the first time and after the second, the second time
/// changes nothing, and the outputs are switched off both times.
pub proof fn lemma_clear_underlight_idempotent(
    start: SwiftBotView,
    once: SwiftBotView,
    twice: SwiftBotView,
    first: Frame,
    second: Frame,
)
    requires
        clears(start, once, first),
        clears(once, twice, second),
    ensures
        once.underlight == dark(),
        twice.underlight == dark(),
        twice == once,
        first == Frame::EnableOutput(false),
        second == first,
{
}

/// The camera, once ready, stays ready whatever is reported later.
pub proof fn lemma_camera_stays_ready(s: SwiftBotView, success: bool)
    requires
        s.camera_ready,
    ensures
        s.activated(success) == s,
{
}

impl SwiftBot {
    /// The robot at power-on, with the frames that initialise the LED
    /// driver: the underlights are dark and the camera is not configured.
    pub fn new() -> (r: (SwiftBot, Vec<Frame>))
        ensures
            r.0@ == (SwiftBotView { underlight: dark(), camera_ready: false }),
            starts(r.1@),
    {
        let buffer: [u8; 18] = [0u8; 18];
        let sn3218 = SN3218::new();
        let mut frames: Vec<Frame> = Vec::new();
        frames.push(sn3218.reset());
        let load = sn3218.output(&buffer);
        frames.push(load[0]);
        frames.push(load[1]);
        let mask = sn3218.enable_leds(ALL_CHANNELS);
        frames.push(mask[0]);
        frames.push(mask[1]);
        frames.push(sn3218.disable());
        proof {
            assert(buffer@ =~= dark());
            assert(frames@.subrange(1, 3) =~= load@);
            assert(frames@.subrange(3, 5) =~= mask@);
        }
        (SwiftBot { sn3218, buffer, camera_configured: false }, frames)
    }

    /// The current underlight buffer.
    pub fn buffer(&self) -> (buffer: [u8; 18])
        ensures
            buffer@ == self@.underlight,
    {
        self.buffer
    }

    /// Whether the camera has been configured and activated.
    pub fn camera_configured(&self) -> (ready: bool)
        ensures
            ready == self@.camera_ready,
    {
        self.camera_configured
    }

    /// Whether `button` is pressed, given the levels read on the button
    /// lines. The buttons pull their line low; nothing is debounced.
    pub fn is_pressed(&self, button: Button, levels: &ButtonLevels) -> (pressed: bool)
        ensures
            pressed == (levels.level(button) == Level::Low),
    {
        let level = match button {
            Button::A => levels.a,
            Button::B => levels.b,
            Button::X => levels.x,
            Button::Y => levels.y,
        };
        match level {
            Level::High => false,
            Level::Low => true,
        }
    }

    /// The actions that drive `motor` at the signed speed `speed`.
    pub fn set_motor_speed(&self, motor: Motor, speed: i32) -> (actions: Vec<Action>)
        ensures
            actions@ == motor_actions(motor, speed as int),
    {
        let s: i32 = if speed > FULL_SPEED {
            FULL_SPEED
        } else if speed < -FULL_SPEED {
            -FULL_SPEED
        } else {
            speed
        };
        let (first, second) = motor.pins();
        let full: i32 = FULL_SPEED;
        let (duty_first, duty_second): (u32, u32) = if s > 0 {
            (FULL_DUTY, (full - s) as u32)
        } else if s < 0 {
            ((full + s) as u32, FULL_DUTY)
        } else {
            (FULL_DUTY, FULL_DUTY)
        };
        let mut actions: Vec<Action> = Vec::new();
        actions.push(Action::SetHigh(Pin::MotorEnable));
        actions.push(
            Action::SetPwm { pin: first, frequency_hz: MOTOR_PWM_HZ, duty_ppm: duty_first },
        );
        actions.push(
            Action::SetPwm { pin: second, frequency_hz: MOTOR_PWM_HZ, duty_ppm: duty_second },
        );
        assert(actions@ =~= motor_actions(motor, speed as int));
        actions
    }

    /// The actions that drive both motors at `speed`, left motor first.
    fn drive(&self, speed: i32) -> (actions: Vec<Action>)
        ensures
            actions@ == motor_actions(Motor::Left, speed as int) + motor_actions(
                Motor::Right,
                speed as int,
            ),
    {
        let mut actions = self.set_motor_speed(Motor::Left, speed);
        let mut right = self.set_motor_speed(Motor::Right, speed);
        actions.append(&mut right);
        actions
    }

    /// The actions that drive both motors forward at full speed.
    pub fn forward(&self) -> (actions: Vec<Action>)
        ensures
            actions@ == motor_actions(Motor::Left, FULL_SPEED as int) + motor_actions(
                Motor::Right,
                FULL_SPEED as int,
            ),
    {
        self.drive(FULL_SPEED)
    }

    /// The actions that drive both motors backward at full speed.
    pub fn backward(&self) -> (actions: Vec<Action>)
        ensures
            actions@ == motor_actions(Motor::Left, -FULL_SPEED) + motor_actions(
                Motor::Right,
                -FULL_SPEED,
            ),
    {
        self.drive(-FULL_SPEED)
    }

    /// The actions that bring both motors to rest.
    pub fn stop(&self) -> (actions: Vec<Action>)
        ensures
            actions@ == motor_actions(Motor::Left, 0) + motor_actions(Motor::Right, 0),
    {
        self.drive(0)
    }

    /// The distance that a completed measurement stands for, in thousandths
    /// of a centimetre; `None` while the measurement is still under way.
    pub fn distance(&self, ranging: &Ranging) -> (distance: Option<u64>)
        ensures
            distance == if ranging.phase == Phase::Done {
                Some(distance_of(ranging.elapsed_micros()) as u64)
            } else {
                None
            },
    {
        match ranging.echo_micros() {
            Some(micros) => Some(micros * 34 / 2),
            None => None,
        }
    }

    /// The frames that show the current buffer on the underlights. The
    /// buffer is not changed.
    pub fn show_underlight(&self) -> (frames: Vec<Frame>)
        ensures
            shows(frames@, self@.underlight),
    {
        let mut frames = self.sn3218.output(&self.buffer);
        proof {
            assert(frames@.push(Frame::EnableOutput(true)).take(2) =~= frames@);
        }
        frames.push(self.sn3218.enable());
        frames
    }

    /// Fills every underlight position with the colour `(r, g, b)` and
    /// yields the frames that show it.
    pub fn set_underlight(&mut self, r: u8, g: u8, b: u8) -> (frames: Vec<Frame>)
        ensures
            final(self)@ == (SwiftBotView { underlight: rgb_fill(r, g, b), ..old(self)@ }),
            shows(frames@, rgb_fill(r, g, b)),
    {
        let mut light: usize = 0;
        while light < UNDERLIGHTS
            invariant
                light <= UNDERLIGHTS,
                self.camera_configured == old(self).camera_configured,
                forall|k: int| 0 <= k < 3 * light ==> #[trigger] self.buffer@[k] == rgb_fill(r, g, b)[k],
            decreases UNDERLIGHTS - light,
        {
            self.buffer[light * 3] = r;
            self.buffer[light * 3 + 1] = g;
            self.buffer[light * 3 + 2] = b;
            light = light + 1;
        }
        assert(self.buffer@ =~= rgb_fill(r, g, b));
        self.show_underlight()
    }

    /// Darkens the underlight buffer and yields the frame that switches the
    /// outputs off.
    pub fn clear_underlight(&mut self) -> (frame: Frame)
        ensures
            clears(old(self)@, final(self)@, frame),
    {
        self.buffer = [0u8; 18];
        assert(self.buffer@ =~= dark());
        self.sn3218.disable()
    }

    /// The action that lights the indicator of `button` at intensity
    /// `value`.
    pub fn set_button_light(&self, button: Button, value: u32) -> (action: Action)
        ensures
            action == light_action(button, value),
    {
        let duty: u32 = if value > FULL_DUTY {
            FULL_DUTY
        } else {
            value
        };
        Action::SetPwm { pin: button.led(), frequency_hz: LIGHT_PWM_HZ, duty_ppm: duty }
    }

    /// The actions that switch the four indicator lights off.
    pub fn clear_button_lights(&self) -> (actions: Vec<Action>)
        ensures
            actions@ == seq![
                light_action(Button::A, 0),
                light_action(Button::B, 0),
                light_action(Button::X, 0),
                light_action(Button::Y, 0),
            ],
    {
        let mut actions: Vec<Action> = Vec::new();
        actions.push(self.set_button_light(Button::A, 0));
        actions.push(self.set_button_light(Button::B, 0));
        actions.push(self.set_button_light(Button::X, 0));
        actions.push(self.set_button_light(Button::Y, 0));
        assert(actions@ =~= seq![
            light_action(Button::A, 0),
            light_action(Button::B, 0),
            light_action(Button::X, 0),
            light_action(Button::Y, 0),
        ]);
        actions
    }

    /// The first step of taking a photo. The camera is configured by the
    /// first photo only: once it is ready, `width` and `height` are ignored.
    pub fn photo_buffer(&self, width: u32, height: u32, exposure_time: u64) -> (step: Capture)
        ensures
            step == if self@.camera_ready {
                (Capture::Expose { millis: exposure_time })
            } else {
                (Capture::Activate { width, height })
            },
    {
        if self.camera_configured {
            Capture::Expose { millis: exposure_time }
        } else {
            Capture::Activate { width, height }
        }
    }

    /// Records whether the camera came up after [`Capture::Activate`] and
    /// yields the step that follows. The camera, once ready, stays ready.
    pub fn camera_activated(&mut self, activated: bool, exposure_time: u64) -> (step: Capture)
        ensures
            final(self)@ == old(self)@.activated(activated),
            step == if activated {
                (Capture::Expose { millis: exposure_time })
            } else {
                Capture::Abandon
            },
    {
        if activated {
            self.camera_configured = true;
            Capture::Expose { millis: exposure_time }
        } else {
            Capture::Abandon
        }
    }
}

} // verus!
