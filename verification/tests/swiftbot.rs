use swiftbot::gpio::Action;
use swiftbot::gpio::Direction;
use swiftbot::gpio::Level;
use swiftbot::gpio::Pin;
use swiftbot::gpio::FULL_DUTY;
use swiftbot::ranging::trigger_pulse;
use swiftbot::ranging::Event;
use swiftbot::ranging::Phase;
use swiftbot::ranging::Ranging;
use swiftbot::ranging::Request;
use swiftbot::sn3218::Frame;
use swiftbot::sn3218::SN3218;
use swiftbot::swiftbot::Button;
use swiftbot::swiftbot::ButtonLevels;
use swiftbot::swiftbot::Capture;
use swiftbot::swiftbot::Motor;
use swiftbot::swiftbot::SwiftBot;
use swiftbot::swiftbot::FULL_SPEED;

fn bot() -> SwiftBot {
    SwiftBot::new().0
}

fn pwm(pin: Pin, frequency_hz: u32, duty_ppm: u32) -> Action {
    Action::SetPwm { pin, frequency_hz, duty_ppm }
}

fn duty(action: &Action) -> f64 {
    match action {
        Action::SetPwm { duty_ppm, .. } => *duty_ppm as f64 / FULL_DUTY as f64,
        _ => panic!("not a PWM action"),
    }
}

fn speed(fraction: f64) -> i32 {
    (fraction * FULL_SPEED as f64).round() as i32
}

fn measured(start: u64, end: u64) -> Ranging {
    Ranging { phase: Phase::Done, pulse_start: start, pulse_end: end }
}

#[test]
fn pins_are_bound_to_their_lines() {
    let lines: Vec<u8> = Pin::all().iter().map(|pin| pin.number()).collect();
    assert_eq!(lines, vec![5, 6, 16, 24, 23, 22, 17, 27, 26, 8, 11, 10, 9, 13, 25]);
}

#[test]
fn pins_have_distinct_lines() {
    let pins = Pin::all();
    assert_eq!(pins.len(), 15);
    for a in 0..pins.len() {
        for b in 0..a {
            assert_ne!(pins[a], pins[b]);
            assert_ne!(pins[a].number(), pins[b].number());
        }
    }
}

#[test]
fn buttons_and_echo_are_inputs() {
    for pin in Pin::all() {
        let input = matches!(
            pin,
            Pin::ButtonA | Pin::ButtonB | Pin::ButtonX | Pin::ButtonY | Pin::UltraEcho
        );
        let expected = if input { Direction::Input } else { Direction::Output };
        assert_eq!(pin.direction(), expected);
    }
}

#[test]
fn button_lines() {
    assert_eq!(Button::A.pin(), Pin::ButtonA);
    assert_eq!(Button::B.pin(), Pin::ButtonB);
    assert_eq!(Button::X.pin(), Pin::ButtonX);
    assert_eq!(Button::Y.pin(), Pin::ButtonY);
    assert_eq!(Button::A.led(), Pin::ButtonALed);
    assert_eq!(Button::B.led(), Pin::ButtonBLed);
    assert_eq!(Button::X.led(), Pin::ButtonXLed);
    assert_eq!(Button::Y.led(), Pin::ButtonYLed);
}

#[test]
fn new_robot_is_dark_and_unconfigured() {
    let (bot, _) = SwiftBot::new();
    assert_eq!(bot.buffer(), [0u8; 18]);
    assert!(!bot.camera_configured());
}

#[test]
fn new_robot_initialises_the_led_driver() {
    let (_, frames) = SwiftBot::new();
    assert_eq!(
        frames,
        vec![
            Frame::Reset,
            Frame::SetPwmValues([1; 18]),
            Frame::Update,
            Frame::EnableLeds([0x3F, 0x3F, 0x3F]),
            Frame::Update,
            Frame::EnableOutput(false),
        ]
    );
}

#[test]
fn a_button_is_pressed_when_its_line_is_low() {
    let bot = bot();
    let levels = ButtonLevels { a: Level::Low, b: Level::High, x: Level::High, y: Level::Low };
    assert!(bot.is_pressed(Button::A, &levels));
    assert!(!bot.is_pressed(Button::B, &levels));
    assert!(!bot.is_pressed(Button::X, &levels));
    assert!(bot.is_pressed(Button::Y, &levels));
    let levels = ButtonLevels { a: Level::High, b: Level::Low, x: Level::Low, y: Level::High };
    assert!(!bot.is_pressed(Button::A, &levels));
    assert!(bot.is_pressed(Button::B, &levels));
    assert!(bot.is_pressed(Button::X, &levels));
    assert!(!bot.is_pressed(Button::Y, &levels));
}

#[test]
fn motor_speed_mapping() {
    let bot = bot();
    let actions = bot.set_motor_speed(Motor::Left, speed(1.0));
    assert_eq!(actions[0], Action::SetHigh(Pin::MotorEnable));
    assert_eq!((duty(&actions[1]), duty(&actions[2])), (1.0, 0.0));
    let actions = bot.set_motor_speed(Motor::Left, speed(-1.0));
    assert_eq!(actions[0], Action::SetHigh(Pin::MotorEnable));
    assert_eq!((duty(&actions[1]), duty(&actions[2])), (0.0, 1.0));
    let actions = bot.set_motor_speed(Motor::Left, speed(0.0));
    assert_eq!(actions[0], Action::SetHigh(Pin::MotorEnable));
    assert_eq!((duty(&actions[1]), duty(&actions[2])), (1.0, 1.0));
}

#[test]
fn left_motor_lines_are_crossed() {
    let bot = bot();
    assert_eq!(
        bot.set_motor_speed(Motor::Left, 250_000),
        vec![
            Action::SetHigh(Pin::MotorEnable),
            pwm(Pin::MotorLeftN, 100, 1_000_000),
            pwm(Pin::MotorLeftP, 100, 750_000),
        ]
    );
    assert_eq!(
        bot.set_motor_speed(Motor::Right, 250_000),
        vec![
            Action::SetHigh(Pin::MotorEnable),
            pwm(Pin::MotorRightP, 100, 1_000_000),
            pwm(Pin::MotorRightN, 100, 750_000),
        ]
    );
    assert_eq!(Motor::Left.pins(), (Pin::MotorLeftN, Pin::MotorLeftP));
    assert_eq!(Motor::Right.pins(), (Pin::MotorRightP, Pin::MotorRightN));
}

#[test]
fn reverse_speed_releases_the_first_line() {
    let bot = bot();
    assert_eq!(
        bot.set_motor_speed(Motor::Right, -400_000),
        vec![
            Action::SetHigh(Pin::MotorEnable),
            pwm(Pin::MotorRightP, 100, 600_000),
            pwm(Pin::MotorRightN, 100, 1_000_000),
        ]
    );
    assert_eq!(
        bot.set_motor_speed(Motor::Left, -1),
        vec![
            Action::SetHigh(Pin::MotorEnable),
            pwm(Pin::MotorLeftN, 100, 999_999),
            pwm(Pin::MotorLeftP, 100, 1_000_000),
        ]
    );
}

#[test]
fn speed_beyond_full_scale_counts_as_full_scale() {
    let bot = bot();
    assert_eq!(
        bot.set_motor_speed(Motor::Right, 1_000_001),
        bot.set_motor_speed(Motor::Right, 1_000_000)
    );
    assert_eq!(
        bot.set_motor_speed(Motor::Right, i32::MAX),
        bot.set_motor_speed(Motor::Right, 1_000_000)
    );
    assert_eq!(
        bot.set_motor_speed(Motor::Left, i32::MIN),
        bot.set_motor_speed(Motor::Left, -1_000_000)
    );
}

#[test]
fn forward_backward_stop() {
    let bot = bot();
    let both = |speed: i32| {
        let mut actions = bot.set_motor_speed(Motor::Left, speed);
        actions.extend(bot.set_motor_speed(Motor::Right, speed));
        actions
    };
    assert_eq!(bot.forward(), both(1_000_000));
    assert_eq!(bot.backward(), both(-1_000_000));
    assert_eq!(bot.stop(), both(0));
    assert_eq!(
        bot.forward(),
        vec![
            Action::SetHigh(Pin::MotorEnable),
            pwm(Pin::MotorLeftN, 100, 1_000_000),
            pwm(Pin::MotorLeftP, 100, 0),
            Action::SetHigh(Pin::MotorEnable),
            pwm(Pin::MotorRightP, 100, 1_000_000),
            pwm(Pin::MotorRightN, 100, 0),
        ]
    );
    assert_eq!(
        bot.backward(),
        vec![
            Action::SetHigh(Pin::MotorEnable),
            pwm(Pin::MotorLeftN, 100, 0),
            pwm(Pin::MotorLeftP, 100, 1_000_000),
            Action::SetHigh(Pin::MotorEnable),
            pwm(Pin::MotorRightP, 100, 0),
            pwm(Pin::MotorRightN, 100, 1_000_000),
        ]
    );
    assert_eq!(
        bot.stop(),
        vec![
            Action::SetHigh(Pin::MotorEnable),
            pwm(Pin::MotorLeftN, 100, 1_000_000),
            pwm(Pin::MotorLeftP, 100, 1_000_000),
            Action::SetHigh(Pin::MotorEnable),
            pwm(Pin::MotorRightP, 100, 1_000_000),
            pwm(Pin::MotorRightN, 100, 1_000_000),
        ]
    );
}

#[test]
fn underlight_fill() {
    let (mut bot, _) = SwiftBot::new();
    let frames = bot.set_underlight(10, 20, 30);
    assert_eq!(
        bot.buffer(),
        [10, 20, 30, 10, 20, 30, 10, 20, 30, 10, 20, 30, 10, 20, 30, 10, 20, 30]
    );
    let sent = SN3218::new().output(&bot.buffer());
    assert_eq!(frames, vec![sent[0], sent[1], Frame::EnableOutput(true)]);
    // raw 10, 20 and 30 are corrected to 1, 2 and 2
    assert_eq!(
        frames[0].payload(),
        vec![1, 2, 2, 1, 2, 2, 1, 2, 2, 1, 2, 2, 1, 2, 2, 1, 2, 2]
    );
    assert_eq!(frames[0].command(), 0x01);
    assert_eq!(frames[1], Frame::Update);
}

#[test]
fn show_underlight_sends_the_buffer_unchanged() {
    let (mut bot, _) = SwiftBot::new();
    bot.set_underlight(200, 0, 255);
    let before = bot.buffer();
    let frames = bot.show_underlight();
    assert_eq!(bot.buffer(), before);
    assert_eq!(
        frames,
        vec![
            Frame::SetPwmValues([
                76, 1, 250, 76, 1, 250, 76, 1, 250, 76, 1, 250, 76, 1, 250, 76, 1, 250
            ]),
            Frame::Update,
            Frame::EnableOutput(true),
        ]
    );
}

#[test]
fn clear_underlight_twice() {
    let (mut bot, _) = SwiftBot::new();
    bot.set_underlight(10, 20, 30);
    let first = bot.clear_underlight();
    assert_eq!(bot.buffer(), [0u8; 18]);
    assert_eq!(first, Frame::EnableOutput(false));
    let second = bot.clear_underlight();
    assert_eq!(bot.buffer(), [0u8; 18]);
    assert_eq!(second, Frame::EnableOutput(false));
    assert_eq!(second.command(), 0x00);
    assert_eq!(second.payload(), vec![0x00]);
}

#[test]
fn clear_underlight_leaves_the_camera_alone() {
    let (mut bot, _) = SwiftBot::new();
    bot.camera_activated(true, 0);
    bot.clear_underlight();
    assert!(bot.camera_configured());
}

#[test]
fn button_light() {
    let bot = bot();
    assert_eq!(bot.set_button_light(Button::A, 500_000), pwm(Pin::ButtonALed, 2000, 500_000));
    assert_eq!(bot.set_button_light(Button::B, 0), pwm(Pin::ButtonBLed, 2000, 0));
    assert_eq!(bot.set_button_light(Button::X, 1_000_000), pwm(Pin::ButtonXLed, 2000, 1_000_000));
    assert_eq!(bot.set_button_light(Button::Y, 1), pwm(Pin::ButtonYLed, 2000, 1));
}

#[test]
fn button_light_beyond_full_scale_counts_as_full_scale() {
    let bot = bot();
    assert_eq!(bot.set_button_light(Button::A, 1_000_001), pwm(Pin::ButtonALed, 2000, 1_000_000));
    assert_eq!(bot.set_button_light(Button::Y, u32::MAX), pwm(Pin::ButtonYLed, 2000, 1_000_000));
}

#[test]
fn clear_button_lights_switches_all_four_off() {
    assert_eq!(
        bot().clear_button_lights(),
        vec![
            pwm(Pin::ButtonALed, 2000, 0),
            pwm(Pin::ButtonBLed, 2000, 0),
            pwm(Pin::ButtonXLed, 2000, 0),
            pwm(Pin::ButtonYLed, 2000, 0),
        ]
    );
}

#[test]
fn distance_conversion() {
    let bot = bot();
    let thousandths = bot.distance(&measured(0, 1_000_000)).unwrap();
    assert_eq!(thousandths, 17_000);
    assert_eq!(thousandths as f32 / 1000.0, 17.0);
    assert_eq!(thousandths as f32 / 1000.0, 1000.0 * 0.034 / 2.0);
}

#[test]
fn distance_counts_whole_microseconds() {
    let bot = bot();
    assert_eq!(bot.distance(&measured(500, 500)), Some(0));
    assert_eq!(bot.distance(&measured(0, 999)), Some(0));
    assert_eq!(bot.distance(&measured(0, 1_000)), Some(17));
    assert_eq!(bot.distance(&measured(7, 3_006)), Some(34));
    assert_eq!(bot.distance(&measured(7, 3_007)), Some(51));
    assert_eq!(bot.distance(&measured(0, u64::MAX)), Some(18_446_744_073_709_551 * 17));
}

#[test]
fn distance_of_an_echo_that_ended_before_it_began_is_zero() {
    assert_eq!(bot().distance(&measured(2_000_000, 1_000_000)), Some(0));
}

#[test]
fn distance_is_unknown_until_the_echo_has_ended() {
    let bot = bot();
    for phase in [Phase::Idle, Phase::Triggered, Phase::AwaitEchoStart, Phase::AwaitEchoEnd] {
        let ranging = Ranging { phase, pulse_start: 0, pulse_end: 1_000_000 };
        assert_eq!(bot.distance(&ranging), None);
        assert_eq!(ranging.echo_micros(), None);
    }
}

#[test]
fn trigger_pulse_is_ten_microseconds_high() {
    assert_eq!(
        trigger_pulse(),
        vec![
            Action::SetHigh(Pin::UltraTrig),
            Action::DelayMicros(10),
            Action::SetLow(Pin::UltraTrig),
        ]
    );
}

#[test]
fn ranging_walks_through_its_phases() {
    let bot = bot();
    let mut ranging = Ranging::new();
    assert_eq!(ranging.phase, Phase::Idle);
    assert_eq!(ranging.request(), Request::Rest);
    assert_eq!(ranging.step(Event::Start), Request::Pulse);
    assert_eq!(ranging.phase, Phase::Triggered);
    assert_eq!(ranging.step(Event::Armed { now: 50 }), Request::Sample);
    assert_eq!(ranging, Ranging { phase: Phase::AwaitEchoStart, pulse_start: 50, pulse_end: 50 });
    assert_eq!(ranging.step(Event::Echo { level: Level::Low, now: 80 }), Request::Sample);
    assert_eq!(ranging.step(Event::Echo { level: Level::Low, now: 100 }), Request::Sample);
    assert_eq!(ranging, Ranging { phase: Phase::AwaitEchoStart, pulse_start: 100, pulse_end: 50 });
    assert_eq!(ranging.step(Event::Echo { level: Level::High, now: 130 }), Request::Sample);
    assert_eq!(ranging, Ranging { phase: Phase::AwaitEchoEnd, pulse_start: 100, pulse_end: 50 });
    assert_eq!(ranging.echo_micros(), None);
    assert_eq!(ranging.step(Event::Echo { level: Level::High, now: 600_000 }), Request::Sample);
    assert_eq!(ranging.step(Event::Echo { level: Level::High, now: 1_000_100 }), Request::Sample);
    assert_eq!(ranging.step(Event::Echo { level: Level::Low, now: 1_000_400 }), Request::Finished);
    assert_eq!(ranging, Ranging { phase: Phase::Done, pulse_start: 100, pulse_end: 1_000_100 });
    assert_eq!(ranging.echo_micros(), Some(1000));
    assert_eq!(bot.distance(&ranging), Some(17_000));
}

#[test]
fn ranging_ignores_events_it_does_not_wait_for() {
    let mut ranging = Ranging::new();
    assert_eq!(ranging.step(Event::Echo { level: Level::High, now: 1 }), Request::Rest);
    assert_eq!(ranging.step(Event::Armed { now: 1 }), Request::Rest);
    assert_eq!(ranging, Ranging::new());
    ranging.step(Event::Start);
    assert_eq!(ranging.step(Event::Start), Request::Pulse);
    assert_eq!(ranging.step(Event::Echo { level: Level::Low, now: 1 }), Request::Pulse);
    ranging.step(Event::Armed { now: 10 });
    assert_eq!(ranging.step(Event::Start), Request::Sample);
    assert_eq!(ranging.step(Event::Armed { now: 20 }), Request::Sample);
    assert_eq!(ranging, Ranging { phase: Phase::AwaitEchoStart, pulse_start: 10, pulse_end: 10 });
    ranging.step(Event::Echo { level: Level::High, now: 30 });
    ranging.step(Event::Echo { level: Level::Low, now: 40 });
    let done = ranging;
    assert_eq!(ranging.step(Event::Start), Request::Finished);
    assert_eq!(ranging.step(Event::Echo { level: Level::High, now: 50 }), Request::Finished);
    assert_eq!(ranging, done);
}

#[test]
fn ranging_without_any_high_reading_measures_nothing() {
    let mut ranging = Ranging::new();
    ranging.step(Event::Start);
    ranging.step(Event::Armed { now: 10 });
    ranging.step(Event::Echo { level: Level::Low, now: 500_000 });
    ranging.step(Event::Echo { level: Level::High, now: 600_000 });
    assert_eq!(ranging.step(Event::Echo { level: Level::Low, now: 700_000 }), Request::Finished);
    assert_eq!(ranging, Ranging { phase: Phase::Done, pulse_start: 500_000, pulse_end: 10 });
    assert_eq!(ranging.echo_micros(), Some(0));
}

#[test]
fn first_photo_configures_the_camera() {
    let (mut bot, _) = SwiftBot::new();
    assert_eq!(bot.photo_buffer(640, 480, 250), Capture::Activate { width: 640, height: 480 });
    assert_eq!(bot.camera_activated(true, 250), Capture::Expose { millis: 250 });
    assert!(bot.camera_configured());
}

#[test]
fn later_photos_keep_the_first_configuration() {
    let (mut bot, _) = SwiftBot::new();
    bot.photo_buffer(640, 480, 250);
    bot.camera_activated(true, 250);
    assert_eq!(bot.photo_buffer(1920, 1080, 40), Capture::Expose { millis: 40 });
    assert_eq!(bot.photo_buffer(1, 1, 0), Capture::Expose { millis: 0 });
    assert!(bot.camera_configured());
}

#[test]
fn failed_activation_abandons_the_photo() {
    let (mut bot, _) = SwiftBot::new();
    assert_eq!(bot.photo_buffer(640, 480, 250), Capture::Activate { width: 640, height: 480 });
    assert_eq!(bot.camera_activated(false, 250), Capture::Abandon);
    assert!(!bot.camera_configured());
    assert_eq!(bot.photo_buffer(320, 240, 10), Capture::Activate { width: 320, height: 240 });
}

#[test]
fn camera_stays_ready() {
    let (mut bot, _) = SwiftBot::new();
    bot.camera_activated(true, 1);
    assert_eq!(bot.camera_activated(false, 1), Capture::Abandon);
    assert!(bot.camera_configured());
}

#[test]
fn camera_state_does_not_touch_the_underlights() {
    let (mut bot, _) = SwiftBot::new();
    bot.set_underlight(1, 2, 3);
    let before = bot.buffer();
    bot.camera_activated(true, 1);
    assert_eq!(bot.buffer(), before);
}
