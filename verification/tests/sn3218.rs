use swiftbot::gamma::gamma_row;
use swiftbot::sn3218::Frame;
use swiftbot::sn3218::ALL_CHANNELS;
use swiftbot::sn3218::CHANNELS;
use swiftbot::sn3218::I2C_ADDRESS;
use swiftbot::sn3218::SN3218;

fn rounded_power(i: usize) -> u8 {
    255f64.powf((i as f64 - 1.0) / 255.0).round() as u8
}

#[test]
fn gamma_row_has_one_level_per_raw_value() {
    assert_eq!(gamma_row().len(), 256);
}

#[test]
fn gamma_row_matches_the_rounded_power() {
    let row = gamma_row();
    for i in 0..256 {
        assert_eq!(row[i], rounded_power(i), "raw brightness {}", i);
    }
}

#[test]
fn gamma_row_ends() {
    let row = gamma_row();
    assert_eq!(row[0], 1);
    assert_eq!(row[1], 1);
    assert_eq!(row[128], 16);
    assert_eq!(row[254], 244);
    assert_eq!(row[255], 250);
}

#[test]
fn gamma_row_never_decreases() {
    let row = gamma_row();
    for i in 1..256 {
        assert!(row[i - 1] <= row[i], "raw brightness {}", i);
    }
}

#[test]
fn gamma_table_is_the_same_for_every_channel() {
    let driver = SN3218::new();
    let row = gamma_row();
    for channel in 0..CHANNELS {
        for raw in 0..=255u8 {
            assert_eq!(driver.gamma(channel, raw), Some(row[raw as usize]));
        }
        assert_eq!(driver.gamma(channel, 0), Some(rounded_power(0)));
        assert_eq!(driver.gamma(channel, 255), Some(250));
    }
}

#[test]
fn gamma_of_a_missing_channel_is_none() {
    let driver = SN3218::new();
    assert_eq!(driver.gamma(18, 0), None);
    assert_eq!(driver.gamma(usize::MAX, 255), None);
}

#[test]
fn bus_address() {
    assert_eq!(I2C_ADDRESS, 0x54);
}

#[test]
fn reset_frame() {
    let frame = SN3218::new().reset();
    assert_eq!(frame, Frame::Reset);
    assert_eq!(frame.command(), 0x17);
    assert_eq!(frame.payload(), vec![0xFF]);
}

#[test]
fn update_frame() {
    let frame = SN3218::new().update();
    assert_eq!(frame, Frame::Update);
    assert_eq!(frame.command(), 0x16);
    assert_eq!(frame.payload(), vec![0xFF]);
}

#[test]
fn enable_frame() {
    let frame = SN3218::new().enable();
    assert_eq!(frame, Frame::EnableOutput(true));
    assert_eq!(frame.command(), 0x00);
    assert_eq!(frame.payload(), vec![0x01]);
}

#[test]
fn disable_frame() {
    let frame = SN3218::new().disable();
    assert_eq!(frame, Frame::EnableOutput(false));
    assert_eq!(frame.command(), 0x00);
    assert_eq!(frame.payload(), vec![0x00]);
}

#[test]
fn enable_leds_packs_the_full_mask() {
    let frames = SN3218::new().enable_leds(0b111111111111111111);
    assert_eq!(frames, vec![Frame::EnableLeds([0x3F, 0x3F, 0x3F]), Frame::Update]);
    assert_eq!(frames[0].command(), 0x13);
    assert_eq!(frames[0].payload(), vec![0b111111, 0b111111, 0b111111]);
    assert_eq!(frames[1].command(), 0x16);
    assert_eq!(frames[1].payload(), vec![0xFF]);
    assert_eq!(ALL_CHANNELS, 0b111111111111111111);
}

#[test]
fn enable_leds_packs_six_channels_to_a_byte() {
    let driver = SN3218::new();
    assert_eq!(driver.enable_leds(0)[0].payload(), vec![0, 0, 0]);
    assert_eq!(driver.enable_leds(1)[0].payload(), vec![1, 0, 0]);
    assert_eq!(driver.enable_leds(1 << 5)[0].payload(), vec![0x20, 0, 0]);
    assert_eq!(driver.enable_leds(1 << 6)[0].payload(), vec![0, 1, 0]);
    assert_eq!(driver.enable_leds(1 << 12)[0].payload(), vec![0, 0, 1]);
    assert_eq!(driver.enable_leds(1 << 17)[0].payload(), vec![0, 0, 0x20]);
    assert_eq!(
        driver.enable_leds(0b101010_010101_110011)[0].payload(),
        vec![0b110011, 0b010101, 0b101010]
    );
}

#[test]
fn enable_leds_keeps_every_channel() {
    let driver = SN3218::new();
    for channel in 0..18u32 {
        let payload = driver.enable_leds(1 << channel)[0].payload();
        for group in 0..3u32 {
            for bit in 0..6u32 {
                let set = (payload[group as usize] >> bit) & 1 == 1;
                assert_eq!(set, 6 * group + bit == channel);
            }
        }
    }
}

#[test]
fn enable_leds_ignores_bits_above_the_channels() {
    let driver = SN3218::new();
    assert_eq!(driver.enable_leds(u32::MAX)[0].payload(), vec![0x3F, 0x3F, 0x3F]);
    assert_eq!(driver.enable_leds(1 << 18)[0].payload(), vec![0, 0, 0]);
}

#[test]
fn output_corrects_every_channel() {
    let driver = SN3218::new();
    let mut buffer = [0u8; 18];
    for channel in 0..18 {
        buffer[channel] = (channel * 15) as u8;
    }
    let frames = driver.output(&buffer);
    assert_eq!(frames.len(), 2);
    assert_eq!(frames[0].command(), 0x01);
    let payload = frames[0].payload();
    assert_eq!(payload.len(), 18);
    for channel in 0..18 {
        assert_eq!(payload[channel], rounded_power(channel * 15));
    }
    assert_eq!(frames[1], Frame::Update);
}

#[test]
fn output_of_extreme_buffers() {
    let driver = SN3218::new();
    assert_eq!(
        driver.output(&[0; 18]),
        vec![Frame::SetPwmValues([1; 18]), Frame::Update]
    );
    assert_eq!(
        driver.output(&[255; 18]),
        vec![Frame::SetPwmValues([250; 18]), Frame::Update]
    );
}

#[test]
fn output_twice_writes_the_same_bytes() {
    let driver = SN3218::new();
    let buffer = [3, 1, 4, 1, 5, 9, 2, 6, 5, 3, 5, 8, 9, 7, 9, 3, 2, 38];
    let first = driver.output(&buffer);
    let second = driver.output(&buffer);
    assert_eq!(first, second);
    for k in 0..2 {
        assert_eq!(first[k].command(), second[k].command());
        assert_eq!(first[k].payload(), second[k].payload());
    }
    let other = SN3218::new().output(&buffer);
    assert_eq!(first, other);
}
