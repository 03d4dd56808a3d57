//! Driver for the 18-channel constant-current LED controller.
//!
//! The driver owns the per-channel gamma table and knows the chip's command
//! set. Each operation yields the frames to write to the chip, in order; the
//! caller writes them to the bus at [`I2C_ADDRESS`]. A frame is written as
//! its command byte followed by its payload.

use vstd::prelude::*;
use crate::gamma::gamma_level;
use crate::gamma::lemma_gamma_level_ends;
use crate::gamma::lemma_gamma_level_monotonic;
use crate::gamma::lemma_gamma_level_rounds;
use crate::gamma::gamma_row;
use crate::gamma::LEVELS;

verus! {

/// Bus address of the chip.
pub const I2C_ADDRESS: u16 = 0x54;

/// Command byte that switches the chip's outputs on or off.
pub const CMD_ENABLE_OUTPUT: u8 = 0x00;

/// Command byte that loads the 18 PWM values.
pub const CMD_SET_PWM_VALUES: u8 = 0x01;

/// Command byte that loads the channel enable mask.
pub const CMD_ENABLE_LEDS: u8 = 0x13;

/// Command byte that latches the loaded values.
pub const CMD_UPDATE: u8 = 0x16;

/// Command byte that returns the chip to its power-on state.
pub const CMD_RESET: u8 = 0x17;

/// Number of LED channels.
pub const CHANNELS: usize = 18;

/// The enable mask with all channels on.
pub const ALL_CHANNELS: u32 = 0x3FFFF;

/// One write to the chip.
#[derive(Copy, Clone, Debug, PartialEq, Eq)]
pub enum Frame {
    /// Switch all outputs on (`true`) or off (`false`).
    EnableOutput(bool),
    /// Load the PWM value of every channel.
    SetPwmValues([u8; 18]),
    /// Load the channel enable mask, six channels to a byte.
    EnableLeds([u8; 3]),
    /// Apply what was loaded since the last latch.
    Update,
    /// Return the chip to its power-on state.
    Reset,
}

impl Frame {
    /// The command byte that opens the frame.
    pub open spec fn spec_command(&self) -> u8 {
        match *self {
            Frame::EnableOutput(_) => CMD_ENABLE_OUTPUT,
            Frame::SetPwmValues(_) => CMD_SET_PWM_VALUES,
            Frame::EnableLeds(_) => CMD_ENABLE_LEDS,
            Frame::Update => CMD_UPDATE,
            Frame::Reset => CMD_RESET,
        }
    }

    /// The bytes that follow the command byte.
    pub open spec fn spec_payload(&self) -> Seq<u8> {
        match *self {
            Frame::EnableOutput(on) => seq![if on { 1u8 } else { 0u8 }],
            Frame::SetPwmValues(values) => values@,
            Frame::EnableLeds(groups) => groups@,
            Frame::Update => seq![0xFFu8],
            Frame::Reset => seq![0xFFu8],
        }
    }

    /// The command byte that opens the frame.
    #[verifier::when_used_as_spec(spec_command)]
    pub fn command(&self) -> (c: u8)
        ensures
            c == self.spec_command(),
    {
        match self {
            Frame::EnableOutput(_) => CMD_ENABLE_OUTPUT,
            Frame::SetPwmValues(_) => CMD_SET_PWM_VALUES,
            Frame::EnableLeds(_) => CMD_ENABLE_LEDS,
            Frame::Update => CMD_UPDATE,
            Frame::Reset => CMD_RESET,
        }
    }

    /// The bytes that follow the command byte.
    pub fn payload(&self) -> (bytes: Vec<u8>)
        ensures
            bytes@ == self.spec_payload(),
    {
        let mut bytes: Vec<u8> = Vec::new();
        match self {
            Frame::EnableOutput(on) => {
                bytes.push(if *on { 1 } else { 0 });
            },
            Frame::SetPwmValues(values) => {
                let mut k: usize = 0;
                while k < 18
                    invariant
                        k <= 18,
                        bytes@ == values@.take(k as int),
                    decreases 18 - k,
                {
                    bytes.push(values[k]);
                    k = k + 1;
                }
            },
            Frame::EnableLeds(groups) => {
                bytes.push(groups[0]);
                bytes.push(groups[1]);
                bytes.push(groups[2]);
            },
            Frame::Update => {
                bytes.push(0xFF);
            },
            Frame::Reset => {
                bytes.push(0xFF);
            },
        }
        bytes
    }
}

/// The six enable bits of group `group`: bit `j` of the result is bit
/// `6 * group + j` of `mask`.
pub open spec fn mask_group(mask: u32, group: u32) -> u8 {
    ((mask >> (6 * group) as u32) & 0x3F) as u8
}

/// The enable mask in the chip's layout: channels 0-5, 6-11 and 12-17.
pub open spec fn packed_mask(mask: u32) -> Seq<u8> {
    seq![mask_group(mask, 0), mask_group(mask, 1), mask_group(mask, 2)]
}

/// Whether channel `channel` is on in `mask`.
pub open spec fn channel_enabled(mask: u32, channel: u32) -> bool {
    (mask >> channel) & 1 == 1
}

/// Packing keeps every channel: channel `6 * group + j` of the mask is bit `j`
/// of its group's byte, and a group's byte holds nothing above bit 5.
pub proof fn lemma_mask_group_bits(mask: u32, group: u32, j: u32)
    requires
        group < 3,
        j < 6,
    ensures
        ((mask_group(mask, group) >> j) & 1 == 1) == channel_enabled(mask, (6 * group + j) as u32),
        mask_group(mask, group) < 64,
{
    let shift = (6 * group) as u32;
    let channel = (6 * group + j) as u32;
    let wide = (mask >> shift) & 0x3F;
    assert(wide < 64 && ((wide >> j) & 1 == 1) == ((mask >> channel) & 1 == 1)) by (bit_vector)
        requires
            wide == (mask >> shift) & 0x3F,
            channel == shift + j,
            shift <= 12,
            j < 6,
    ;
    let narrow = wide as u8;
    assert((narrow >> j) & 1 == (wide >> j) & 1) by (bit_vector)
        requires
            narrow == wide as u8,
            wide < 64,
            j < 6,
    ;
}

/// The gamma table: for each of the 18 channels, the corrected level of
/// each of the 256 raw brightness values. Every channel has the same curve.
pub open spec fn gamma_table() -> Seq<Seq<u8>> {
    Seq::new(CHANNELS as nat, |c: int| Seq::new(LEVELS as nat, |i: int| gamma_level(i as nat) as u8))
}

/// On every channel the table starts at the corrected level of raw
/// brightness 0, which is 1, ends at that of raw brightness 255, which is
/// 250, and never decreases in between.
pub proof fn lemma_gamma_table_rows(channel: int)
    requires
        0 <= channel < CHANNELS,
    ensures
        gamma_table()[channel].len() == LEVELS,
        gamma_table()[channel][0] == gamma_level(0) == 1,
        gamma_table()[channel][255] == gamma_level(255) == 250,
        forall|i: int, j: int|
            0 <= i <= j < LEVELS ==> gamma_table()[channel][i] <= gamma_table()[channel][j],
{
    lemma_gamma_level_ends();
    assert forall|i: int, j: int| 0 <= i <= j < LEVELS implies gamma_table()[channel][i]
        <= gamma_table()[channel][j] by {
        lemma_gamma_level_rounds(i as nat);
        lemma_gamma_level_rounds(j as nat);
        lemma_gamma_level_monotonic(i as nat, j as nat);
    }
}

/// The PWM values for a buffer of raw brightness bytes: each channel's byte
/// looked up in the channel's row of the gamma table.
pub open spec fn corrected(buffer: Seq<u8>) -> Seq<u8> {
    Seq::new(CHANNELS as nat, |c: int| gamma_table()[c][buffer[c] as int])
}

/// Whether `frames` load the gamma-corrected `buffer` into the chip and
/// latch it.
pub open spec fn loads(frames: Seq<Frame>, buffer: Seq<u8>) -> bool {
    &&& frames.len() == 2
    &&& frames[0] matches Frame::SetPwmValues(values) && values@ == corrected(buffer)
    &&& frames[1] == Frame::Update
}

/// Whether `frames` load the enable mask `mask` into the chip and latch it.
pub open spec fn masks(frames: Seq<Frame>, mask: u32) -> bool {
    &&& frames.len() == 2
    &&& frames[0] matches Frame::EnableLeds(groups) && groups@ == packed_mask(mask)
    &&& frames[1] == Frame::Update
}

/// What is written for a buffer depends on the buffer alone: loading the
/// same buffer again writes the same frames, byte for byte.
pub proof fn lemma_output_repeatable(first: Seq<Frame>, second: Seq<Frame>, buffer: Seq<u8>)
    requires
        loads(first, buffer),
        loads(second, buffer),
    ensures
        first == second,
        forall|k: int|
            0 <= k < 2 ==> first[k].spec_command() == second[k].spec_command()
                && first[k].spec_payload() == second[k].spec_payload(),
{
    let a = first[0]->SetPwmValues_0;
    let b = second[0]->SetPwmValues_0;
    assert(a =~= b);
    assert(first =~= second);
}

/// A driver that holds the corrected level of every raw brightness on
/// every channel holds the gamma table.
proof fn lemma_table_of(driver: SN3218)
    requires
        driver.inv(),
    ensures
        driver@ == gamma_table(),
{
    assert forall|c: int| 0 <= c < CHANNELS implies #[trigger] driver@[c] == gamma_table()[c] by {
        assert forall|i: int| 0 <= i < LEVELS implies driver@[c][i] == gamma_table()[c][i] by {
            lemma_gamma_level_rounds(i as nat);
        }
        assert(driver@[c] =~= gamma_table()[c]);
    }
    assert(driver@ =~= gamma_table());
}

/// The LED driver.
pub struct SN3218 {
    channel_gamma_table: Vec<Vec<u8>>,
}

impl View for SN3218 {
    type V = Seq<Seq<u8>>;

    /// The driver's gamma table, by channel and raw brightness.
    closed spec fn view(&self) -> Seq<Seq<u8>> {
        Seq::new(self.channel_gamma_table@.len(), |c: int| self.channel_gamma_table@[c]@)
    }
}

impl SN3218 {
    /// The table has 18 rows of 256 columns, and every row holds the
    /// corrected level of each raw brightness.
    #[verifier::type_invariant]
    closed spec fn inv(self) -> bool {
        &&& self.channel_gamma_table@.len() == CHANNELS
        &&& forall|c: int|
            0 <= c < CHANNELS ==> (#[trigger] self.channel_gamma_table@[c])@.len() == LEVELS
        &&& forall|c: int, i: int|
            0 <= c < CHANNELS && 0 <= i < LEVELS ==> #[trigger] self.channel_gamma_table@[c]@[i]
                == gamma_level(i as nat)
    }

    /// A driver with its gamma table built.
    pub fn new() -> (driver: SN3218)
        ensures
            driver@ == gamma_table(),
    {
        let row = gamma_row();
        let mut table: Vec<Vec<u8>> = Vec::new();
        let mut c: usize = 0;
        while c < CHANNELS
            invariant
                c <= CHANNELS,
                table@.len() == c,
                row@.len() == LEVELS,
                forall|i: int| 0 <= i < LEVELS ==> #[trigger] row@[i] == gamma_level(i as nat),
                forall|d: int| 0 <= d < c ==> (#[trigger] table@[d])@ == row@,
            decreases CHANNELS - c,
        {
            let mut copy: Vec<u8> = Vec::new();
            let mut i: usize = 0;
            while i < LEVELS
                invariant
                    i <= LEVELS,
                    row@.len() == LEVELS,
                    copy@ == row@.take(i as int),
                decreases LEVELS - i,
            {
                copy.push(row[i]);
                i = i + 1;
            }
            assert(row@.take(LEVELS as int) =~= row@);
            table.push(copy);
            c = c + 1;
        }
        let driver = SN3218 { channel_gamma_table: table };
        proof {
            lemma_table_of(driver);
        }
        driver
    }

    /// The corrected level of raw brightness `raw` on channel `channel`;
    /// `None` when there is no such channel.
    pub fn gamma(&self, channel: usize, raw: u8) -> (level: Option<u8>)
        ensures
            self@ == gamma_table(),
            level == if channel < CHANNELS {
                Some(self@[channel as int][raw as int])
            } else {
                None
            },
    {
        proof {
            use_type_invariant(self);
            lemma_table_of(*self);
            lemma_gamma_level_rounds(raw as nat);
        }
        if channel < CHANNELS {
            Some(self.channel_gamma_table[channel][raw as usize])
        } else {
            None
        }
    }

    /// The frame that returns the chip to its power-on state.
    pub fn reset(&self) -> (frame: Frame)
        ensures
            frame == Frame::Reset,
    {
        Frame::Reset
    }

    /// The frame that latches the values loaded so far.
    pub fn update(&self) -> (frame: Frame)
        ensures
            frame == Frame::Update,
    {
        Frame::Update
    }

    /// The frame that switches the outputs on.
    pub fn enable(&self) -> (frame: Frame)
        ensures
            frame == Frame::EnableOutput(true),
    {
        Frame::EnableOutput(true)
    }

    /// The frame that switches the outputs off.
    pub fn disable(&self) -> (frame: Frame)
        ensures
            frame == Frame::EnableOutput(false),
    {
        Frame::EnableOutput(false)
    }

    /// The frames that show `buffer`: the gamma-corrected value of every
    /// channel, then the latch that makes them visible together.
    pub fn output(&self, buffer: &[u8; 18]) -> (frames: Vec<Frame>)
        ensures
            loads(frames@, buffer@),
    {
        proof {
            use_type_invariant(self);
        }
        let mut values: [u8; 18] = [0u8; 18];
        let mut c: usize = 0;
        while c < CHANNELS
            invariant
                c <= CHANNELS,
                self.inv(),
                forall|d: int|
                    0 <= d < c ==> #[trigger] values@[d] == gamma_level(buffer@[d] as nat) as u8,
            decreases CHANNELS - c,
        {
            let level: u8 = self.channel_gamma_table[c][buffer[c] as usize];
            values[c] = level;
            c = c + 1;
        }
        assert(values@ =~= corrected(buffer@));
        let mut frames: Vec<Frame> = Vec::new();
        frames.push(Frame::SetPwmValues(values));
        frames.push(Frame::Update);
        frames
    }

    /// The frames that enable the channels set in `mask` (bit `c` for
    /// channel `c`; bits from 18 up are ignored): the packed mask, then the
    /// latch that applies it.
    pub fn enable_leds(&self, mask: u32) -> (frames: Vec<Frame>)
        ensures
            masks(frames@, mask),
    {
        assert(mask & 0x3F < 64 && (mask >> 6) & 0x3F < 64 && (mask >> 12) & 0x3F < 64)
            by (bit_vector);
        assert(mask >> 0 == mask) by (bit_vector);
        let groups: [u8; 3] = [
            (mask & 0x3F) as u8,
            ((mask >> 6) & 0x3F) as u8,
            ((mask >> 12) & 0x3F) as u8,
        ];
        assert(groups@ =~= packed_mask(mask));
        let mut frames: Vec<Frame> = Vec::new();
        frames.push(Frame::EnableLeds(groups));
        frames.push(Frame::Update);
        frames
    }
}

} // verus!
