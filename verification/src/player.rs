//! The output device as the engine sees it: the states it can report and
//! the parameters it is opened with for a given stream.

use vstd::prelude::*;
use crate::media::MediaSpec;
use crate::media::OutputMode;

verus! {

/// Longest time, in milliseconds, that one wait on the device may take.
/// It bounds how long a command can sit in the channel unseen.
pub const WAIT_MS: u32 = 32;

/// What the device reports about itself when asked.
#[derive(Clone, Copy, PartialEq, Eq, Debug, Structural)]
pub enum DeviceState {
    Open,
    Setup,
    Prepared,
    Running,
    XRun,
    Draining,
    Paused,
    Suspended,
    Disconnected,
}

/// Sample encodings the device is asked for.
#[derive(Clone, Copy, PartialEq, Eq, Debug, Structural)]
pub enum SampleFormat {
    /// Signed 32-bit little-endian PCM.
    S32LE,
    /// DSD bits packed in unsigned 32-bit little-endian words.
    DSDU32LE,
}

/// How samples are handed to the device.
#[derive(Clone, Copy, PartialEq, Eq, Debug, Structural)]
pub enum Access {
    MMapInterleaved,
    MMapNonInterleaved,
    MMapComplex,
    /// Blocking writes of interleaved frames.
    RWInterleaved,
    RWNonInterleaved,
}

/// Which rate the device may settle on when it cannot do the one asked for.
#[derive(Clone, Copy, PartialEq, Eq, Debug, Structural)]
pub enum ValueOr {
    /// The rate asked for, or less.
    Less,
    /// The rate asked for, or the nearest.
    Nearest,
    /// The rate asked for, or greater.
    Greater,
}

/// Hardware parameters for one stream.
#[derive(Clone, Copy, PartialEq, Eq, Debug, Structural)]
pub struct HwConfig {
    pub channels: u32,
    pub rate: u32,
    pub rate_rule: ValueOr,
    pub format: SampleFormat,
    pub access: Access,
}

/// The parameters every stream is played with: its own channel count and
/// rate, or the nearest rate the device can do, written as interleaved
/// frames in the given encoding.
pub open spec fn hw_config(channels: u32, rate: u32, format: SampleFormat) -> HwConfig {
    HwConfig { channels, rate, rate_rule: ValueOr::Nearest, format, access: Access::RWInterleaved }
}

/// The sample encoding that goes with an output mode.
pub open spec fn format_for(mode: OutputMode) -> SampleFormat {
    match mode {
        OutputMode::PCM => SampleFormat::S32LE,
        OutputMode::DSD => SampleFormat::DSDU32LE,
    }
}

/// A device can take samples only when it is prepared or already running;
/// from any other state it has to be prepared first.
pub open spec fn must_prepare(state: DeviceState) -> bool {
    !(state is Running || state is Prepared)
}

/// Playback has to be started unless it is running or deliberately paused.
pub open spec fn must_start(state: DeviceState) -> bool {
    !(state is Running || state is Paused)
}

/// Hardware parameters for interleaved PCM.
pub fn pcm_hw_param(channel: u32, bit_rate: u32) -> (config: HwConfig)
    ensures
        config == hw_config(channel, bit_rate, SampleFormat::S32LE),
{
    HwConfig {
        channels: channel,
        rate: bit_rate,
        rate_rule: ValueOr::Nearest,
        format: SampleFormat::S32LE,
        access: Access::RWInterleaved,
    }
}

/// Hardware parameters for bit-packed DSD.
pub fn dsd_hw_param(channel: u32, bit_rate: u32) -> (config: HwConfig)
    ensures
        config == hw_config(channel, bit_rate, SampleFormat::DSDU32LE),
{
    HwConfig {
        channels: channel,
        rate: bit_rate,
        rate_rule: ValueOr::Nearest,
        format: SampleFormat::DSDU32LE,
        access: Access::RWInterleaved,
    }
}

/// Hardware parameters for a stream: its channel count and rate, in the
/// encoding that matches its mode.
pub fn set_hw_param(spec: MediaSpec) -> (config: HwConfig)
    ensures
        config == hw_config(spec.channel, spec.sample_rate, format_for(spec.mode)),
{
    match spec.mode {
        OutputMode::PCM => pcm_hw_param(spec.channel, spec.sample_rate),
        OutputMode::DSD => dsd_hw_param(spec.channel, spec.sample_rate),
    }
}

/// Whether the device must be prepared before it is written to.
pub fn needs_prepare(state: DeviceState) -> (b: bool)
    ensures
        b == must_prepare(state),
{
    !matches!(state, DeviceState::Running | DeviceState::Prepared)
}

/// Whether playback must be started explicitly.
pub fn needs_start(state: DeviceState) -> (b: bool)
    ensures
        b == must_start(state),
{
    !matches!(state, DeviceState::Running | DeviceState::Paused)
}

/// The unsigned 32-bit word with the same bits as `sample`.
pub open spec fn same_bits(sample: i32) -> int {
    if sample >= 0 {
        sample as int
    } else {
        sample + 0x1_0000_0000
    }
}

/// Reads samples as the unsigned 32-bit words a DSD device expects. Every
/// word keeps the bits of its sample; nothing is converted, added or
/// dropped.
pub fn dsd_words(samples: &[i32]) -> (words: Vec<u32>)
    ensures
        words@.len() == samples@.len(),
        forall|i: int| 0 <= i < samples@.len() ==> words@[i] == same_bits(#[trigger] samples@[i]),
{
    let mut words: Vec<u32> = Vec::with_capacity(samples.len());
    let mut i: usize = 0;
    while i < samples.len()
        invariant
            i <= samples@.len(),
            words@.len() == i,
            forall|j: int| 0 <= j < i ==> words@[j] == same_bits(#[trigger] samples@[j]),
        decreases samples.len() - i,
    {
        let sample: i32 = samples[i];
        let word: u32 = if sample >= 0 {
            sample as u32
        } else {
            (sample as i64 + 0x1_0000_0000) as u32
        };
        words.push(word);
        i = i + 1;
    }
    words
}

} // verus!
