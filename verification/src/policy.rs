//! Hardware feasibility policy: which encoded formats the target DAC can
//! actually play. The supported sample rates, bit depths and channel counts
//! are injected as data, not hard-coded into the parser, because feasibility
//! depends on the output hardware and not on the file format.

use vstd::prelude::*;
use crate::header::WavHeader;

verus! {

/// The format parameters the output hardware accepts.
pub struct HardwarePolicy {
    pub supported_sample_rates_hz: Vec<u32>,
    pub supported_bits_per_sample: Vec<u16>,
    pub supported_channel_counts: Vec<u16>,
}

/// Why a well-formed header is infeasible on this hardware.
#[derive(Clone, Copy, PartialEq, Eq, Structural, Debug)]
pub enum FormatFault {
    BitsPerSample { bits: u16 },
    ChannelCount { channels: u16 },
    SampleRate { rate_hz: u32 },
}

/// Mathematical definition of the feasibility check: bit depth, then channel
/// count, then sample rate, each against the policy's supported set.
pub open spec fn spec_feasible(h: WavHeader, p: HardwarePolicy) -> Result<(), FormatFault> {
    if !p.supported_bits_per_sample@.contains(h.bits_per_sample) {
        Err(FormatFault::BitsPerSample { bits: h.bits_per_sample })
    } else if !p.supported_channel_counts@.contains(h.channel_count) {
        Err(FormatFault::ChannelCount { channels: h.channel_count })
    } else if !p.supported_sample_rates_hz@.contains(h.sample_rate_hz) {
        Err(FormatFault::SampleRate { rate_hz: h.sample_rate_hz })
    } else {
        Ok(())
    }
}

fn contains_u16(v: &Vec<u16>, x: u16) -> (b: bool)
    ensures
        b == v@.contains(x),
{
    let mut i: usize = 0;
    while i < v.len()
        invariant
            0 <= i <= v@.len(),
            forall|k: int| 0 <= k < i ==> v@[k] != x,
        decreases v@.len() - i,
    {
        if v[i] == x {
            assert(v@.contains(x));
            return true;
        }
        i += 1;
    }
    false
}

fn contains_u32(v: &Vec<u32>, x: u32) -> (b: bool)
    ensures
        b == v@.contains(x),
{
    let mut i: usize = 0;
    while i < v.len()
        invariant
            0 <= i <= v@.len(),
            forall|k: int| 0 <= k < i ==> v@[k] != x,
        decreases v@.len() - i,
    {
        if v[i] == x {
            assert(v@.contains(x));
            return true;
        }
        i += 1;
    }
    false
}

/// Decide whether a parsed header is playable under the given policy.
///
/// Pure policy check, performed before any sink configuration: frequencies
/// and formats outside the supported sets are rejected, not merely warned
/// about.
pub fn check_feasibility(h: &WavHeader, p: &HardwarePolicy) -> (r: Result<(), FormatFault>)
    ensures
        r == spec_feasible(*h, *p),
{
    if !contains_u16(&p.supported_bits_per_sample, h.bits_per_sample) {
        Err(FormatFault::BitsPerSample { bits: h.bits_per_sample })
    } else if !contains_u16(&p.supported_channel_counts, h.channel_count) {
        Err(FormatFault::ChannelCount { channels: h.channel_count })
    } else if !contains_u32(&p.supported_sample_rates_hz, h.sample_rate_hz) {
        Err(FormatFault::SampleRate { rate_hz: h.sample_rate_hz })
    } else {
        Ok(())
    }
}

/// The policy of the MAX98357A DAC driven over I2S: 16-bit samples, mono or
/// stereo, and only the LRCLK frequencies its data sheet supports.
pub fn max98357a_policy() -> (p: HardwarePolicy)
    ensures
        p.supported_sample_rates_hz@ =~= seq![
            8000u32,
            16000u32,
            32000u32,
            44100u32,
            48000u32,
            88200u32,
            96000u32,
        ],
        p.supported_bits_per_sample@ =~= seq![16u16],
        p.supported_channel_counts@ =~= seq![1u16, 2u16],
{
    let mut rates: Vec<u32> = Vec::new();
    rates.push(8000);
    rates.push(16000);
    rates.push(32000);
    rates.push(44100);
    rates.push(48000);
    rates.push(88200);
    rates.push(96000);
    let mut bits: Vec<u16> = Vec::new();
    bits.push(16);
    let mut channels: Vec<u16> = Vec::new();
    channels.push(1);
    channels.push(2);
    HardwarePolicy {
        supported_sample_rates_hz: rates,
        supported_bits_per_sample: bits,
        supported_channel_counts: channels,
    }
}

} // verus!
