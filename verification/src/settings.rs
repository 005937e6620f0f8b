//! Stream configuration: the supported sample rates, the fixed channel
//! count and block size, and the buffer sizes that follow from the target
//! latency.

use crate::ring_buffer::MAX_CAPACITY;
use vstd::prelude::*;

verus! {

/// Sample rate of a freshly constructed pipeline, in Hz.
pub const DEFAULT_SAMPLE_RATE: u32 = 44100;

/// Channel count of both directions (stereo).
pub const CHANNELS: u16 = 2;

/// Samples per channel that the host is asked to deliver per callback.
pub const BLOCK_SIZE: u32 = 512;

/// Target latency between capture and render, in milliseconds.
pub const LATENCY_MS: u32 = 500;

/// Number of supported sample rates.
pub const RATE_COUNT: usize = 13;

/// The supported sample rates in Hz, ascending.
pub open spec fn supported_rates() -> Seq<u32> {
    seq![
        5512u32,
        8000u32,
        11025u32,
        16000u32,
        22050u32,
        32000u32,
        44100u32,
        48000u32,
        64000u32,
        88200u32,
        96000u32,
        176400u32,
        192000u32,
    ]
}

/// The supported sample rates in Hz, ascending.
pub fn sample_rates() -> (rates: [u32; 13])
    ensures
        rates@ == supported_rates(),
{
    let rates: [u32; 13] = [
        5512,
        8000,
        11025,
        16000,
        22050,
        32000,
        44100,
        48000,
        64000,
        88200,
        96000,
        176400,
        192000,
    ];
    assert(rates@ =~= supported_rates());
    rates
}

/// Whether `rate` is one of the supported sample rates.
pub fn is_supported_rate(rate: u32) -> (supported: bool)
    ensures
        supported == supported_rates().contains(rate),
{
    let rates = sample_rates();
    let mut i: usize = 0;
    while i < 13
        invariant
            i <= 13,
            rates@ == supported_rates(),
            forall|j: int| 0 <= j < i ==> supported_rates()[j] != rate,
        decreases 13 - i,
    {
        if rates[i] == rate {
            return true;
        }
        i += 1;
    }
    false
}

/// What a stream is built with. The capture and the render stream of one
/// pipeline are always built from equal settings.
#[derive(Clone, Copy, Debug, PartialEq, Eq, Structural)]
pub struct StreamSettings {
    /// Interleaved channels per frame.
    pub channels: u16,
    /// Frames per second.
    pub sample_rate: u32,
    /// Frames per callback; `None` leaves the choice to the host.
    pub block_size: Option<u32>,
}

/// The frames that span `latency_ms` milliseconds at `sample_rate`:
/// `latency_ms / 1000 * sample_rate`, rounded to the nearest integer, a
/// half rounded up.
pub open spec fn spec_latency_frames(latency_ms: nat, sample_rate: nat) -> nat {
    (latency_ms * sample_rate + 500) / 1000
}

/// The samples that span the latency: one per channel and frame.
pub open spec fn spec_latency_samples(latency_ms: nat, sample_rate: nat, channels: nat) -> nat {
    channels * spec_latency_frames(latency_ms, sample_rate)
}

/// The capacity of the queue: twice the latency samples, so that the
/// queue has as much headroom again as the latency needs.
pub open spec fn spec_buffer_capacity(latency_ms: nat, sample_rate: nat, channels: nat) -> nat {
    2 * spec_latency_samples(latency_ms, sample_rate, channels)
}

/// The rounding of [`spec_latency_frames`] is to the nearest frame: the
/// result differs from the exact quotient by at most half a frame, and a
/// tie goes up.
pub proof fn lemma_latency_frames_nearest(latency_ms: nat, sample_rate: nat)
    ensures
        1000 * spec_latency_frames(latency_ms, sample_rate) - 500 <= latency_ms * sample_rate,
        latency_ms * sample_rate < 1000 * spec_latency_frames(latency_ms, sample_rate) + 500,
{
    let product = latency_ms * sample_rate + 500;
    assert(product == 1000 * (product / 1000) + product % 1000) by (nonlinear_arith);
    assert(0 <= product % 1000 < 1000);
}

/// The frames that span `latency_ms` milliseconds at `sample_rate`.
pub fn latency_frames(latency_ms: u32, sample_rate: u32) -> (frames: u64)
    ensures
        frames == spec_latency_frames(latency_ms as nat, sample_rate as nat),
{
    assert(latency_ms * sample_rate <= 0xFFFF_FFFF * 0xFFFF_FFFF) by (nonlinear_arith)
        requires
            latency_ms <= 0xFFFF_FFFF,
            sample_rate <= 0xFFFF_FFFF,
    ;
    let product: u64 = (latency_ms as u64) * (sample_rate as u64);
    (product + 500) / 1000
}

/// The samples that span the latency, when that many fit a queue.
///
/// `None` exactly when the count is above [`MAX_CAPACITY`].
pub fn latency_samples(latency_ms: u32, sample_rate: u32, channels: u16) -> (samples: Option<usize>)
    ensures
        samples == if spec_latency_samples(latency_ms as nat, sample_rate as nat, channels as nat)
            <= MAX_CAPACITY {
            Some(
                spec_latency_samples(
                    latency_ms as nat,
                    sample_rate as nat,
                    channels as nat,
                ) as usize,
            )
        } else {
            None
        },
{
    let frames = latency_frames(latency_ms, sample_rate);
    if channels == 0 {
        assert(spec_latency_samples(latency_ms as nat, sample_rate as nat, 0) == 0);
        return Some(0);
    }
    let limit: u64 = MAX_CAPACITY as u64;
    if frames > limit / (channels as u64) {
        assert(channels * frames > MAX_CAPACITY) by (nonlinear_arith)
            requires
                channels > 0,
                frames > (MAX_CAPACITY as u64) / (channels as u64),
        ;
        return None;
    }
    assert(channels * frames <= MAX_CAPACITY) by (nonlinear_arith)
        requires
            channels > 0,
            frames <= (MAX_CAPACITY as u64) / (channels as u64),
    ;
    let samples: u64 = (channels as u64) * frames;
    Some(samples as usize)
}

/// The capacity of a queue sized for the latency, when a queue can have it.
///
/// `None` exactly when the capacity is zero or above [`MAX_CAPACITY`].
pub fn buffer_capacity(latency_ms: u32, sample_rate: u32, channels: u16) -> (capacity: Option<
    usize,
>)
    ensures
        capacity == if 0 < spec_buffer_capacity(
            latency_ms as nat,
            sample_rate as nat,
            channels as nat,
        ) <= MAX_CAPACITY {
            Some(
                spec_buffer_capacity(
                    latency_ms as nat,
                    sample_rate as nat,
                    channels as nat,
                ) as usize,
            )
        } else {
            None
        },
{
    match latency_samples(latency_ms, sample_rate, channels) {
        Some(samples) => {
            if samples == 0 || samples > MAX_CAPACITY / 2 {
                None
            } else {
                Some(2 * samples)
            }
        },
        None => None,
    }
}

} // verus!
