//! Bookkeeping around the spectral round trip of the capture path.
//!
//! Each captured block is reduced to one channel, carried through a
//! forward and an inverse transform of the block's length, normalized by
//! one over that length, and fanned out to both output channels. The
//! transform itself works on floating-point numbers and is the caller's;
//! what stands here is everything that decides on indices and lengths:
//! which samples enter the transform, how long it is, and whether the
//! plan of the previous block can be used again.

use crate::ring_buffer::Sample;
use vstd::prelude::*;

verus! {

/// What the caller has to do with one captured block.
#[derive(Clone, Copy, Debug, PartialEq, Eq, Structural)]
pub struct TransformJob {
    /// Length of the forward and of the inverse transform. The result of
    /// the pair is divided by this length, once.
    pub length: usize,
    /// Whether a plan for this length has to be made: `false` when the
    /// plan of the previous block has the same length.
    pub replan: bool,
}

/// The frames in a block of `samples` interleaved samples; a trailing
/// partial frame does not count.
pub open spec fn spec_block_length(samples: nat, channels: nat) -> nat {
    if channels == 0 {
        0
    } else {
        samples / channels
    }
}

/// The samples of channel `channel` in an interleaved block, one per
/// whole frame, in order.
pub open spec fn extracted(block: Seq<Sample>, channels: nat, channel: nat) -> Seq<Sample> {
    Seq::new(
        spec_block_length(block.len(), channels),
        |frame: int| block[frame * channels + channel],
    )
}

/// The stage's state between blocks: the channel it listens to and the
/// length its current plan was made for.
pub struct SpectralStage {
    channels: usize,
    channel: usize,
    planned: Option<usize>,
}

impl SpectralStage {
    /// Interleaved channels per frame.
    pub closed spec fn spec_channels(&self) -> nat {
        self.channels as nat
    }

    /// The channel that enters the transform.
    pub closed spec fn spec_channel(&self) -> nat {
        self.channel as nat
    }

    /// The length the current plan was made for, if there is a plan.
    pub closed spec fn spec_planned(&self) -> Option<usize> {
        self.planned
    }

    #[verifier::type_invariant]
    spec fn inv(&self) -> bool {
        self.channel < self.channels
    }

    /// A stage for blocks of `channels` interleaved channels that
    /// processes channel `channel`; it has no plan yet.
    ///
    /// `None` exactly when `channel` is not one of the channels.
    pub fn new(channels: u16, channel: u16) -> (stage: Option<Self>)
        ensures
            stage.is_some() == (channel < channels),
            stage matches Some(s) ==> {
                &&& s.spec_channels() == channels
                &&& s.spec_channel() == channel
                &&& s.spec_planned() == None::<usize>
            },
    {
        if channel < channels {
            Some(SpectralStage { channels: channels as usize, channel: channel as usize, planned: None })
        } else {
            None
        }
    }

    /// Interleaved channels per frame.
    pub fn channels(&self) -> (channels: usize)
        ensures
            channels == self.spec_channels(),
            channels > 0,
    {
        proof {
            use_type_invariant(self);
        }
        self.channels
    }

    /// The channel that enters the transform.
    pub fn channel(&self) -> (channel: usize)
        ensures
            channel == self.spec_channel(),
            channel < self.spec_channels(),
    {
        proof {
            use_type_invariant(self);
        }
        self.channel
    }

    /// The length the current plan was made for, if there is a plan.
    pub fn planned_length(&self) -> (planned: Option<usize>)
        ensures
            planned == self.spec_planned(),
    {
        self.planned
    }

    /// The transform length for a block of `samples` interleaved samples.
    pub fn block_length(&self, samples: usize) -> (length: usize)
        ensures
            length == spec_block_length(samples as nat, self.spec_channels()),
    {
        proof {
            use_type_invariant(self);
        }
        samples / self.channels
    }

    /// Writes the stage's channel of `block` into `mono`, replacing what
    /// `mono` held.
    pub fn extract(&self, block: &[Sample], mono: &mut Vec<Sample>)
        ensures
            final(mono)@ == extracted(block@, self.spec_channels(), self.spec_channel()),
    {
        proof {
            use_type_invariant(self);
        }
        let total = block.len();
        let length = total / self.channels;
        mono.clear();
        let mut frame: usize = 0;
        while frame < length
            invariant
                frame <= length,
                0 <= self.channel < self.channels,
                total == block@.len(),
                length == block@.len() / (self.channels as nat),
                mono@ == extracted(block@, self.channels as nat, self.channel as nat).take(
                    frame as int,
                ),
            decreases length - frame,
        {
            assert(frame * self.channels + self.channel < block@.len() && 0 <= frame
                * self.channels) by (nonlinear_arith)
                requires
                    0 <= frame < length,
                    length == block@.len() / (self.channels as nat),
                    0 <= self.channel < self.channels,
            ;
            let sample = block[frame * self.channels + self.channel];
            mono.push(sample);
            assert(mono@ =~= extracted(block@, self.channels as nat, self.channel as nat).take(
                frame + 1,
            ));
            frame = frame + 1;
        }
        assert(mono@ =~= extracted(block@, self.channels as nat, self.channel as nat));
    }

    /// Records that the next transform has `length` points and says
    /// whether a plan has to be made for it: exactly when the current
    /// plan, if any, is for another length.
    pub fn plan(&mut self, length: usize) -> (replan: bool)
        ensures
            replan == (old(self).spec_planned() != Some(length)),
            final(self).spec_planned() == Some(length),
            final(self).spec_channels() == old(self).spec_channels(),
            final(self).spec_channel() == old(self).spec_channel(),
    {
        proof {
            use_type_invariant(&*self);
        }
        let replan = match self.planned {
            Some(current) => current != length,
            None => true,
        };
        self.planned = Some(length);
        replan
    }

    /// Starts the work on one captured block: writes the samples that
    /// enter the transform into `mono` and returns the transform's length
    /// and whether it needs a new plan.
    pub fn begin_block(&mut self, block: &[Sample], mono: &mut Vec<Sample>) -> (job: TransformJob)
        ensures
            job.length == spec_block_length(block@.len(), old(self).spec_channels()),
            job.replan == (old(self).spec_planned() != Some(job.length)),
            final(mono)@ == extracted(block@, old(self).spec_channels(), old(self).spec_channel()),
            final(mono)@.len() == job.length,
            final(self).spec_planned() == Some(job.length),
            final(self).spec_channels() == old(self).spec_channels(),
            final(self).spec_channel() == old(self).spec_channel(),
    {
        let length = self.block_length(block.len());
        self.extract(block, mono);
        let replan = self.plan(length);
        TransformJob { length, replan }
    }
}

} // verus!
