//! The pipeline: one sample queue between a capture and a render port.
//!
//! The manager is the only object the controlling side talks to. It keeps
//! the configuration, the queue and the two ports, answers what has to be
//! done to the host's streams, and records how the host answered. The
//! bodies of the two real-time callbacks stand here too: what is pushed
//! into the queue for a captured block, and what is handed out for a block
//! to render.

use crate::error::AudioError;
use crate::port::constructed;
use crate::port::enabled_outcome;
use crate::port::planned;
use crate::port::shut_down;
use crate::port::switched;
use crate::port::AudioPort;
use crate::port::DeviceReport;
use crate::port::PortState;
use crate::port::PortType;
use crate::port::StreamAction;
use crate::ring_buffer::available;
use crate::ring_buffer::counted;
use crate::ring_buffer::fitting;
use crate::ring_buffer::silence;
use crate::ring_buffer::RingBuffer;
use crate::ring_buffer::Sample;
use crate::settings::buffer_capacity;
use crate::settings::is_supported_rate;
use crate::settings::latency_samples;
use crate::settings::spec_buffer_capacity;
use crate::settings::spec_latency_samples;
use crate::settings::supported_rates;
use crate::settings::StreamSettings;
use crate::settings::BLOCK_SIZE;
use crate::settings::CHANNELS;
use crate::settings::DEFAULT_SAMPLE_RATE;
use crate::settings::LATENCY_MS;
use vstd::prelude::*;

verus! {

/// When an accepted change of the sample rate takes effect.
#[derive(Clone, Copy, Debug, PartialEq, Eq, Structural)]
pub enum RateChange {
    /// No stream runs at another rate: every stream that exists, and
    /// every stream built from now on, has the new rate.
    Effective,
    /// A stream built at another rate exists. It keeps its rate until its
    /// port is rebuilt by enabling a device again.
    Deferred,
}

/// Whether a port holds a stream that was built at another rate than
/// `rate`.
pub open spec fn runs_at_other_rate(port: AudioPort, rate: u32) -> bool {
    port.spec_has_stream() && port.spec_stream_rate() != rate
}

/// The samples of silence the queue is primed with: the latency at the
/// default sample rate.
pub open spec fn spec_prefill() -> nat {
    spec_latency_samples(LATENCY_MS as nat, DEFAULT_SAMPLE_RATE as nat, CHANNELS as nat)
}

/// The queue after a processed block was fanned out to both output
/// channels: the block is appended twice, each time as far as it fits.
pub open spec fn fanned_out(queue: Seq<Sample>, capacity: nat, block: Seq<Sample>) -> Seq<Sample> {
    let first = queue + block.take(fitting(queue.len(), capacity, block.len()) as int);
    first + block.take(fitting(first.len(), capacity, block.len()) as int)
}

/// The samples of a block, appended twice, that a fan-out drops.
pub open spec fn fan_out_dropped(len: nat, capacity: nat, block: nat) -> nat {
    let first = fitting(len, capacity, block);
    let second = fitting(len + first, capacity, block);
    (2 * block - first - second) as nat
}

/// Owner of the queue and of the two ports.
pub struct IOManager {
    sample_rate: u32,
    output_buffer: RingBuffer,
    output_port: AudioPort,
    input_port: AudioPort,
}

impl IOManager {
    /// The configured sample rate: the rate of every stream built from
    /// now on.
    pub closed spec fn spec_sample_rate(&self) -> u32 {
        self.sample_rate
    }

    /// The queue between the two ports.
    pub closed spec fn buffer(&self) -> RingBuffer {
        self.output_buffer
    }

    /// The capture port.
    pub closed spec fn input(&self) -> AudioPort {
        self.input_port
    }

    /// The render port.
    pub closed spec fn output(&self) -> AudioPort {
        self.output_port
    }

    /// The settings of every stream built from now on. Capture and
    /// render are built from the same settings: they cannot diverge.
    pub open spec fn spec_settings(&self) -> StreamSettings {
        StreamSettings {
            channels: CHANNELS,
            sample_rate: self.spec_sample_rate(),
            block_size: Some(BLOCK_SIZE),
        }
    }

    /// That nothing but the capture port may have changed.
    pub open spec fn same_but_input(&self, before: &IOManager) -> bool {
        &&& self.spec_sample_rate() == before.spec_sample_rate()
        &&& self.buffer() == before.buffer()
        &&& self.output() == before.output()
    }

    /// That nothing but the render port may have changed.
    pub open spec fn same_but_output(&self, before: &IOManager) -> bool {
        &&& self.spec_sample_rate() == before.spec_sample_rate()
        &&& self.buffer() == before.buffer()
        &&& self.input() == before.input()
    }

    /// That nothing but the queue may have changed.
    pub open spec fn same_but_buffer(&self, before: &IOManager) -> bool {
        &&& self.spec_sample_rate() == before.spec_sample_rate()
        &&& self.input() == before.input()
        &&& self.output() == before.output()
    }

    /// A pipeline at the default sample rate over the devices the host
    /// reported.
    ///
    /// The queue has room for twice the latency and is primed with the
    /// latency's worth of silence, so that the render side has samples to
    /// take before the capture side has delivered any. Each port enables
    /// its default device when the host has one whose stream was built.
    pub fn new(input: DeviceReport, output: DeviceReport) -> (manager: Self)
        ensures
            manager.spec_sample_rate() == DEFAULT_SAMPLE_RATE,
            manager.buffer()@ == silence(spec_prefill()),
            manager.buffer().spec_capacity() == spec_buffer_capacity(
                LATENCY_MS as nat,
                DEFAULT_SAMPLE_RATE as nat,
                CHANNELS as nat,
            ),
            manager.buffer().spec_overruns() == 0,
            manager.buffer().spec_underruns() == 0,
            constructed(manager.input(), PortType::Input, input, DEFAULT_SAMPLE_RATE),
            constructed(manager.output(), PortType::Output, output, DEFAULT_SAMPLE_RATE),
    {
        assert(spec_prefill() == 44100);
        let prefill = latency_samples(LATENCY_MS, DEFAULT_SAMPLE_RATE, CHANNELS).unwrap();
        let capacity = buffer_capacity(LATENCY_MS, DEFAULT_SAMPLE_RATE, CHANNELS).unwrap();
        let mut output_buffer = RingBuffer::new(capacity);
        let primed = output_buffer.fill_silence(prefill);
        assert(primed == prefill);
        assert(Seq::<Sample>::empty() + silence(primed as nat) =~= silence(spec_prefill()));
        let output_port = AudioPort::new(PortType::Output, output, DEFAULT_SAMPLE_RATE);
        let input_port = AudioPort::new(PortType::Input, input, DEFAULT_SAMPLE_RATE);
        IOManager { sample_rate: DEFAULT_SAMPLE_RATE, output_buffer, output_port, input_port }
    }

    /// The names of the capture devices, for display.
    pub fn get_input_device_names(&self) -> (names: Vec<String>)
        ensures
            names.deep_view() == self.input().spec_devices(),
    {
        self.input_port.get_device_names()
    }

    /// The names of the render devices, for display.
    pub fn get_output_devices_names(&self) -> (names: Vec<String>)
        ensures
            names.deep_view() == self.output().spec_devices(),
    {
        self.output_port.get_device_names()
    }

    /// The index of the enabled capture device, if one is enabled.
    pub fn get_current_in_device_index(&self) -> (index: Option<usize>)
        ensures
            index == self.input().spec_enabled(),
            index matches Some(i) ==> i < self.input().spec_devices().len(),
    {
        self.input_port.get_enabled_device_index()
    }

    /// The index of the enabled render device, if one is enabled.
    pub fn get_current_out_device_index(&self) -> (index: Option<usize>)
        ensures
            index == self.output().spec_enabled(),
            index matches Some(i) ==> i < self.output().spec_devices().len(),
    {
        self.output_port.get_enabled_device_index()
    }

    /// Where the capture port stands in its life.
    pub fn input_state(&self) -> (state: PortState)
        ensures
            state == self.input().spec_state(),
    {
        self.input_port.state()
    }

    /// Where the render port stands in its life.
    pub fn output_state(&self) -> (state: PortState)
        ensures
            state == self.output().spec_state(),
    {
        self.output_port.state()
    }

    /// The configured sample rate.
    pub fn current_sample_rate(&self) -> (rate: u32)
        ensures
            rate == self.spec_sample_rate(),
    {
        self.sample_rate
    }

    /// The settings of every stream built from now on.
    pub fn settings(&self) -> (settings: StreamSettings)
        ensures
            settings == self.spec_settings(),
    {
        StreamSettings { channels: CHANNELS, sample_rate: self.sample_rate, block_size: Some(BLOCK_SIZE) }
    }

    /// Configures the sample rate.
    ///
    /// Fails with `UnsupportedSampleRate`, and changes nothing, exactly
    /// when `rate` is not one of the supported rates. An accepted rate is
    /// recorded; no stream is touched. The answer says whether a stream
    /// built at another rate is still there, so that the caller knows the
    /// change waits for the next rebuild of that port.
    pub fn set_sample_rate(&mut self, rate: u32) -> (result: Result<RateChange, AudioError>)
        ensures
            final(self).buffer() == old(self).buffer(),
            final(self).input() == old(self).input(),
            final(self).output() == old(self).output(),
            result == if !supported_rates().contains(rate) {
                Err::<RateChange, AudioError>(AudioError::UnsupportedSampleRate)
            } else if runs_at_other_rate(old(self).input(), rate) || runs_at_other_rate(
                old(self).output(),
                rate,
            ) {
                Ok::<RateChange, AudioError>(RateChange::Deferred)
            } else {
                Ok::<RateChange, AudioError>(RateChange::Effective)
            },
            final(self).spec_sample_rate() == if supported_rates().contains(rate) {
                rate
            } else {
                old(self).spec_sample_rate()
            },
    {
        if !is_supported_rate(rate) {
            return Err(AudioError::UnsupportedSampleRate);
        }
        self.sample_rate = rate;
        let stale_input = match self.input_port.stream_rate() {
            Some(built_at) => built_at != rate,
            None => false,
        };
        let stale_output = match self.output_port.stream_rate() {
            Some(built_at) => built_at != rate,
            None => false,
        };
        if stale_input || stale_output {
            Ok(RateChange::Deferred)
        } else {
            Ok(RateChange::Effective)
        }
    }

    /// The steps, in order, that enable the capture device at `index`
    /// with the current settings. Nothing changes.
    pub fn input_rebuild_plan(&self, index: usize) -> (plan: Result<Vec<StreamAction>, AudioError>)
        ensures
            planned(self.input(), index, self.spec_settings(), plan),
    {
        self.input_port.build_stream(index, self.settings())
    }

    /// The steps, in order, that enable the render device at `index`
    /// with the current settings. Nothing changes.
    pub fn output_rebuild_plan(&self, index: usize) -> (plan: Result<Vec<StreamAction>, AudioError>)
        ensures
            planned(self.output(), index, self.spec_settings(), plan),
    {
        self.output_port.build_stream(index, self.settings())
    }

    /// Records the outcome of enabling the render device at `index`;
    /// `built` tells whether the host accepted the stream.
    pub fn enable_output_device(&mut self, index: usize, built: bool) -> (result: Result<
        (),
        AudioError,
    >)
        ensures
            final(self).same_but_output(old(self)),
            enabled_outcome(
                old(self).output(),
                final(self).output(),
                index,
                old(self).spec_sample_rate(),
                built,
                result,
            ),
    {
        self.output_port.set_enabled_device_index(index, self.sample_rate, built)
    }

    /// Records the outcome of enabling the capture device at `index`;
    /// `built` tells whether the host accepted the stream.
    pub fn enable_input_device(&mut self, index: usize, built: bool) -> (result: Result<
        (),
        AudioError,
    >)
        ensures
            final(self).same_but_input(old(self)),
            enabled_outcome(
                old(self).input(),
                final(self).input(),
                index,
                old(self).spec_sample_rate(),
                built,
                result,
            ),
    {
        self.input_port.set_enabled_device_index(index, self.sample_rate, built)
    }

    /// Starts or resumes the render stream.
    pub fn play_output(&mut self) -> (result: Result<(), AudioError>)
        ensures
            final(self).same_but_output(old(self)),
            switched(old(self).output(), final(self).output(), PortState::Streaming, result),
    {
        self.output_port.open_stream()
    }

    /// Halts the render stream.
    pub fn pause_output(&mut self) -> (result: Result<(), AudioError>)
        ensures
            final(self).same_but_output(old(self)),
            switched(old(self).output(), final(self).output(), PortState::Paused, result),
    {
        self.output_port.close_stream()
    }

    /// Starts or resumes the capture stream.
    pub fn play_input(&mut self) -> (result: Result<(), AudioError>)
        ensures
            final(self).same_but_input(old(self)),
            switched(old(self).input(), final(self).input(), PortState::Streaming, result),
    {
        self.input_port.open_stream()
    }

    /// Halts the capture stream.
    pub fn pause_input(&mut self) -> (result: Result<(), AudioError>)
        ensures
            final(self).same_but_input(old(self)),
            switched(old(self).input(), final(self).input(), PortState::Paused, result),
    {
        self.input_port.close_stream()
    }

    /// Shuts both ports down, whatever they were doing. Returns the
    /// steps that end the capture stream and those that end the render
    /// stream.
    pub fn tear_down(&mut self) -> (steps: (Vec<StreamAction>, Vec<StreamAction>))
        ensures
            final(self).spec_sample_rate() == old(self).spec_sample_rate(),
            final(self).buffer() == old(self).buffer(),
            shut_down(old(self).input(), final(self).input(), steps.0@),
            shut_down(old(self).output(), final(self).output(), steps.1@),
    {
        let capture = self.input_port.tear_down();
        let render = self.output_port.tear_down();
        (capture, render)
    }

    /// The number of samples in the queue.
    pub fn buffered(&self) -> (len: usize)
        ensures
            len == self.buffer()@.len(),
            len <= self.buffer().spec_capacity(),
    {
        self.output_buffer.len()
    }

    /// The number of slots of the queue.
    pub fn buffer_capacity(&self) -> (slots: usize)
        ensures
            slots == self.buffer().spec_capacity(),
    {
        self.output_buffer.capacity()
    }

    /// The samples dropped so far because the queue was full.
    pub fn overruns(&self) -> (count: u64)
        ensures
            count == self.buffer().spec_overruns(),
    {
        self.output_buffer.overruns()
    }

    /// The slots rendered as silence so far because the queue was empty.
    pub fn underruns(&self) -> (count: u64)
        ensures
            count == self.buffer().spec_underruns(),
    {
        self.output_buffer.underruns()
    }

    /// Body of the capture callback, behind the transform: fans the
    /// processed block out to both output channels by appending it to
    /// the queue twice. Returns whether the render side fell behind, that
    /// is, whether any sample did not fit; each such sample is dropped
    /// and counted as an overrun.
    pub fn capture(&mut self, processed: &[Sample]) -> (fell_behind: bool)
        ensures
            final(self).same_but_buffer(old(self)),
            final(self).buffer().spec_capacity() == old(self).buffer().spec_capacity(),
            final(self).buffer()@ == fanned_out(
                old(self).buffer()@,
                old(self).buffer().spec_capacity(),
                processed@,
            ),
            final(self).buffer()@.len() <= final(self).buffer().spec_capacity(),
            fell_behind == (fan_out_dropped(
                old(self).buffer()@.len(),
                old(self).buffer().spec_capacity(),
                processed@.len(),
            ) > 0),
            final(self).buffer().spec_overruns() == counted(
                old(self).buffer().spec_overruns(),
                fan_out_dropped(
                    old(self).buffer()@.len(),
                    old(self).buffer().spec_capacity(),
                    processed@.len(),
                ),
            ),
            final(self).buffer().spec_underruns() == old(self).buffer().spec_underruns(),
    {
        let first = self.output_buffer.push_batch(processed);
        let second = self.output_buffer.push_batch(processed);
        first != processed.len() || second != processed.len()
    }

    /// Body of the render callback: fills every slot of `out` from the
    /// queue, and with silence once the queue is empty. Returns whether
    /// the capture side fell behind, that is, whether any slot got
    /// silence; each such slot is counted as an underrun.
    pub fn render(&mut self, out: &mut Vec<Sample>) -> (fell_behind: bool)
        ensures
            final(self).same_but_buffer(old(self)),
            final(self).buffer().spec_capacity() == old(self).buffer().spec_capacity(),
            final(out)@ == old(self).buffer()@.take(
                available(old(self).buffer()@.len(), old(out)@.len()) as int,
            ) + silence((old(out)@.len() - available(old(self).buffer()@.len(), old(out)@.len())) as nat),
            final(self).buffer()@ == old(self).buffer()@.skip(
                available(old(self).buffer()@.len(), old(out)@.len()) as int,
            ),
            fell_behind == (old(out)@.len() > old(self).buffer()@.len()),
            final(self).buffer().spec_overruns() == old(self).buffer().spec_overruns(),
            final(self).buffer().spec_underruns() == counted(
                old(self).buffer().spec_underruns(),
                (old(out)@.len() - available(old(self).buffer()@.len(), old(out)@.len())) as nat,
            ),
    {
        let missing = self.output_buffer.render(out);
        missing > 0
    }
}

/// A queue that holds the priming silence serves every block of up to
/// that many slots in full: no slot of the first render callback is an
/// underrun.
pub proof fn lemma_primed_queue_serves_first_block(queue: Seq<Sample>, wanted: nat)
    requires
        queue == silence(spec_prefill()),
        wanted <= spec_prefill(),
    ensures
        spec_prefill() == 44100,
        available(queue.len(), wanted) == wanted,
        queue.take(wanted as int) == silence(wanted),
{
    assert(queue.take(wanted as int) =~= silence(wanted));
}

/// Capture and render are built from the same settings: whenever both
/// ports of one manager are planned, the stream to build has the same
/// channel count, sample rate and block size on either side.
pub proof fn lemma_ports_share_settings(
    manager: IOManager,
    input_index: usize,
    output_index: usize,
    input_plan: Vec<StreamAction>,
    output_plan: Vec<StreamAction>,
)
    requires
        planned(manager.input(), input_index, manager.spec_settings(), Ok(input_plan)),
        planned(manager.output(), output_index, manager.spec_settings(), Ok(output_plan)),
    ensures
        forall|i: int, j: int|
            0 <= i < input_plan@.len() && 0 <= j < output_plan@.len() ==> (
            #[trigger] input_plan@[i] matches StreamAction::Build { settings: capture, .. } ==> (
            #[trigger] output_plan@[j] matches StreamAction::Build { settings: render, .. }
                ==> capture == render && capture.channels == CHANNELS)),
{
}

} // verus!
