//! A plain monitoring path: what is captured is rendered as it is.
//!
//! The context keeps the choice of devices and the sample rate, and
//! between its two streams a short queue: the capture callback offers
//! every sample it gets, the render callback takes what is there and
//! plays silence for the rest.

use crate::error::AudioError;
use crate::ring_buffer::available;
use crate::ring_buffer::fitting;
use crate::ring_buffer::silence;
use crate::ring_buffer::RingBuffer;
use crate::ring_buffer::Sample;
use crate::settings::is_supported_rate;
use crate::settings::sample_rates;
use crate::settings::supported_rates;
use crate::settings::StreamSettings;
use crate::settings::CHANNELS;
use vstd::prelude::*;

verus! {

/// Slots of the queue between the two streams of a context.
pub const MONITOR_CAPACITY: usize = 4;

/// What a context asks of its two streams.
#[derive(Clone, Copy, Debug, PartialEq, Eq, Structural)]
pub enum MonitorAction {
    /// Start both streams.
    Start,
    /// Halt both streams.
    Stop,
}

/// Device choice, sample rate and queue of a monitoring path.
pub struct AudioContext {
    output_device_index: Option<usize>,
    input_device_index: Option<usize>,
    sample_rate: u32,
    monitor: bool,
    streams_built: bool,
    buffer: RingBuffer,
}

impl AudioContext {
    /// The index of the chosen render device, if one is chosen.
    pub closed spec fn spec_output_device(&self) -> Option<usize> {
        self.output_device_index
    }

    /// The index of the chosen capture device, if one is chosen.
    pub closed spec fn spec_input_device(&self) -> Option<usize> {
        self.input_device_index
    }

    /// The configured sample rate.
    pub closed spec fn spec_sample_rate(&self) -> u32 {
        self.sample_rate
    }

    /// Whether monitoring is marked as on.
    pub closed spec fn spec_monitor(&self) -> bool {
        self.monitor
    }

    /// Whether both streams exist.
    pub closed spec fn spec_streams_built(&self) -> bool {
        self.streams_built
    }

    /// The queue between the two streams.
    pub closed spec fn buffer(&self) -> RingBuffer {
        self.buffer
    }

    /// That nothing but the queue may have changed.
    pub open spec fn same_but_buffer(&self, before: &AudioContext) -> bool {
        &&& self.spec_output_device() == before.spec_output_device()
        &&& self.spec_input_device() == before.spec_input_device()
        &&& self.spec_sample_rate() == before.spec_sample_rate()
        &&& self.spec_monitor() == before.spec_monitor()
        &&& self.spec_streams_built() == before.spec_streams_built()
    }

    /// That nothing but the choice of devices and the rate may have
    /// changed.
    pub open spec fn same_streams(&self, before: &AudioContext) -> bool {
        &&& self.spec_monitor() == before.spec_monitor()
        &&& self.spec_streams_built() == before.spec_streams_built()
        &&& self.buffer() == before.buffer()
    }

    /// A context at `sample_rate` on the host's default devices, given
    /// by their indices; monitoring is off and no stream exists.
    pub fn new(sample_rate: u32, input_device: Option<usize>, output_device: Option<usize>) -> (context:
        Self)
        ensures
            context.spec_sample_rate() == sample_rate,
            context.spec_input_device() == input_device,
            context.spec_output_device() == output_device,
            !context.spec_monitor(),
            !context.spec_streams_built(),
            context.buffer()@ == Seq::<Sample>::empty(),
            context.buffer().spec_capacity() == MONITOR_CAPACITY,
    {
        AudioContext {
            output_device_index: output_device,
            input_device_index: input_device,
            sample_rate,
            monitor: false,
            streams_built: false,
            buffer: RingBuffer::new(MONITOR_CAPACITY),
        }
    }

    /// The index of the chosen render device, if one is chosen.
    pub fn output_device(&self) -> (index: Option<usize>)
        ensures
            index == self.spec_output_device(),
    {
        self.output_device_index
    }

    /// The index of the chosen capture device, if one is chosen.
    pub fn input_device(&self) -> (index: Option<usize>)
        ensures
            index == self.spec_input_device(),
    {
        self.input_device_index
    }

    /// The configured sample rate.
    pub fn sample_rate(&self) -> (rate: u32)
        ensures
            rate == self.spec_sample_rate(),
    {
        self.sample_rate
    }

    /// Whether monitoring is marked as on.
    pub fn monitor(&self) -> (on: bool)
        ensures
            on == self.spec_monitor(),
    {
        self.monitor
    }

    /// Marks monitoring as on or off.
    pub fn set_monitor(&mut self, on: bool)
        ensures
            final(self).spec_monitor() == on,
            final(self).spec_output_device() == old(self).spec_output_device(),
            final(self).spec_input_device() == old(self).spec_input_device(),
            final(self).spec_sample_rate() == old(self).spec_sample_rate(),
            final(self).spec_streams_built() == old(self).spec_streams_built(),
            final(self).buffer() == old(self).buffer(),
    {
        self.monitor = on;
    }

    /// Asks for both streams to start.
    ///
    /// Fails with `NoActiveStream` exactly when the streams do not exist.
    pub fn start(&self) -> (result: Result<MonitorAction, AudioError>)
        ensures
            result == if self.spec_streams_built() {
                Ok::<MonitorAction, AudioError>(MonitorAction::Start)
            } else {
                Err::<MonitorAction, AudioError>(AudioError::NoActiveStream)
            },
    {
        if self.streams_built {
            Ok(MonitorAction::Start)
        } else {
            Err(AudioError::NoActiveStream)
        }
    }

    /// Asks for both streams to halt.
    ///
    /// Fails with `NoActiveStream` exactly when the streams do not exist.
    pub fn stop(&self) -> (result: Result<MonitorAction, AudioError>)
        ensures
            result == if self.spec_streams_built() {
                Ok::<MonitorAction, AudioError>(MonitorAction::Stop)
            } else {
                Err::<MonitorAction, AudioError>(AudioError::NoActiveStream)
            },
    {
        if self.streams_built {
            Ok(MonitorAction::Stop)
        } else {
            Err(AudioError::NoActiveStream)
        }
    }

    /// Asks for the streams to halt when monitoring is marked as on, and
    /// to start when it is not. The mark itself is left as it is.
    ///
    /// Fails with `NoActiveStream` exactly when the streams do not exist.
    pub fn toggle_monitor(&mut self) -> (result: Result<MonitorAction, AudioError>)
        ensures
            *final(self) == *old(self),
            result == if !old(self).spec_streams_built() {
                Err::<MonitorAction, AudioError>(AudioError::NoActiveStream)
            } else if old(self).spec_monitor() {
                Ok::<MonitorAction, AudioError>(MonitorAction::Stop)
            } else {
                Ok::<MonitorAction, AudioError>(MonitorAction::Start)
            },
    {
        if self.monitor {
            self.stop()
        } else {
            self.start()
        }
    }

    /// The supported sample rates in Hz, ascending.
    pub fn get_sample_rates(&self) -> (rates: [u32; 13])
        ensures
            rates@ == supported_rates(),
    {
        sample_rates()
    }

    /// Chooses the render device at `device_index`.
    pub fn set_output_device(&mut self, device_index: usize)
        ensures
            final(self).spec_output_device() == Some(device_index),
            final(self).spec_input_device() == old(self).spec_input_device(),
            final(self).spec_sample_rate() == old(self).spec_sample_rate(),
            final(self).same_streams(old(self)),
    {
        self.output_device_index = Some(device_index);
    }

    /// Chooses the capture device at `device_index`.
    pub fn set_input_device(&mut self, device_index: usize)
        ensures
            final(self).spec_input_device() == Some(device_index),
            final(self).spec_output_device() == old(self).spec_output_device(),
            final(self).spec_sample_rate() == old(self).spec_sample_rate(),
            final(self).same_streams(old(self)),
    {
        self.input_device_index = Some(device_index);
    }

    /// Configures the sample rate.
    ///
    /// Fails with `UnsupportedSampleRate`, and changes nothing, exactly
    /// when `sample_rate` is not one of the supported rates.
    pub fn set_sample_rate(&mut self, sample_rate: u32) -> (result: Result<(), AudioError>)
        ensures
            final(self).spec_output_device() == old(self).spec_output_device(),
            final(self).spec_input_device() == old(self).spec_input_device(),
            final(self).same_streams(old(self)),
            result == if supported_rates().contains(sample_rate) {
                Ok::<(), AudioError>(())
            } else {
                Err::<(), AudioError>(AudioError::UnsupportedSampleRate)
            },
            final(self).spec_sample_rate() == if supported_rates().contains(sample_rate) {
                sample_rate
            } else {
                old(self).spec_sample_rate()
            },
    {
        if !is_supported_rate(sample_rate) {
            return Err(AudioError::UnsupportedSampleRate);
        }
        self.sample_rate = sample_rate;
        Ok(())
    }

    /// The settings both streams are built with: stereo, the configured
    /// rate, and the block size the host prefers.
    pub fn stream_settings(&self) -> (settings: StreamSettings)
        ensures
            settings == (StreamSettings {
                channels: CHANNELS,
                sample_rate: self.spec_sample_rate(),
                block_size: None,
            }),
    {
        StreamSettings { channels: CHANNELS, sample_rate: self.sample_rate, block_size: None }
    }

    /// Records the outcome of building both streams and gives them a
    /// fresh, empty queue.
    ///
    /// - `DeviceNotFound`, with nothing changed, exactly when a device
    ///   is not chosen.
    /// - `StreamBuildError`, with nothing changed, exactly when both
    ///   devices are chosen and the host rejected one of the streams.
    /// - Otherwise both streams exist.
    pub fn init_streams(&mut self, input_built: bool, output_built: bool) -> (result: Result<
        (),
        AudioError,
    >)
        ensures
            final(self).spec_output_device() == old(self).spec_output_device(),
            final(self).spec_input_device() == old(self).spec_input_device(),
            final(self).spec_sample_rate() == old(self).spec_sample_rate(),
            final(self).spec_monitor() == old(self).spec_monitor(),
            result == if old(self).spec_input_device() is None || old(self).spec_output_device()
                is None {
                Err::<(), AudioError>(AudioError::DeviceNotFound)
            } else if !input_built || !output_built {
                Err::<(), AudioError>(AudioError::StreamBuildError)
            } else {
                Ok::<(), AudioError>(())
            },
            result is Err ==> final(self).spec_streams_built() == old(self).spec_streams_built()
                && final(self).buffer() == old(self).buffer(),
            result is Ok ==> {
                &&& final(self).spec_streams_built()
                &&& final(self).buffer()@ == Seq::<Sample>::empty()
                &&& final(self).buffer().spec_capacity() == MONITOR_CAPACITY
                &&& final(self).buffer().spec_overruns() == 0
                &&& final(self).buffer().spec_underruns() == 0
            },
    {
        if self.input_device_index.is_none() || self.output_device_index.is_none() {
            return Err(AudioError::DeviceNotFound);
        }
        if !input_built || !output_built {
            return Err(AudioError::StreamBuildError);
        }
        self.buffer = RingBuffer::new(MONITOR_CAPACITY);
        self.streams_built = true;
        Ok(())
    }

    /// Body of the capture callback: offers every sample of `data` to
    /// the queue, in order. What does not fit is dropped.
    pub fn feed(&mut self, data: &[Sample])
        ensures
            final(self).same_but_buffer(old(self)),
            final(self).buffer().spec_capacity() == old(self).buffer().spec_capacity(),
            final(self).buffer()@ == old(self).buffer()@ + data@.take(
                fitting(
                    old(self).buffer()@.len(),
                    old(self).buffer().spec_capacity(),
                    data@.len(),
                ) as int,
            ),
    {
        let ghost start = self.buffer@;
        let ghost capacity = self.buffer.spec_capacity();
        let total = data.len();
        let mut i: usize = 0;
        while i < total
            invariant
                i <= total,
                total == data@.len(),
                self.buffer.spec_capacity() == capacity,
                self.buffer@ == start + data@.take(fitting(start.len(), capacity, i as nat) as int),
                self.same_but_buffer(old(self)),
            decreases total - i,
        {
            let ghost kept = fitting(start.len(), capacity, i as nat);
            let accepted = self.buffer.push(data[i]);
            proof {
                if accepted {
                    assert(kept == i);
                    assert(data@.take(i + 1) =~= data@.take(i as int).push(data@[i as int]));
                    assert(start + data@.take(i + 1) =~= (start + data@.take(i as int)).push(
                        data@[i as int],
                    ));
                }
            }
            i = i + 1;
        }
    }

    /// Body of the render callback: fills every slot of `out` from the
    /// queue, and with silence once the queue is empty.
    pub fn drain(&mut self, out: &mut Vec<Sample>)
        ensures
            final(self).same_but_buffer(old(self)),
            final(self).buffer().spec_capacity() == old(self).buffer().spec_capacity(),
            final(out)@ == old(self).buffer()@.take(
                available(old(self).buffer()@.len(), old(out)@.len()) as int,
            ) + silence((old(out)@.len() - available(old(self).buffer()@.len(), old(out)@.len())) as nat),
            final(self).buffer()@ == old(self).buffer()@.skip(
                available(old(self).buffer()@.len(), old(out)@.len()) as int,
            ),
    {
        let _ = self.buffer.render(out);
    }
}

} // verus!
