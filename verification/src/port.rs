//! Control state of one direction of audio I/O.
//!
//! A port knows the devices of its direction by name, which of them is
//! enabled, and what its stream is doing. The stream itself lives with the
//! host; the port decides what is to be done to it and records how the
//! host answered.

use crate::error::AudioError;
use crate::settings::StreamSettings;
use vstd::prelude::*;

verus! {

/// The direction a port serves.
#[derive(Clone, Copy, Debug, PartialEq, Eq, Structural)]
pub enum PortType {
    /// Capture: from a device into the queue.
    Input,
    /// Render: from the queue to a device.
    Output,
}

/// Where a port stands in its life.
#[derive(Clone, Copy, Debug, PartialEq, Eq, Structural)]
pub enum PortState {
    /// No device is enabled and there is no stream.
    Uninitialized,
    /// A device is enabled; its stream is built and has not run yet.
    DeviceSelected,
    /// The stream runs: the host delivers or asks for blocks.
    Streaming,
    /// The stream has run and is halted.
    Paused,
    /// The port was shut down; its stream is gone.
    TornDown,
}

/// One thing to do to a port's stream, in the host's terms.
#[derive(Clone, Copy, Debug, PartialEq, Eq, Structural)]
pub enum StreamAction {
    /// Halt the current stream.
    Pause,
    /// Give up the current stream for good.
    Release,
    /// Build a stream on the device at `device` with `settings`.
    Build { device: usize, settings: StreamSettings },
}

/// Whether a port in `state` has a stream.
pub open spec fn state_has_stream(state: PortState) -> bool {
    state == PortState::DeviceSelected || state == PortState::Streaming || state
        == PortState::Paused
}

/// What ends a port's stream: halt it, then give it up. Nothing when the
/// port has no stream.
pub open spec fn teardown_steps(has_stream: bool) -> Seq<StreamAction> {
    if has_stream {
        seq![StreamAction::Pause, StreamAction::Release]
    } else {
        Seq::<StreamAction>::empty()
    }
}

/// What switches a port to the device at `device`: the old stream, if
/// there is one, is halted and given up; only then the new one is built,
/// and it is halted at once so that it starts paused.
pub open spec fn rebuild_steps(has_stream: bool, device: usize, settings: StreamSettings) -> Seq<
    StreamAction,
> {
    teardown_steps(has_stream) + seq![
        StreamAction::Build { device, settings },
        StreamAction::Pause,
    ]
}

/// Whether `index` is the place of the device named `name` in `names`:
/// the last index that holds the name, or `None` when no entry holds it.
pub open spec fn is_default_index(names: Seq<Seq<char>>, name: Seq<char>, index: Option<usize>) -> bool {
    match index {
        Some(i) => {
            &&& i < names.len()
            &&& names[i as int] == name
            &&& forall|j: int| i < j < names.len() ==> names[j] != name
        },
        None => forall|j: int| 0 <= j < names.len() ==> names[j] != name,
    }
}

/// For a list and a name there is exactly one default index.
pub proof fn lemma_default_index_unique(
    names: Seq<Seq<char>>,
    name: Seq<char>,
    first: Option<usize>,
    second: Option<usize>,
)
    requires
        is_default_index(names, name, first),
        is_default_index(names, name, second),
    ensures
        first == second,
{
    match (first, second) {
        (Some(a), Some(b)) => {
            if a < b {
                assert(names[b as int] != name);
            }
            if b < a {
                assert(names[a as int] != name);
            }
        },
        (Some(a), None) => {
            assert(names[a as int] != name);
        },
        (None, Some(b)) => {
            assert(names[b as int] != name);
        },
        (None, None) => {},
    }
}

/// The place of the default device in a list of device names: the last
/// index that holds `name`; `None` exactly when no entry does.
pub fn default_device_index(names: &Vec<String>, name: &String) -> (index: Option<usize>)
    ensures
        is_default_index(names.deep_view(), name@, index),
{
    let ghost views = names.deep_view();
    let mut found: Option<usize> = None;
    let mut i: usize = 0;
    while i < names.len()
        invariant
            i <= names.len(),
            views == names.deep_view(),
            views.len() == names.len(),
            forall|j: int| 0 <= j < names.len() ==> views[j] == names[j]@,
            found matches Some(k) ==> k < i && views[k as int] == name@ && forall|j: int|
                k < j < i ==> views[j] != name@,
            found is None ==> forall|j: int| 0 <= j < i ==> views[j] != name@,
        decreases names.len() - i,
    {
        if names[i] == *name {
            found = Some(i);
        }
        i = i + 1;
    }
    found
}

/// What the host reported of one direction when it was asked for its
/// devices.
pub struct DeviceReport {
    /// The names of the devices, in the order of enumeration.
    pub names: Vec<String>,
    /// The name of the default device, if the host has one.
    pub default_device: Option<String>,
    /// Whether the host accepted a stream on the default device.
    pub default_built: bool,
}

/// One direction of audio I/O: capture or render.
///
/// The enabled device is an index into the list of names. A port has at
/// most one stream, and it has one exactly when a device is enabled.
pub struct AudioPort {
    port_type: PortType,
    devices: Vec<String>,
    enabled_device_index: Option<usize>,
    /// What the stream does, while there is one.
    activity: PortState,
    /// Whether the port was shut down since it last had a stream.
    torn_down: bool,
    stream_rate: u32,
}

/// What holds of a port right after its construction from `report`: the
/// default device is enabled, with its stream paused, when it is in the
/// list and its stream was built; the port is without device otherwise.
pub open spec fn constructed(
    port: AudioPort,
    port_type: PortType,
    report: DeviceReport,
    sample_rate: u32,
) -> bool {
    &&& port.spec_port_type() == port_type
    &&& port.spec_devices() == report.names.deep_view()
    &&& match report.default_device {
        Some(name) => if report.default_built {
            is_default_index(report.names.deep_view(), name@, port.spec_enabled())
        } else {
            port.spec_enabled() is None
        },
        None => port.spec_enabled() is None,
    }
    &&& port.spec_state() == if port.spec_enabled() is Some {
        PortState::DeviceSelected
    } else {
        PortState::Uninitialized
    }
    &&& port.spec_stream_rate() == sample_rate
}

/// How a port changes when the outcome of enabling the device at `index`
/// is recorded, and what is returned.
///
/// - `DeviceNotFound`, with the port unchanged, exactly when `index` is
///   not in the list.
/// - `StreamBuildError` exactly when the index is in the list and the
///   stream was not built; the port is left without device and stream.
/// - Otherwise the device is enabled and its stream, built at
///   `sample_rate`, is the port's only one and paused.
pub open spec fn enabled_outcome(
    before: AudioPort,
    after: AudioPort,
    index: usize,
    sample_rate: u32,
    built: bool,
    result: Result<(), AudioError>,
) -> bool {
    &&& after.spec_port_type() == before.spec_port_type()
    &&& after.spec_devices() == before.spec_devices()
    &&& if index >= before.spec_devices().len() {
        &&& result == Err::<(), AudioError>(AudioError::DeviceNotFound)
        &&& after.spec_enabled() == before.spec_enabled()
        &&& after.spec_state() == before.spec_state()
        &&& after.spec_stream_rate() == before.spec_stream_rate()
    } else if !built {
        &&& result == Err::<(), AudioError>(AudioError::StreamBuildError)
        &&& after.spec_enabled() is None
        &&& after.spec_state() == PortState::Uninitialized
    } else {
        &&& result == Ok::<(), AudioError>(())
        &&& after.spec_enabled() == Some(index)
        &&& after.spec_state() == PortState::DeviceSelected
        &&& after.spec_stream_rate() == sample_rate
    }
}

/// How a port changes when its stream is asked to be in `target`
/// (streaming or paused), and what is returned: `NoActiveStream`, with
/// the port unchanged, exactly when it has no stream.
pub open spec fn switched(
    before: AudioPort,
    after: AudioPort,
    target: PortState,
    result: Result<(), AudioError>,
) -> bool {
    &&& after.spec_port_type() == before.spec_port_type()
    &&& after.spec_devices() == before.spec_devices()
    &&& after.spec_enabled() == before.spec_enabled()
    &&& after.spec_stream_rate() == before.spec_stream_rate()
    &&& if before.spec_has_stream() {
        &&& result == Ok::<(), AudioError>(())
        &&& after.spec_state() == target
    } else {
        &&& result == Err::<(), AudioError>(AudioError::NoActiveStream)
        &&& after.spec_state() == before.spec_state()
    }
}

/// How a port changes when it is shut down, and the steps that end its
/// stream.
pub open spec fn shut_down(before: AudioPort, after: AudioPort, steps: Seq<StreamAction>) -> bool {
    &&& after.spec_port_type() == before.spec_port_type()
    &&& after.spec_devices() == before.spec_devices()
    &&& after.spec_enabled() is None
    &&& after.spec_state() == PortState::TornDown
    &&& steps == teardown_steps(before.spec_has_stream())
}

/// What [`AudioPort::build_stream`] answers for a port: `DeviceNotFound`
/// exactly when `index` is not in the list, the steps of
/// [`rebuild_steps`] otherwise.
pub open spec fn planned(
    port: AudioPort,
    index: usize,
    settings: StreamSettings,
    plan: Result<Vec<StreamAction>, AudioError>,
) -> bool {
    match plan {
        Ok(steps) => {
            &&& index < port.spec_devices().len()
            &&& steps@ == rebuild_steps(port.spec_has_stream(), index, settings)
        },
        Err(e) => {
            &&& index >= port.spec_devices().len()
            &&& e == AudioError::DeviceNotFound
        },
    }
}

impl AudioPort {
    /// The direction this port serves.
    pub closed spec fn spec_port_type(&self) -> PortType {
        self.port_type
    }

    /// The names of the port's devices, in the order of enumeration.
    pub closed spec fn spec_devices(&self) -> Seq<Seq<char>> {
        self.devices.deep_view()
    }

    /// The index of the enabled device, if one is enabled.
    pub closed spec fn spec_enabled(&self) -> Option<usize> {
        self.enabled_device_index
    }

    /// Where the port stands in its life.
    pub closed spec fn spec_state(&self) -> PortState {
        if self.enabled_device_index is Some {
            if self.activity == PortState::Streaming || self.activity == PortState::Paused {
                self.activity
            } else {
                PortState::DeviceSelected
            }
        } else if self.torn_down {
            PortState::TornDown
        } else {
            PortState::Uninitialized
        }
    }

    /// The sample rate the current stream was built with; meaningful
    /// while the port has a stream.
    pub closed spec fn spec_stream_rate(&self) -> u32 {
        self.stream_rate
    }

    /// Whether the port has a stream.
    pub open spec fn spec_has_stream(&self) -> bool {
        state_has_stream(self.spec_state())
    }

    #[verifier::type_invariant]
    spec fn inv(&self) -> bool {
        self.enabled_device_index matches Some(i) ==> i < self.devices.len()
    }

    /// A port over the devices of `report`, whose streams are built at
    /// `sample_rate`.
    pub fn new(port_type: PortType, report: DeviceReport, sample_rate: u32) -> (port: Self)
        ensures
            constructed(port, port_type, report, sample_rate),
    {
        let enabled = match &report.default_device {
            Some(name) => if report.default_built {
                default_device_index(&report.names, name)
            } else {
                None
            },
            None => None,
        };
        AudioPort {
            port_type,
            devices: report.names,
            enabled_device_index: enabled,
            activity: PortState::DeviceSelected,
            torn_down: false,
            stream_rate: sample_rate,
        }
    }

    /// The direction this port serves.
    pub fn port_type(&self) -> (port_type: PortType)
        ensures
            port_type == self.spec_port_type(),
    {
        self.port_type
    }

    /// Where the port stands in its life.
    pub fn state(&self) -> (state: PortState)
        ensures
            state == self.spec_state(),
    {
        if self.enabled_device_index.is_some() {
            match self.activity {
                PortState::Streaming => PortState::Streaming,
                PortState::Paused => PortState::Paused,
                _ => PortState::DeviceSelected,
            }
        } else if self.torn_down {
            PortState::TornDown
        } else {
            PortState::Uninitialized
        }
    }

    /// Whether the port has a stream; it has one exactly when a device is
    /// enabled.
    pub fn has_stream(&self) -> (has: bool)
        ensures
            has == self.spec_has_stream(),
            has == (self.spec_enabled() is Some),
    {
        self.enabled_device_index.is_some()
    }

    /// The number of devices in the port's list.
    pub fn device_count(&self) -> (count: usize)
        ensures
            count == self.spec_devices().len(),
    {
        self.devices.len()
    }

    /// The names of the port's devices, in the order of enumeration.
    pub fn get_device_names(&self) -> (names: Vec<String>)
        ensures
            names.deep_view() == self.spec_devices(),
    {
        let mut names: Vec<String> = Vec::new();
        let mut i: usize = 0;
        while i < self.devices.len()
            invariant
                i <= self.devices.len(),
                names.len() == i,
                forall|j: int| 0 <= j < i ==> names[j]@ == self.devices[j]@,
            decreases self.devices.len() - i,
        {
            names.push(self.devices[i].clone());
            i = i + 1;
        }
        assert(names.deep_view() =~= self.devices.deep_view());
        names
    }

    /// The index of the enabled device; `None` when no device is
    /// enabled. An enabled device is always one of the list.
    pub fn get_enabled_device_index(&self) -> (index: Option<usize>)
        ensures
            index == self.spec_enabled(),
            index matches Some(i) ==> i < self.spec_devices().len(),
    {
        proof {
            use_type_invariant(self);
        }
        self.enabled_device_index
    }

    /// The sample rate the current stream was built with, if the port
    /// has a stream.
    pub fn stream_rate(&self) -> (rate: Option<u32>)
        ensures
            rate == if self.spec_has_stream() {
                Some(self.spec_stream_rate())
            } else {
                None
            },
    {
        if self.enabled_device_index.is_some() {
            Some(self.stream_rate)
        } else {
            None
        }
    }

    /// What has to be done, in this order, to enable the device at
    /// `index` with `settings`; nothing of the port changes.
    ///
    /// Fails with `DeviceNotFound` exactly when `index` is not in the
    /// list. Otherwise the steps end the old stream, if there is one,
    /// before they build the new one, and leave the new one paused.
    pub fn build_stream(&self, index: usize, settings: StreamSettings) -> (plan: Result<
        Vec<StreamAction>,
        AudioError,
    >)
        ensures
            planned(*self, index, settings, plan),
    {
        if index >= self.devices.len() {
            return Err(AudioError::DeviceNotFound);
        }
        let mut steps: Vec<StreamAction> = Vec::new();
        if self.enabled_device_index.is_some() {
            steps.push(StreamAction::Pause);
            steps.push(StreamAction::Release);
        }
        steps.push(StreamAction::Build { device: index, settings });
        steps.push(StreamAction::Pause);
        assert(steps@ =~= rebuild_steps(self.spec_has_stream(), index, settings));
        Ok(steps)
    }

    /// Records the outcome of enabling the device at `index`: `built`
    /// tells whether the host accepted the new stream, built at
    /// `sample_rate`. See [`enabled_outcome`].
    pub fn set_enabled_device_index(&mut self, index: usize, sample_rate: u32, built: bool) -> (result:
        Result<(), AudioError>)
        ensures
            enabled_outcome(*old(self), *final(self), index, sample_rate, built, result),
    {
        if index >= self.devices.len() {
            return Err(AudioError::DeviceNotFound);
        }
        if !built {
            self.enabled_device_index = None;
            self.torn_down = false;
            return Err(AudioError::StreamBuildError);
        }
        self.enabled_device_index = Some(index);
        self.activity = PortState::DeviceSelected;
        self.stream_rate = sample_rate;
        Ok(())
    }

    /// Starts or resumes the stream.
    ///
    /// Fails with `NoActiveStream`, and changes nothing, exactly when the
    /// port has no stream; otherwise the port is streaming.
    pub fn open_stream(&mut self) -> (result: Result<(), AudioError>)
        ensures
            switched(*old(self), *final(self), PortState::Streaming, result),
    {
        proof {
            use_type_invariant(&*self);
        }
        if self.enabled_device_index.is_none() {
            return Err(AudioError::NoActiveStream);
        }
        self.activity = PortState::Streaming;
        Ok(())
    }

    /// Halts the stream.
    ///
    /// Fails with `NoActiveStream`, and changes nothing, exactly when the
    /// port has no stream; otherwise the port is paused.
    pub fn close_stream(&mut self) -> (result: Result<(), AudioError>)
        ensures
            switched(*old(self), *final(self), PortState::Paused, result),
    {
        proof {
            use_type_invariant(&*self);
        }
        if self.enabled_device_index.is_none() {
            return Err(AudioError::NoActiveStream);
        }
        self.activity = PortState::Paused;
        Ok(())
    }

    /// Shuts the port down, whatever it was doing, and returns what has
    /// to be done to its stream: halt it and give it up, if there is one.
    pub fn tear_down(&mut self) -> (steps: Vec<StreamAction>)
        ensures
            shut_down(*old(self), *final(self), steps@),
    {
        let mut steps: Vec<StreamAction> = Vec::new();
        if self.enabled_device_index.is_some() {
            steps.push(StreamAction::Pause);
            steps.push(StreamAction::Release);
        }
        assert(steps@ =~= teardown_steps(old(self).spec_has_stream()));
        self.enabled_device_index = None;
        self.torn_down = true;
        steps
    }
}

/// A port has a stream exactly when a device is enabled: the stream is
/// bound to that one device, and there is no stream without one.
pub proof fn lemma_stream_iff_device_enabled(port: AudioPort)
    ensures
        port.spec_has_stream() <==> port.spec_enabled() is Some,
        port.spec_state() == PortState::Streaming || port.spec_state() == PortState::Paused
            ==> port.spec_enabled() is Some,
{
}

/// Switching devices never lets two streams of one port live at once: in
/// the steps of a switch exactly one stream is built, and when the port
/// had a stream, that stream is halted and given up before the build.
pub proof fn lemma_rebuild_ends_old_stream_first(
    has_stream: bool,
    device: usize,
    settings: StreamSettings,
)
    ensures
        ({
            let steps = rebuild_steps(has_stream, device, settings);
            let build = if has_stream {
                2int
            } else {
                0int
            };
            &&& steps.len() == build + 2
            &&& steps[build] == (StreamAction::Build { device, settings })
            &&& steps[build + 1] == StreamAction::Pause
            &&& forall|i: int| 0 <= i < steps.len() && steps[i] is Build ==> i == build
            &&& forall|i: int| 0 <= i < steps.len() && steps[i] == StreamAction::Release ==> i < build
            &&& has_stream ==> steps[0] == StreamAction::Pause && steps[1] == StreamAction::Release
        }),
{
}

/// After a device was enabled with success, the port has a stream on
/// that device and no other, whatever it had before; the stream has not
/// run yet.
pub proof fn lemma_enable_replaces_stream(
    before: AudioPort,
    after: AudioPort,
    index: usize,
    sample_rate: u32,
)
    requires
        enabled_outcome(before, after, index, sample_rate, true, Ok(())),
    ensures
        index < before.spec_devices().len(),
        after.spec_has_stream(),
        after.spec_enabled() == Some(index),
        after.spec_state() == PortState::DeviceSelected,
        after.spec_state() != PortState::Streaming,
{
}

} // verus!
