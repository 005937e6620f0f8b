//! Failures of the control operations.

use vstd::prelude::*;

verus! {

/// Why a control operation was refused. Each one is local and recoverable:
/// the caller may try again with other input. Overrun and underrun of the
/// sample queue are not among them; they are counted, never raised.
#[derive(Clone, Copy, Debug, PartialEq, Eq, Structural)]
pub enum AudioError {
    /// The index names no device of the port's list.
    DeviceNotFound,
    /// The host rejected the requested stream configuration.
    StreamBuildError,
    /// Play or pause was asked of a port that has no stream.
    NoActiveStream,
    /// The sample rate is not one of the supported rates.
    UnsupportedSampleRate,
}

impl AudioError {
    /// The text that describes this error, as a sequence of characters.
    pub open spec fn spec_message(self) -> Seq<char> {
        match self {
            AudioError::DeviceNotFound => "no device at that index"@,
            AudioError::StreamBuildError => "the host rejected the stream configuration"@,
            AudioError::NoActiveStream => "no stream has been built for this port"@,
            AudioError::UnsupportedSampleRate => "unsupported sample rate"@,
        }
    }

    /// A one-line description for display.
    pub fn message(&self) -> (text: String)
        ensures
            text@ == self.spec_message(),
    {
        match self {
            AudioError::DeviceNotFound => "no device at that index".to_owned(),
            AudioError::StreamBuildError => "the host rejected the stream configuration".to_owned(),
            AudioError::NoActiveStream => "no stream has been built for this port".to_owned(),
            AudioError::UnsupportedSampleRate => "unsupported sample rate".to_owned(),
        }
    }
}

} // verus!
