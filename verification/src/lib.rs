//! Sequential core of a real-time audio pipeline: a bounded sample queue,
//! the bookkeeping around a spectral round trip, and the control state of
//! the capture and render ports.

pub mod audio_context;
pub mod error;
pub mod io_manager;
pub mod port;
pub mod ring_buffer;
pub mod settings;
pub mod spectral;
