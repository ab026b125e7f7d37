//! Call engine: audio buffering and the call state machine.

pub mod audio;
pub mod engine;
pub mod network;
pub mod ring;

pub use audio::{
    AudioError, AudioHandler, StreamChoice, SupportedRange, CHANNELS, FRAME_SIZE, SAMPLE_RATE,
};
pub use engine::{
    default_ice_servers, CallEngine, CallEngineError, CallEvent, CallState, IceServer,
    RtcConnectionState, RtcFailure,
};
