//! Core of a peer-to-peer voice-call application: cryptographic identity,
//! signed signaling messages, the call state machine and bounded audio
//! buffering, each with machine-checked contracts.

pub mod call_engine;
pub mod crypto;
pub mod database;
pub mod orchestrator;
pub mod signaling;
