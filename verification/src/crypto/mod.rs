//! Cryptographic identity: the key pair and the canonical form of the
//! messages that it signs.

pub mod json;
pub mod keypair;

pub use json::{Json, JsonValue};
pub use keypair::{KeyPair, KeyPairError};
