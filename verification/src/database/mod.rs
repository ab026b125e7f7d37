//! The contacts that the application keeps.

pub mod contacts;

pub use contacts::{Contact, NewContact};
