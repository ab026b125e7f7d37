//! Signaling: the messages exchanged with the rendezvous service and the
//! client that signs, queues and dispatches them.

pub mod client;
pub mod messages;

pub use messages::{
    AnswerPayload, ContactInfo, FindUserPayload, HangupPayload, HeartbeatPayload,
    IceCandidatePayload, OfferPayload, RegisterPayload, RejectCallPayload, ServerMessage,
    SignedMessage,
};
pub use client::{
    ClientState, Dispatch, RegistrationReply, SignalingClient, SignalingError, SignalingEvent,
};
