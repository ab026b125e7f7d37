//! The signaling client: what it knows of its connection, the signed
//! messages that it queues for sending, and what it makes of the messages
//! that the server sends.
//!
//! The client does no input or output. Whoever owns the socket reports the
//! connection and the server's messages to it, and takes the queued texts
//! out in the order in which they were queued.

use super::messages::{
    answer_json, find_user_json, hangup_json, heartbeat_json, ice_candidate_json, offer_json,
    register_json, reject_call_json, AnswerPayload, ContactInfo, FindUserPayload, HangupPayload,
    HeartbeatPayload, IceCandidatePayload, OfferPayload, RegisterPayload, RejectCallPayload,
    ServerMessage, SignedMessage,
};
use crate::crypto::json::{
    decimal_text, json_text, lemma_lookup_last, lemma_signature_set, lemma_without_key,
    number_text, signature_key, with_member, without_key, Json, JsonValue,
};
use crate::crypto::keypair::{
    base64_text, ed25519_signature, message_verifies, signed_bytes, KeyPair,
};
use chrono::Utc;
use vstd::prelude::*;

verus! {

/// Texts that the outbound queue holds at most.
pub const OUTBOUND_CAPACITY: usize = 100;

/// Seconds to wait for the server's answer to a registration.
pub const REGISTRATION_TIMEOUT_SECS: u64 = 10;

/// Seconds between two heartbeats.
pub const HEARTBEAT_INTERVAL_SECS: u64 = 25;

/// What can go wrong in signaling.
#[derive(Debug, Clone, PartialEq, Eq)]
pub enum SignalingError {
    ConnectionFailed(String),
    NotConnected,
    SendFailed(String),
    RegistrationFailed(String),
    ServerError { code: i32, message: String },
}

/// What the client tells those who listen to it.
#[derive(Debug, Clone, PartialEq, Eq)]
pub enum SignalingEvent {
    Connected,
    Disconnected,
    Registered { peer_id: String, username: String },
    UserFound(ContactInfo),
    UserNotFound { username: String },
    IncomingCall { from_peer_id: String, from_username: String, sdp: String },
    AnswerReceived { from_peer_id: String, sdp: String },
    IceCandidateReceived { from_peer_id: String, candidate: String },
    CallRejected { by_peer_id: String, reason: Option<String> },
    CallEnded { by_peer_id: String },
    ContactOnline { peer_id: String },
    ContactOffline { peer_id: String },
    Error { code: i32, message: String },
}

/// What the client knows of its connection.
#[derive(Debug, Clone, PartialEq, Eq)]
pub struct ClientState {
    pub is_connected: bool,
    pub peer_id: Option<String>,
    pub username: Option<String>,
}

/// What a message of the server leads to: an answer for whoever waits for
/// the registration, and an event for the listeners.
#[derive(Debug, PartialEq, Eq)]
pub struct Dispatch {
    pub registration: Option<Result<String, SignalingError>>,
    pub event: Option<SignalingEvent>,
}

/// How the wait for the server's answer to a registration ended.
#[derive(Debug, PartialEq, Eq)]
pub enum RegistrationReply {
    /// The server answered.
    Answered(Result<String, SignalingError>),
    /// The connection ended before an answer came.
    Closed,
    /// No answer came in time.
    TimedOut,
}

/// What an error says.
pub open spec fn error_text(e: SignalingError) -> Seq<char> {
    match e {
        SignalingError::ConnectionFailed(detail) => "WebSocket connection failed: "@ + detail@,
        SignalingError::NotConnected => "Not connected to signaling server"@,
        SignalingError::SendFailed(detail) => "Failed to send message: "@ + detail@,
        SignalingError::RegistrationFailed(detail) => "Registration failed: "@ + detail@,
        SignalingError::ServerError { code, message } => "Server error: "@ + decimal_text(
            code as int,
        ) + " - "@ + message@,
    }
}

/// Why a registration failed, given the error that answered it: what a
/// failed registration says of itself, and what any other error says.
pub open spec fn registration_failure(e: SignalingError) -> Seq<char> {
    match e {
        SignalingError::RegistrationFailed(detail) => detail@,
        other => error_text(other),
    }
}

impl SignalingError {
    /// What this error says.
    pub fn message(&self) -> (r: String)
        ensures
            r@ == error_text(*self),
    {
        match self {
            SignalingError::ConnectionFailed(detail) => {
                let mut text = String::from_str("WebSocket connection failed: ");
                text.append(detail.as_str());
                text
            },
            SignalingError::NotConnected => String::from_str("Not connected to signaling server"),
            SignalingError::SendFailed(detail) => {
                let mut text = String::from_str("Failed to send message: ");
                text.append(detail.as_str());
                text
            },
            SignalingError::RegistrationFailed(detail) => {
                let mut text = String::from_str("Registration failed: ");
                text.append(detail.as_str());
                text
            },
            SignalingError::ServerError { code, message } => {
                let mut text = String::from_str("Server error: ");
                let number = number_text(*code as i64);
                text.append(number.as_str());
                text.append(" - ");
                text.append(message.as_str());
                text
            },
        }
    }
}

/// `Utc::now` and `DateTime::timestamp_millis`: the milliseconds since
/// the Unix epoch, by the machine's clock. Nothing is claimed of it.
#[verifier::external_body]
fn now_millis() -> (now: i64) {
    Utc::now().timestamp_millis()
}

/// A text with every occurrence of a pattern replaced, as `str::replace`
/// does it.
pub uninterp spec fn replaced(text: Seq<char>, from: Seq<char>, to: Seq<char>) -> Seq<char>;

/// `str::replace`.
#[verifier::external_body]
fn replace_all(text: &str, from: &str, to: &str) -> (r: String)
    ensures
        r@ == replaced(text@, from@, to@),
{
    text.replace(from, to)
}

/// The payload with the time of sending set.
pub open spec fn signable(payload: Json, timestamp: i64) -> Json {
    with_member(payload, "timestamp"@, Json::Number(timestamp))
}

/// The signature, as Base64 text, that the key of `seed` puts on a payload
/// sent at `timestamp`.
pub open spec fn signature_text(payload: Json, timestamp: i64, seed: Seq<u8>) -> Seq<char> {
    base64_text(ed25519_signature(seed, signed_bytes(signable(payload, timestamp))))
}

/// The message that goes out for a payload: the payload's members, then
/// `timestamp`, then `signature`.
pub open spec fn sealed(payload: Json, timestamp: i64, seed: Seq<u8>) -> Json {
    with_member(
        signable(payload, timestamp),
        signature_key(),
        Json::Text(signature_text(payload, timestamp, seed)),
    )
}

/// `text` is the compact JSON text of `payload`, sealed at some time with
/// `key`; and where the payload is an object, the signature in the sealed
/// message verifies under the public key of `key`.
pub open spec fn framed(payload: Json, key: KeyPair, text: Seq<char>) -> bool {
    exists|timestamp: i64|
        {
            &&& text == json_text(#[trigger] sealed(payload, timestamp, key.seed()))
            &&& payload is Object ==> message_verifies(
                key.public_key(),
                sealed(payload, timestamp, key.seed()),
            )
        }
}

/// What the server's address becomes for the WebSocket: `http` replaced by
/// `ws` wherever it stands, and `/ws` behind.
pub open spec fn websocket_url_of(server_url: Seq<char>) -> Seq<char> {
    replaced(server_url, "http"@, "ws"@) + "/ws"@
}

/// What a message of the server leads to.
pub open spec fn dispatch_of(msg: ServerMessage) -> Dispatch {
    match msg {
        ServerMessage::Registered { peer_id, username, timestamp } => Dispatch {
            registration: Some(Ok(peer_id)),
            event: Some(SignalingEvent::Registered { peer_id, username }),
        },
        ServerMessage::UserFound { peer_id, username, is_online, timestamp } => Dispatch {
            registration: None,
            event: Some(SignalingEvent::UserFound(ContactInfo { peer_id, username, is_online })),
        },
        ServerMessage::UserNotFound { username, timestamp } => Dispatch {
            registration: None,
            event: Some(SignalingEvent::UserNotFound { username }),
        },
        ServerMessage::IncomingOffer { from_peer_id, from_username, sdp, timestamp } => Dispatch {
            registration: None,
            event: Some(SignalingEvent::IncomingCall { from_peer_id, from_username, sdp }),
        },
        ServerMessage::IncomingAnswer { from_peer_id, sdp, timestamp } => Dispatch {
            registration: None,
            event: Some(SignalingEvent::AnswerReceived { from_peer_id, sdp }),
        },
        ServerMessage::IncomingIceCandidate { from_peer_id, candidate, timestamp } => Dispatch {
            registration: None,
            event: Some(SignalingEvent::IceCandidateReceived { from_peer_id, candidate }),
        },
        ServerMessage::CallRejected { by_peer_id, reason, timestamp } => Dispatch {
            registration: None,
            event: Some(SignalingEvent::CallRejected { by_peer_id, reason }),
        },
        ServerMessage::CallEnded { by_peer_id, timestamp } => Dispatch {
            registration: None,
            event: Some(SignalingEvent::CallEnded { by_peer_id }),
        },
        ServerMessage::UserOnline { peer_id, timestamp } => Dispatch {
            registration: None,
            event: Some(SignalingEvent::ContactOnline { peer_id }),
        },
        ServerMessage::UserOffline { peer_id, timestamp } => Dispatch {
            registration: None,
            event: Some(SignalingEvent::ContactOffline { peer_id }),
        },
        ServerMessage::Error { code, message, timestamp } => Dispatch {
            registration: Some(Err(SignalingError::ServerError { code, message })),
            event: Some(SignalingEvent::Error { code, message }),
        },
        ServerMessage::Pong { timestamp } => Dispatch { registration: None, event: None },
    }
}

/// What the client knows of its connection after a message of the server:
/// a registration names it, nothing else changes anything.
pub open spec fn state_after(state: ClientState, msg: ServerMessage) -> ClientState {
    match msg {
        ServerMessage::Registered { peer_id, username, timestamp } => ClientState {
            is_connected: state.is_connected,
            peer_id: Some(peer_id),
            username: Some(username),
        },
        _ => state,
    }
}

impl SignedMessage {
    /// This message as the JSON object that is sent: the payload's members,
    /// then `timestamp`, then `signature`.
    pub open spec fn json(&self) -> Json {
        with_member(
            with_member(self.payload@, "timestamp"@, Json::Number(self.timestamp)),
            signature_key(),
            Json::Text(self.signature@),
        )
    }

    /// Signs a payload for sending at `timestamp`. The signature of a
    /// payload that is an object verifies on the message that goes out.
    pub fn new(keypair: &KeyPair, payload: JsonValue, timestamp: i64) -> (r: SignedMessage)
        requires
            keypair.wf(),
        ensures
            r.payload == payload,
            r.timestamp == timestamp,
            r.signature@ == signature_text(payload@, timestamp, keypair.seed()),
            r.json() == sealed(payload@, timestamp, keypair.seed()),
            payload@ is Object ==> message_verifies(keypair.public_key(), r.json()),
    {
        let with_time = payload.with("timestamp", JsonValue::Number(timestamp));
        let signature = keypair.sign_message(&with_time);
        let r = SignedMessage { payload, timestamp, signature };
        proof {
            if let Json::Object(members) = with_time@ {
                let kept = without_key(members, signature_key());
                lemma_without_key(members, signature_key());
                lemma_lookup_last(kept, signature_key(), Json::Text(signature@));
                lemma_signature_set(members, Json::Text(signature@));
            }
        }
        r
    }

    /// This message as the JSON object that is sent.
    pub fn to_json(&self) -> (r: JsonValue)
        ensures
            r@ == self.json(),
    {
        let with_time = self.payload.with("timestamp", JsonValue::Number(self.timestamp));
        with_time.with("signature", JsonValue::Text(self.signature.clone()))
    }
}

/// The text that goes out for a payload sent at `timestamp`.
pub fn frame_message(keypair: &KeyPair, payload: JsonValue, timestamp: i64) -> (text: String)
    requires
        keypair.wf(),
    ensures
        text@ == json_text(sealed(payload@, timestamp, keypair.seed())),
        payload@ is Object ==> message_verifies(
            keypair.public_key(),
            sealed(payload@, timestamp, keypair.seed()),
        ),
        framed(payload@, *keypair, text@),
{
    SignedMessage::new(keypair, payload, timestamp).to_json().to_json_text()
}

/// The texts of a queue.
pub open spec fn texts(queue: Seq<String>) -> Seq<Seq<char>> {
    queue.map_values(|s: String| s@)
}

/// The signaling client.
pub struct SignalingClient {
    server_url: String,
    keypair: KeyPair,
    state: ClientState,
    has_sender: bool,
    outbound: Vec<String>,
}

impl SignalingClient {
    /// The key pair is well formed and the queue within its capacity.
    pub closed spec fn wf(&self) -> bool {
        self.keypair.wf() && self.outbound@.len() <= OUTBOUND_CAPACITY
    }

    /// What the client knows of its connection.
    pub closed spec fn client_state(&self) -> ClientState {
        self.state
    }

    /// The texts queued for sending, oldest first.
    pub closed spec fn queue(&self) -> Seq<Seq<char>> {
        texts(self.outbound@)
    }

    /// Whether there is a connection to queue texts for.
    pub closed spec fn has_sender(&self) -> bool {
        self.has_sender
    }

    /// The key pair that signs what the client sends.
    pub closed spec fn key(&self) -> KeyPair {
        self.keypair
    }

    /// The address of the server.
    pub closed spec fn url(&self) -> Seq<char> {
        self.server_url@
    }

    /// All but the queue is the same in `self` and `other`.
    pub open spec fn same_but_queue(&self, other: &Self) -> bool {
        &&& self.client_state() == other.client_state()
        &&& self.has_sender() == other.has_sender()
        &&& self.key() == other.key()
        &&& self.url() == other.url()
    }

    /// The queue never holds more than its capacity.
    pub proof fn lemma_queue_bounded(&self)
        requires
            self.wf(),
        ensures
            self.queue().len() <= OUTBOUND_CAPACITY,
            self.key().wf(),
    {
    }

    /// What an attempt to queue `payload` without waiting leads to: no
    /// connection, a full queue, or the framed text behind all others.
    pub open spec fn queued(
        before: &Self,
        after: &Self,
        r: Result<(), SignalingError>,
        payload: Json,
    ) -> bool {
        &&& after.same_but_queue(before)
        &&& if !before.has_sender() {
            r == Err::<(), SignalingError>(SignalingError::NotConnected) && after.queue()
                == before.queue()
        } else if before.queue().len() >= OUTBOUND_CAPACITY {
            (r matches Err(SignalingError::SendFailed(m)) && m@ == "no available capacity"@)
                && after.queue() == before.queue()
        } else {
            r is Ok && after.queue().len() == before.queue().len() + 1
                && after.queue().drop_last() == before.queue() && framed(
                payload,
                before.key(),
                after.queue().last(),
            )
        }
    }

    /// What framing `payload` for a sender that may wait leads to.
    pub open spec fn prepared(&self, r: Result<String, SignalingError>, payload: Json) -> bool {
        if !self.has_sender() {
            r == Err::<String, SignalingError>(SignalingError::NotConnected)
        } else {
            r matches Ok(text) && framed(payload, self.key(), text@)
        }
    }

    /// A client for the server at `server_url`: not connected, nothing
    /// queued.
    pub fn new(server_url: String, keypair: KeyPair) -> (r: Self)
        requires
            keypair.wf(),
        ensures
            r.wf(),
            r.url() == server_url@,
            r.key() == keypair,
            !r.has_sender(),
            r.queue().len() == 0,
            r.client_state() == (ClientState { is_connected: false, peer_id: None, username: None }),
    {
        SignalingClient {
            server_url,
            keypair,
            state: ClientState { is_connected: false, peer_id: None, username: None },
            has_sender: false,
            outbound: Vec::new(),
        }
    }

    /// The key pair that signs what the client sends.
    pub fn keypair(&self) -> (r: &KeyPair)
        ensures
            *r == self.key(),
    {
        &self.keypair
    }

    /// The peer id under which the client is registered, if it is.
    pub fn peer_id(&self) -> (r: Option<String>)
        ensures
            r == self.client_state().peer_id,
    {
        match &self.state.peer_id {
            Some(id) => Some(id.clone()),
            None => None,
        }
    }

    /// The user name that the client asked for or was registered under.
    pub fn username(&self) -> (r: Option<String>)
        ensures
            r == self.client_state().username,
    {
        match &self.state.username {
            Some(name) => Some(name.clone()),
            None => None,
        }
    }

    /// Whether the socket is open.
    pub fn is_connected(&self) -> (r: bool)
        ensures
            r == self.client_state().is_connected,
    {
        self.state.is_connected
    }

    /// The address to open the WebSocket at.
    pub fn websocket_url(&self) -> (r: String)
        ensures
            r@ == websocket_url_of(self.url()),
    {
        let mut url = replace_all(self.server_url.as_str(), "http", "ws");
        url.append("/ws");
        url
    }

    /// Takes note that the socket is open, and queues the registration of
    /// `username` under the client's public key. The queue starts anew.
    pub fn connect_and_register(&mut self, username: String) -> (event: SignalingEvent)
        requires
            old(self).wf(),
        ensures
            final(self).wf(),
            event == SignalingEvent::Connected,
            final(self).has_sender(),
            final(self).key() == old(self).key(),
            final(self).url() == old(self).url(),
            final(self).client_state() == (ClientState {
                is_connected: true,
                peer_id: old(self).client_state().peer_id,
                username: Some(username),
            }),
            final(self).queue().len() == 1,
            framed(
                register_json(username@, base64_text(old(self).key().public_key())),
                old(self).key(),
                final(self).queue()[0],
            ),
    {
        self.has_sender = true;
        self.outbound = Vec::new();
        let payload = RegisterPayload::new(username.clone(), self.keypair.public_key_base64());
        self.state.is_connected = true;
        self.state.username = Some(username);
        let text = frame_message(&self.keypair, payload.to_json(), now_millis());
        self.outbound.push(text);
        SignalingEvent::Connected
    }

    /// What the wait for the server's answer to the registration comes to:
    /// the peer id that the server gave, or a failed registration: where
    /// the server answered with an error, where the connection ended, and
    /// where no answer came in time.
    pub fn finish_registration(reply: RegistrationReply) -> (r: Result<String, SignalingError>)
        ensures
            match reply {
                RegistrationReply::Answered(answer) => match answer {
                    Ok(peer_id) => r == Ok::<String, SignalingError>(peer_id),
                    Err(e) => r matches Err(SignalingError::RegistrationFailed(m)) && m@
                        == registration_failure(e),
                },
                RegistrationReply::Closed => r matches Err(SignalingError::RegistrationFailed(m))
                    && m@ == "No response"@,
                RegistrationReply::TimedOut => r matches Err(SignalingError::RegistrationFailed(m))
                    && m@ == "Timeout"@,
            },
    {
        match reply {
            RegistrationReply::Answered(Ok(peer_id)) => Ok(peer_id),
            RegistrationReply::Answered(Err(SignalingError::RegistrationFailed(detail))) => Err(
                SignalingError::RegistrationFailed(detail),
            ),
            RegistrationReply::Answered(Err(e)) => Err(
                SignalingError::RegistrationFailed(e.message()),
            ),
            RegistrationReply::Closed => Err(
                SignalingError::RegistrationFailed(String::from_str("No response")),
            ),
            RegistrationReply::TimedOut => Err(
                SignalingError::RegistrationFailed(String::from_str("Timeout")),
            ),
        }
    }

    /// Takes note that the socket closed or failed.
    pub fn connection_closed(&mut self) -> (event: SignalingEvent)
        requires
            old(self).wf(),
        ensures
            final(self).wf(),
            event == SignalingEvent::Disconnected,
            final(self).client_state() == (ClientState {
                is_connected: false,
                peer_id: old(self).client_state().peer_id,
                username: old(self).client_state().username,
            }),
            final(self).has_sender() == old(self).has_sender(),
            final(self).queue() == old(self).queue(),
            final(self).key() == old(self).key(),
            final(self).url() == old(self).url(),
    {
        self.state.is_connected = false;
        SignalingEvent::Disconnected
    }

    /// Takes in a message of the server.
    pub fn handle_server_message(&mut self, msg: ServerMessage) -> (d: Dispatch)
        requires
            old(self).wf(),
        ensures
            final(self).wf(),
            d == dispatch_of(msg),
            final(self).client_state() == state_after(old(self).client_state(), msg),
            final(self).has_sender() == old(self).has_sender(),
            final(self).queue() == old(self).queue(),
            final(self).key() == old(self).key(),
            final(self).url() == old(self).url(),
    {
        match msg {
            ServerMessage::Registered { peer_id, username, timestamp } => {
                self.state.peer_id = Some(peer_id.clone());
                self.state.username = Some(username.clone());
                Dispatch {
                    registration: Some(Ok(peer_id.clone())),
                    event: Some(SignalingEvent::Registered { peer_id, username }),
                }
            },
            ServerMessage::UserFound { peer_id, username, is_online, timestamp } => Dispatch {
                registration: None,
                event: Some(
                    SignalingEvent::UserFound(ContactInfo { peer_id, username, is_online }),
                ),
            },
            ServerMessage::UserNotFound { username, timestamp } => Dispatch {
                registration: None,
                event: Some(SignalingEvent::UserNotFound { username }),
            },
            ServerMessage::IncomingOffer { from_peer_id, from_username, sdp, timestamp } => {
                Dispatch {
                    registration: None,
                    event: Some(SignalingEvent::IncomingCall { from_peer_id, from_username, sdp }),
                }
            },
            ServerMessage::IncomingAnswer { from_peer_id, sdp, timestamp } => Dispatch {
                registration: None,
                event: Some(SignalingEvent::AnswerReceived { from_peer_id, sdp }),
            },
            ServerMessage::IncomingIceCandidate { from_peer_id, candidate, timestamp } => Dispatch {
                registration: None,
                event: Some(SignalingEvent::IceCandidateReceived { from_peer_id, candidate }),
            },
            ServerMessage::CallRejected { by_peer_id, reason, timestamp } => Dispatch {
                registration: None,
                event: Some(SignalingEvent::CallRejected { by_peer_id, reason }),
            },
            ServerMessage::CallEnded { by_peer_id, timestamp } => Dispatch {
                registration: None,
                event: Some(SignalingEvent::CallEnded { by_peer_id }),
            },
            ServerMessage::UserOnline { peer_id, timestamp } => Dispatch {
                registration: None,
                event: Some(SignalingEvent::ContactOnline { peer_id }),
            },
            ServerMessage::UserOffline { peer_id, timestamp } => Dispatch {
                registration: None,
                event: Some(SignalingEvent::ContactOffline { peer_id }),
            },
            ServerMessage::Error { code, message, timestamp } => Dispatch {
                registration: Some(
                    Err(SignalingError::ServerError { code, message: message.clone() }),
                ),
                event: Some(SignalingEvent::Error { code, message }),
            },
            ServerMessage::Pong { timestamp } => Dispatch { registration: None, event: None },
        }
    }

    /// Frames a payload for a sender that may wait for room.
    pub fn send_signed_message(&self, payload: JsonValue) -> (r: Result<String, SignalingError>)
        requires
            self.wf(),
        ensures
            self.prepared(r, payload@),
    {
        if !self.has_sender {
            return Err(SignalingError::NotConnected);
        }
        Ok(frame_message(&self.keypair, payload, now_millis()))
    }

    /// Frames a payload and queues the text without waiting: where the
    /// queue is full the text is dropped and the attempt fails.
    pub fn send_signed_message_sync(&mut self, payload: JsonValue) -> (r: Result<
        (),
        SignalingError,
    >)
        requires
            old(self).wf(),
        ensures
            final(self).wf(),
            Self::queued(old(self), final(self), r, payload@),
    {
        if !self.has_sender {
            return Err(SignalingError::NotConnected);
        }
        let text = frame_message(&self.keypair, payload, now_millis());
        let ghost before = self.queue();
        match self.enqueue(text) {
            Ok(()) => {
                assert(self.queue().drop_last() =~= before);
                Ok(())
            },
            Err(_) => Err(SignalingError::SendFailed(String::from_str("no available capacity"))),
        }
    }

    /// Puts a framed text behind the queued ones where there is room; a
    /// full queue stays as it is and the text comes back.
    pub fn enqueue(&mut self, text: String) -> (r: Result<(), String>)
        requires
            old(self).wf(),
        ensures
            final(self).wf(),
            final(self).same_but_queue(old(self)),
            old(self).queue().len() < OUTBOUND_CAPACITY ==> r is Ok && final(self).queue() == old(
                self).queue().push(text@),
            old(self).queue().len() >= OUTBOUND_CAPACITY ==> r == Err::<(), String>(text)
                && final(self).queue() == old(self).queue(),
    {
        if self.outbound.len() >= OUTBOUND_CAPACITY {
            return Err(text);
        }
        let ghost before = self.outbound@;
        self.outbound.push(text);
        assert(texts(self.outbound@) =~= texts(before).push(text@));
        Ok(())
    }

    /// Takes the oldest queued text out for sending.
    pub fn next_outbound(&mut self) -> (r: Option<String>)
        requires
            old(self).wf(),
        ensures
            final(self).wf(),
            final(self).same_but_queue(old(self)),
            match r {
                Some(text) => old(self).queue().len() > 0 && text@ == old(self).queue()[0]
                    && final(self).queue() == old(self).queue().skip(1),
                None => old(self).queue().len() == 0 && final(self).queue() == old(self).queue(),
            },
    {
        if self.outbound.len() == 0 {
            return None;
        }
        let ghost before = self.outbound@;
        let text = self.outbound.remove(0);
        assert(texts(self.outbound@) =~= texts(before).skip(1));
        Some(text)
    }

    /// Asks the server for a user by name. The text that comes back is for a sender that may wait
    /// for room; without a registration there is nothing to send.
    pub fn find_user(&self, target_username: String) -> (r: Result<String, SignalingError>)
        requires
            self.wf(),
        ensures
            match self.client_state().peer_id {
                None => r == Err::<String, SignalingError>(SignalingError::NotConnected),
                Some(me) => self.prepared(r, find_user_json(me@, target_username@)),
            },
    {
        match self.peer_id() {
            None => Err(SignalingError::NotConnected),
            Some(me) => {
                self.send_signed_message(FindUserPayload::new(me, target_username).to_json())
            },
        }
    }

    /// Asks the server for a user by name. The text is queued without waiting; without a
    /// registration, without a connection or with a full queue nothing is
    /// queued and the attempt fails.
    pub fn find_user_sync(&mut self, target_username: String) -> (r: Result<(), SignalingError>)
        requires
            old(self).wf(),
        ensures
            final(self).wf(),
            match old(self).client_state().peer_id {
                None => r == Err::<(), SignalingError>(SignalingError::NotConnected)
                    && final(self).same_but_queue(old(self))
                    && final(self).queue() == old(self).queue(),
                Some(me) => {
                    Self::queued(old(self), final(self), r, find_user_json(me@, target_username@))
                },
            },
    {
        match self.peer_id() {
            None => Err(SignalingError::NotConnected),
            Some(me) => {
                self.send_signed_message_sync(FindUserPayload::new(me, target_username).to_json())
            },
        }
    }

    /// Sends an SDP offer to a peer. The text that comes back is for a sender that may wait
    /// for room; without a registration there is nothing to send.
    pub fn send_offer(&self, to_peer_id: String, sdp: String) -> (r: Result<String, SignalingError>)
        requires
            self.wf(),
        ensures
            match self.client_state().peer_id {
                None => r == Err::<String, SignalingError>(SignalingError::NotConnected),
                Some(me) => self.prepared(r, offer_json(me@, to_peer_id@, sdp@)),
            },
    {
        match self.peer_id() {
            None => Err(SignalingError::NotConnected),
            Some(me) => self.send_signed_message(OfferPayload::new(me, to_peer_id, sdp).to_json()),
        }
    }

    /// Sends an SDP offer to a peer. The text is queued without waiting; without a
    /// registration, without a connection or with a full queue nothing is
    /// queued and the attempt fails.
    pub fn send_offer_sync(
        &mut self,
        to_peer_id: String,
        sdp: String,
    ) -> (r: Result<(), SignalingError>)
        requires
            old(self).wf(),
        ensures
            final(self).wf(),
            match old(self).client_state().peer_id {
                None => r == Err::<(), SignalingError>(SignalingError::NotConnected)
                    && final(self).same_but_queue(old(self))
                    && final(self).queue() == old(self).queue(),
                Some(me) => {
                    Self::queued(old(self), final(self), r, offer_json(me@, to_peer_id@, sdp@))
                },
            },
    {
        match self.peer_id() {
            None => Err(SignalingError::NotConnected),
            Some(me) => {
                self.send_signed_message_sync(OfferPayload::new(me, to_peer_id, sdp).to_json())
            },
        }
    }

    /// Sends an SDP answer to a peer. The text that comes back is for a sender that may wait
    /// for room; without a registration there is nothing to send.
    pub fn send_answer(
        &self,
        to_peer_id: String,
        sdp: String,
    ) -> (r: Result<String, SignalingError>)
        requires
            self.wf(),
        ensures
            match self.client_state().peer_id {
                None => r == Err::<String, SignalingError>(SignalingError::NotConnected),
                Some(me) => self.prepared(r, answer_json(me@, to_peer_id@, sdp@)),
            },
    {
        match self.peer_id() {
            None => Err(SignalingError::NotConnected),
            Some(me) => self.send_signed_message(AnswerPayload::new(me, to_peer_id, sdp).to_json()),
        }
    }

    /// Sends an SDP answer to a peer. The text is queued without waiting; without a
    /// registration, without a connection or with a full queue nothing is
    /// queued and the attempt fails.
    pub fn send_answer_sync(
        &mut self,
        to_peer_id: String,
        sdp: String,
    ) -> (r: Result<(), SignalingError>)
        requires
            old(self).wf(),
        ensures
            final(self).wf(),
            match old(self).client_state().peer_id {
                None => r == Err::<(), SignalingError>(SignalingError::NotConnected)
                    && final(self).same_but_queue(old(self))
                    && final(self).queue() == old(self).queue(),
                Some(me) => {
                    Self::queued(old(self), final(self), r, answer_json(me@, to_peer_id@, sdp@))
                },
            },
    {
        match self.peer_id() {
            None => Err(SignalingError::NotConnected),
            Some(me) => {
                self.send_signed_message_sync(AnswerPayload::new(me, to_peer_id, sdp).to_json())
            },
        }
    }

    /// Sends an ICE candidate to a peer. The text that comes back is for a sender that may wait
    /// for room; without a registration there is nothing to send.
    pub fn send_ice_candidate(
        &self,
        to_peer_id: String,
        candidate: String,
    ) -> (r: Result<String, SignalingError>)
        requires
            self.wf(),
        ensures
            match self.client_state().peer_id {
                None => r == Err::<String, SignalingError>(SignalingError::NotConnected),
                Some(me) => self.prepared(r, ice_candidate_json(me@, to_peer_id@, candidate@)),
            },
    {
        match self.peer_id() {
            None => Err(SignalingError::NotConnected),
            Some(me) => {
                self.send_signed_message(IceCandidatePayload::new(me, to_peer_id, candidate).to_json())
            },
        }
    }

    /// Sends an ICE candidate to a peer. The text is queued without waiting; without a
    /// registration, without a connection or with a full queue nothing is
    /// queued and the attempt fails.
    pub fn send_ice_candidate_sync(
        &mut self,
        to_peer_id: String,
        candidate: String,
    ) -> (r: Result<(), SignalingError>)
        requires
            old(self).wf(),
        ensures
            final(self).wf(),
            match old(self).client_state().peer_id {
                None => r == Err::<(), SignalingError>(SignalingError::NotConnected)
                    && final(self).same_but_queue(old(self))
                    && final(self).queue() == old(self).queue(),
                Some(me) => {
                    Self::queued(old(self), final(self), r, ice_candidate_json(me@, to_peer_id@, candidate@))
                },
            },
    {
        match self.peer_id() {
            None => Err(SignalingError::NotConnected),
            Some(me) => {
                self.send_signed_message_sync(IceCandidatePayload::new(me, to_peer_id, candidate).to_json())
            },
        }
    }

    /// Refuses the call of a peer. The text that comes back is for a sender that may wait
    /// for room; without a registration there is nothing to send.
    pub fn reject_call(
        &self,
        to_peer_id: String,
        reason: Option<String>,
    ) -> (r: Result<String, SignalingError>)
        requires
            self.wf(),
        ensures
            match self.client_state().peer_id {
                None => r == Err::<String, SignalingError>(SignalingError::NotConnected),
                Some(me) => self.prepared(r, reject_call_json(
                    me@,
                    to_peer_id@,
                    match reason {
                        Some(text) => Some(text@),
                        None => None,
                    },
                )),
            },
    {
        match self.peer_id() {
            None => Err(SignalingError::NotConnected),
            Some(me) => {
                self.send_signed_message(RejectCallPayload::new(me, to_peer_id, reason).to_json())
            },
        }
    }

    /// Refuses the call of a peer. The text is queued without waiting; without a
    /// registration, without a connection or with a full queue nothing is
    /// queued and the attempt fails.
    pub fn reject_call_sync(
        &mut self,
        to_peer_id: String,
        reason: Option<String>,
    ) -> (r: Result<(), SignalingError>)
        requires
            old(self).wf(),
        ensures
            final(self).wf(),
            match old(self).client_state().peer_id {
                None => r == Err::<(), SignalingError>(SignalingError::NotConnected)
                    && final(self).same_but_queue(old(self))
                    && final(self).queue() == old(self).queue(),
                Some(me) => Self::queued(old(self), final(self), r, reject_call_json(
                    me@,
                    to_peer_id@,
                    match reason {
                        Some(text) => Some(text@),
                        None => None,
                    },
                )),
            },
    {
        match self.peer_id() {
            None => Err(SignalingError::NotConnected),
            Some(me) => {
                self.send_signed_message_sync(RejectCallPayload::new(me, to_peer_id, reason).to_json())
            },
        }
    }

    /// Ends the call with a peer. The text that comes back is for a sender that may wait
    /// for room; without a registration there is nothing to send.
    pub fn hangup(&self, to_peer_id: String) -> (r: Result<String, SignalingError>)
        requires
            self.wf(),
        ensures
            match self.client_state().peer_id {
                None => r == Err::<String, SignalingError>(SignalingError::NotConnected),
                Some(me) => self.prepared(r, hangup_json(me@, to_peer_id@)),
            },
    {
        match self.peer_id() {
            None => Err(SignalingError::NotConnected),
            Some(me) => self.send_signed_message(HangupPayload::new(me, to_peer_id).to_json()),
        }
    }

    /// Ends the call with a peer. The text is queued without waiting; without a
    /// registration, without a connection or with a full queue nothing is
    /// queued and the attempt fails.
    pub fn hangup_sync(&mut self, to_peer_id: String) -> (r: Result<(), SignalingError>)
        requires
            old(self).wf(),
        ensures
            final(self).wf(),
            match old(self).client_state().peer_id {
                None => r == Err::<(), SignalingError>(SignalingError::NotConnected)
                    && final(self).same_but_queue(old(self))
                    && final(self).queue() == old(self).queue(),
                Some(me) => Self::queued(old(self), final(self), r, hangup_json(me@, to_peer_id@)),
            },
    {
        match self.peer_id() {
            None => Err(SignalingError::NotConnected),
            Some(me) => self.send_signed_message_sync(HangupPayload::new(me, to_peer_id).to_json()),
        }
    }

    /// Sends a sign of life. The text that comes back is for a sender that may wait
    /// for room; without a registration there is nothing to send.
    pub fn send_heartbeat(&self) -> (r: Result<String, SignalingError>)
        requires
            self.wf(),
        ensures
            match self.client_state().peer_id {
                None => r == Err::<String, SignalingError>(SignalingError::NotConnected),
                Some(me) => self.prepared(r, heartbeat_json(me@)),
            },
    {
        match self.peer_id() {
            None => Err(SignalingError::NotConnected),
            Some(me) => self.send_signed_message(HeartbeatPayload::new(me).to_json()),
        }
    }

    /// Sends a sign of life. The text is queued without waiting; without a
    /// registration, without a connection or with a full queue nothing is
    /// queued and the attempt fails.
    pub fn send_heartbeat_sync(&mut self) -> (r: Result<(), SignalingError>)
        requires
            old(self).wf(),
        ensures
            final(self).wf(),
            match old(self).client_state().peer_id {
                None => r == Err::<(), SignalingError>(SignalingError::NotConnected)
                    && final(self).same_but_queue(old(self))
                    && final(self).queue() == old(self).queue(),
                Some(me) => Self::queued(old(self), final(self), r, heartbeat_json(me@)),
            },
    {
        match self.peer_id() {
            None => Err(SignalingError::NotConnected),
            Some(me) => self.send_signed_message_sync(HeartbeatPayload::new(me).to_json()),
        }
    }

    /// What is due when the time for a heartbeat has come: nothing more,
    /// ever, once the connection is gone; otherwise a heartbeat, queued
    /// without waiting, with the outcome of queueing it.
    pub fn heartbeat_tick(&mut self) -> (r: Option<Result<(), SignalingError>>)
        requires
            old(self).wf(),
        ensures
            final(self).wf(),
            r is None <==> !old(self).client_state().is_connected,
            match r {
                None => final(self).same_but_queue(old(self))
                    && final(self).queue() == old(self).queue(),
                Some(sent) => match old(self).client_state().peer_id {
                    None => sent == Err::<(), SignalingError>(SignalingError::NotConnected)
                        && final(self).same_but_queue(old(self))
                            && final(self).queue() == old(self).queue(),
                    Some(me) => Self::queued(old(self), final(self), sent, heartbeat_json(me@)),
                },
            },
    {
        if !self.state.is_connected {
            return None;
        }
        Some(self.send_heartbeat_sync())
    }
}

} // verus!
