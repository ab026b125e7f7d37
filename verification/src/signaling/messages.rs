//! The messages of the signaling protocol.
//!
//! What the client sends is a JSON object with a `type` and fields in camel
//! case; [`SignedMessage`] adds the time and the signature. What the server
//! sends is a [`ServerMessage`].

use crate::crypto::json::{
    bool_at, members_view, number_at, optional_text_at, text_at, text_member, Json, JsonValue,
};
use vstd::prelude::*;

verus! {

/// A payload with the time of sending and the signature over both.
#[derive(Debug)]
pub struct SignedMessage {
    pub payload: JsonValue,
    pub timestamp: i64,
    pub signature: String,
}

/// The JSON object of a `register` message.
pub open spec fn register_json(username: Seq<char>, public_key: Seq<char>) -> Json {
    Json::Object(seq![
        ("type"@, Json::Text("register"@)),
        ("username"@, Json::Text(username)),
        ("publicKey"@, Json::Text(public_key)),
    ])
}

/// Registration of a user under a public key.
#[derive(Debug, Clone)]
pub struct RegisterPayload {
    pub msg_type: &'static str,
    pub username: String,
    pub public_key: String,
}

impl RegisterPayload {
    /// The JSON object that this payload is sent as.
    pub open spec fn json(&self) -> Json {
        Json::Object(seq![
            ("type"@, Json::Text(self.msg_type@)),
            ("username"@, Json::Text(self.username@)),
            ("publicKey"@, Json::Text(self.public_key@)),
        ])
    }

    /// A payload of this type with the given fields.
    pub fn new(username: String, public_key: String) -> (r: Self)
        ensures
            r.msg_type@ == "register"@,
            r.username == username,
            r.public_key == public_key,
            r.json() == register_json(username@, public_key@),
    {
        RegisterPayload { msg_type: "register", username, public_key }
    }

    /// This payload as a JSON object: the members in the order of the fields.
    pub fn to_json(&self) -> (r: JsonValue)
        ensures
            r@ == self.json(),
    {
        let mut members: Vec<(String, JsonValue)> = Vec::new();
        members.push(text_member("type", self.msg_type));
        members.push(text_member("username", self.username.as_str()));
        members.push(text_member("publicKey", self.public_key.as_str()));
        assert(members_view(members@) =~= self.json()->Object_0);
        JsonValue::object(members)
    }
}

/// The JSON object of a `find_user` message.
pub open spec fn find_user_json(peer_id: Seq<char>, target_username: Seq<char>) -> Json {
    Json::Object(seq![
        ("type"@, Json::Text("find_user"@)),
        ("peerId"@, Json::Text(peer_id)),
        ("targetUsername"@, Json::Text(target_username)),
    ])
}

/// A search for a user by name.
#[derive(Debug, Clone)]
pub struct FindUserPayload {
    pub msg_type: &'static str,
    pub peer_id: String,
    pub target_username: String,
}

impl FindUserPayload {
    /// The JSON object that this payload is sent as.
    pub open spec fn json(&self) -> Json {
        Json::Object(seq![
            ("type"@, Json::Text(self.msg_type@)),
            ("peerId"@, Json::Text(self.peer_id@)),
            ("targetUsername"@, Json::Text(self.target_username@)),
        ])
    }

    /// A payload of this type with the given fields.
    pub fn new(peer_id: String, target_username: String) -> (r: Self)
        ensures
            r.msg_type@ == "find_user"@,
            r.peer_id == peer_id,
            r.target_username == target_username,
            r.json() == find_user_json(peer_id@, target_username@),
    {
        FindUserPayload { msg_type: "find_user", peer_id, target_username }
    }

    /// This payload as a JSON object: the members in the order of the fields.
    pub fn to_json(&self) -> (r: JsonValue)
        ensures
            r@ == self.json(),
    {
        let mut members: Vec<(String, JsonValue)> = Vec::new();
        members.push(text_member("type", self.msg_type));
        members.push(text_member("peerId", self.peer_id.as_str()));
        members.push(text_member("targetUsername", self.target_username.as_str()));
        assert(members_view(members@) =~= self.json()->Object_0);
        JsonValue::object(members)
    }
}

/// The JSON object of a `offer` message.
pub open spec fn offer_json(from_peer_id: Seq<char>, to_peer_id: Seq<char>, sdp: Seq<char>) -> Json {
    Json::Object(seq![
        ("type"@, Json::Text("offer"@)),
        ("fromPeerId"@, Json::Text(from_peer_id)),
        ("toPeerId"@, Json::Text(to_peer_id)),
        ("sdp"@, Json::Text(sdp)),
    ])
}

/// An SDP offer for a peer.
#[derive(Debug, Clone)]
pub struct OfferPayload {
    pub msg_type: &'static str,
    pub from_peer_id: String,
    pub to_peer_id: String,
    pub sdp: String,
}

impl OfferPayload {
    /// The JSON object that this payload is sent as.
    pub open spec fn json(&self) -> Json {
        Json::Object(seq![
            ("type"@, Json::Text(self.msg_type@)),
            ("fromPeerId"@, Json::Text(self.from_peer_id@)),
            ("toPeerId"@, Json::Text(self.to_peer_id@)),
            ("sdp"@, Json::Text(self.sdp@)),
        ])
    }

    /// A payload of this type with the given fields.
    pub fn new(from_peer_id: String, to_peer_id: String, sdp: String) -> (r: Self)
        ensures
            r.msg_type@ == "offer"@,
            r.from_peer_id == from_peer_id,
            r.to_peer_id == to_peer_id,
            r.sdp == sdp,
            r.json() == offer_json(from_peer_id@, to_peer_id@, sdp@),
    {
        OfferPayload { msg_type: "offer", from_peer_id, to_peer_id, sdp }
    }

    /// This payload as a JSON object: the members in the order of the fields.
    pub fn to_json(&self) -> (r: JsonValue)
        ensures
            r@ == self.json(),
    {
        let mut members: Vec<(String, JsonValue)> = Vec::new();
        members.push(text_member("type", self.msg_type));
        members.push(text_member("fromPeerId", self.from_peer_id.as_str()));
        members.push(text_member("toPeerId", self.to_peer_id.as_str()));
        members.push(text_member("sdp", self.sdp.as_str()));
        assert(members_view(members@) =~= self.json()->Object_0);
        JsonValue::object(members)
    }
}

/// The JSON object of a `answer` message.
pub open spec fn answer_json(from_peer_id: Seq<char>, to_peer_id: Seq<char>, sdp: Seq<char>) -> Json {
    Json::Object(seq![
        ("type"@, Json::Text("answer"@)),
        ("fromPeerId"@, Json::Text(from_peer_id)),
        ("toPeerId"@, Json::Text(to_peer_id)),
        ("sdp"@, Json::Text(sdp)),
    ])
}

/// An SDP answer for a peer.
#[derive(Debug, Clone)]
pub struct AnswerPayload {
    pub msg_type: &'static str,
    pub from_peer_id: String,
    pub to_peer_id: String,
    pub sdp: String,
}

impl AnswerPayload {
    /// The JSON object that this payload is sent as.
    pub open spec fn json(&self) -> Json {
        Json::Object(seq![
            ("type"@, Json::Text(self.msg_type@)),
            ("fromPeerId"@, Json::Text(self.from_peer_id@)),
            ("toPeerId"@, Json::Text(self.to_peer_id@)),
            ("sdp"@, Json::Text(self.sdp@)),
        ])
    }

    /// A payload of this type with the given fields.
    pub fn new(from_peer_id: String, to_peer_id: String, sdp: String) -> (r: Self)
        ensures
            r.msg_type@ == "answer"@,
            r.from_peer_id == from_peer_id,
            r.to_peer_id == to_peer_id,
            r.sdp == sdp,
            r.json() == answer_json(from_peer_id@, to_peer_id@, sdp@),
    {
        AnswerPayload { msg_type: "answer", from_peer_id, to_peer_id, sdp }
    }

    /// This payload as a JSON object: the members in the order of the fields.
    pub fn to_json(&self) -> (r: JsonValue)
        ensures
            r@ == self.json(),
    {
        let mut members: Vec<(String, JsonValue)> = Vec::new();
        members.push(text_member("type", self.msg_type));
        members.push(text_member("fromPeerId", self.from_peer_id.as_str()));
        members.push(text_member("toPeerId", self.to_peer_id.as_str()));
        members.push(text_member("sdp", self.sdp.as_str()));
        assert(members_view(members@) =~= self.json()->Object_0);
        JsonValue::object(members)
    }
}

/// The JSON object of a `ice_candidate` message.
pub open spec fn ice_candidate_json(from_peer_id: Seq<char>, to_peer_id: Seq<char>, candidate: Seq<char>) -> Json {
    Json::Object(seq![
        ("type"@, Json::Text("ice_candidate"@)),
        ("fromPeerId"@, Json::Text(from_peer_id)),
        ("toPeerId"@, Json::Text(to_peer_id)),
        ("candidate"@, Json::Text(candidate)),
    ])
}

/// An ICE candidate for a peer, as JSON text.
#[derive(Debug, Clone)]
pub struct IceCandidatePayload {
    pub msg_type: &'static str,
    pub from_peer_id: String,
    pub to_peer_id: String,
    pub candidate: String,
}

impl IceCandidatePayload {
    /// The JSON object that this payload is sent as.
    pub open spec fn json(&self) -> Json {
        Json::Object(seq![
            ("type"@, Json::Text(self.msg_type@)),
            ("fromPeerId"@, Json::Text(self.from_peer_id@)),
            ("toPeerId"@, Json::Text(self.to_peer_id@)),
            ("candidate"@, Json::Text(self.candidate@)),
        ])
    }

    /// A payload of this type with the given fields.
    pub fn new(from_peer_id: String, to_peer_id: String, candidate: String) -> (r: Self)
        ensures
            r.msg_type@ == "ice_candidate"@,
            r.from_peer_id == from_peer_id,
            r.to_peer_id == to_peer_id,
            r.candidate == candidate,
            r.json() == ice_candidate_json(from_peer_id@, to_peer_id@, candidate@),
    {
        IceCandidatePayload { msg_type: "ice_candidate", from_peer_id, to_peer_id, candidate }
    }

    /// This payload as a JSON object: the members in the order of the fields.
    pub fn to_json(&self) -> (r: JsonValue)
        ensures
            r@ == self.json(),
    {
        let mut members: Vec<(String, JsonValue)> = Vec::new();
        members.push(text_member("type", self.msg_type));
        members.push(text_member("fromPeerId", self.from_peer_id.as_str()));
        members.push(text_member("toPeerId", self.to_peer_id.as_str()));
        members.push(text_member("candidate", self.candidate.as_str()));
        assert(members_view(members@) =~= self.json()->Object_0);
        JsonValue::object(members)
    }
}

/// The JSON object of a `reject_call` message.
pub open spec fn reject_call_json(from_peer_id: Seq<char>, to_peer_id: Seq<char>, reason: Option<Seq<char>>) -> Json {
    let fixed = seq![
        ("type"@, Json::Text("reject_call"@)),
        ("fromPeerId"@, Json::Text(from_peer_id)),
        ("toPeerId"@, Json::Text(to_peer_id)),
    ];
    match reason {
        Some(text) => Json::Object(fixed.push(("reason"@, Json::Text(text)))),
        None => Json::Object(fixed),
    }
}

/// The refusal of a peer's call, with or without a reason.
#[derive(Debug, Clone)]
pub struct RejectCallPayload {
    pub msg_type: &'static str,
    pub from_peer_id: String,
    pub to_peer_id: String,
    pub reason: Option<String>,
}

impl RejectCallPayload {
    /// The JSON object that this payload is sent as.
    pub open spec fn json(&self) -> Json {
        let fixed = seq![
            ("type"@, Json::Text(self.msg_type@)),
            ("fromPeerId"@, Json::Text(self.from_peer_id@)),
            ("toPeerId"@, Json::Text(self.to_peer_id@)),
        ];
        match self.reason {
            Some(text) => Json::Object(fixed.push(("reason"@, Json::Text(text@)))),
            None => Json::Object(fixed),
        }
    }

    /// A payload of this type with the given fields.
    pub fn new(from_peer_id: String, to_peer_id: String, reason: Option<String>) -> (r: Self)
        ensures
            r.msg_type@ == "reject_call"@,
            r.from_peer_id == from_peer_id,
            r.to_peer_id == to_peer_id,
            r.reason == reason,
            r.json() == reject_call_json(
                from_peer_id@, to_peer_id@,
                match reason {
                    Some(text) => Some(text@),
                    None => None,
                },
            ),
    {
        RejectCallPayload { msg_type: "reject_call", from_peer_id, to_peer_id, reason }
    }

    /// This payload as a JSON object: the members in the order of the fields.
    pub fn to_json(&self) -> (r: JsonValue)
        ensures
            r@ == self.json(),
    {
        let mut members: Vec<(String, JsonValue)> = Vec::new();
        members.push(text_member("type", self.msg_type));
        members.push(text_member("fromPeerId", self.from_peer_id.as_str()));
        members.push(text_member("toPeerId", self.to_peer_id.as_str()));
        match &self.reason {
            Some(text) => members.push(text_member("reason", text.as_str())),
            None => {},
        }
        assert(members_view(members@) =~= self.json()->Object_0);
        JsonValue::object(members)
    }
}

/// The JSON object of a `hangup` message.
pub open spec fn hangup_json(from_peer_id: Seq<char>, to_peer_id: Seq<char>) -> Json {
    Json::Object(seq![
        ("type"@, Json::Text("hangup"@)),
        ("fromPeerId"@, Json::Text(from_peer_id)),
        ("toPeerId"@, Json::Text(to_peer_id)),
    ])
}

/// The end of the call with a peer.
#[derive(Debug, Clone)]
pub struct HangupPayload {
    pub msg_type: &'static str,
    pub from_peer_id: String,
    pub to_peer_id: String,
}

impl HangupPayload {
    /// The JSON object that this payload is sent as.
    pub open spec fn json(&self) -> Json {
        Json::Object(seq![
            ("type"@, Json::Text(self.msg_type@)),
            ("fromPeerId"@, Json::Text(self.from_peer_id@)),
            ("toPeerId"@, Json::Text(self.to_peer_id@)),
        ])
    }

    /// A payload of this type with the given fields.
    pub fn new(from_peer_id: String, to_peer_id: String) -> (r: Self)
        ensures
            r.msg_type@ == "hangup"@,
            r.from_peer_id == from_peer_id,
            r.to_peer_id == to_peer_id,
            r.json() == hangup_json(from_peer_id@, to_peer_id@),
    {
        HangupPayload { msg_type: "hangup", from_peer_id, to_peer_id }
    }

    /// This payload as a JSON object: the members in the order of the fields.
    pub fn to_json(&self) -> (r: JsonValue)
        ensures
            r@ == self.json(),
    {
        let mut members: Vec<(String, JsonValue)> = Vec::new();
        members.push(text_member("type", self.msg_type));
        members.push(text_member("fromPeerId", self.from_peer_id.as_str()));
        members.push(text_member("toPeerId", self.to_peer_id.as_str()));
        assert(members_view(members@) =~= self.json()->Object_0);
        JsonValue::object(members)
    }
}

/// The JSON object of a `heartbeat` message.
pub open spec fn heartbeat_json(peer_id: Seq<char>) -> Json {
    Json::Object(seq![
        ("type"@, Json::Text("heartbeat"@)),
        ("peerId"@, Json::Text(peer_id)),
    ])
}

/// A sign of life.
#[derive(Debug, Clone)]
pub struct HeartbeatPayload {
    pub msg_type: &'static str,
    pub peer_id: String,
}

impl HeartbeatPayload {
    /// The JSON object that this payload is sent as.
    pub open spec fn json(&self) -> Json {
        Json::Object(seq![
            ("type"@, Json::Text(self.msg_type@)),
            ("peerId"@, Json::Text(self.peer_id@)),
        ])
    }

    /// A payload of this type with the given fields.
    pub fn new(peer_id: String) -> (r: Self)
        ensures
            r.msg_type@ == "heartbeat"@,
            r.peer_id == peer_id,
            r.json() == heartbeat_json(peer_id@),
    {
        HeartbeatPayload { msg_type: "heartbeat", peer_id }
    }

    /// This payload as a JSON object: the members in the order of the fields.
    pub fn to_json(&self) -> (r: JsonValue)
        ensures
            r@ == self.json(),
    {
        let mut members: Vec<(String, JsonValue)> = Vec::new();
        members.push(text_member("type", self.msg_type));
        members.push(text_member("peerId", self.peer_id.as_str()));
        assert(members_view(members@) =~= self.json()->Object_0);
        JsonValue::object(members)
    }
}

/// What the server sends.
#[derive(Debug, Clone, PartialEq, Eq)]
pub enum ServerMessage {
    Registered { peer_id: String, username: String, timestamp: i64 },
    UserFound { peer_id: String, username: String, is_online: bool, timestamp: i64 },
    UserNotFound { username: String, timestamp: i64 },
    IncomingOffer { from_peer_id: String, from_username: String, sdp: String, timestamp: i64 },
    IncomingAnswer { from_peer_id: String, sdp: String, timestamp: i64 },
    IncomingIceCandidate { from_peer_id: String, candidate: String, timestamp: i64 },
    CallRejected { by_peer_id: String, reason: Option<String>, timestamp: i64 },
    CallEnded { by_peer_id: String, timestamp: i64 },
    UserOffline { peer_id: String, timestamp: i64 },
    UserOnline { peer_id: String, timestamp: i64 },
    Error { code: i32, message: String, timestamp: i64 },
    /// The answer to a heartbeat.
    Pong { timestamp: i64 },
}

/// A user as the server knows it.
#[derive(Debug, Clone, PartialEq, Eq)]
pub struct ContactInfo {
    pub peer_id: String,
    pub username: String,
    pub is_online: bool,
}

/// Whether `v` has everything that a message of the server with the tag
/// `tag` must have, each of the right kind. Members beyond those are of no
/// account.
pub open spec fn has_fields_of(v: Json, tag: Seq<char>) -> bool {
    &&& number_at(v, "timestamp"@) is Some
    &&& if tag == "registered"@ {
        text_at(v, "peerId"@) is Some && text_at(v, "username"@) is Some
    } else if tag == "user_found"@ {
        text_at(v, "peerId"@) is Some && text_at(v, "username"@) is Some && bool_at(v, "isOnline"@) is Some
    } else if tag == "user_not_found"@ {
        text_at(v, "username"@) is Some
    } else if tag == "incoming_offer"@ {
        text_at(v, "fromPeerId"@) is Some && text_at(v, "fromUsername"@) is Some && text_at(v, "sdp"@) is Some
    } else if tag == "incoming_answer"@ {
        text_at(v, "fromPeerId"@) is Some && text_at(v, "sdp"@) is Some
    } else if tag == "incoming_ice_candidate"@ {
        text_at(v, "fromPeerId"@) is Some && text_at(v, "candidate"@) is Some
    } else if tag == "call_rejected"@ {
        text_at(v, "byPeerId"@) is Some && optional_text_at(v, "reason"@) is Some
    } else if tag == "call_ended"@ {
        text_at(v, "byPeerId"@) is Some
    } else if tag == "user_offline"@ {
        text_at(v, "peerId"@) is Some
    } else if tag == "user_online"@ {
        text_at(v, "peerId"@) is Some
    } else if tag == "error"@ {
        (number_at(v, "code"@) matches Some(n) && i32::MIN <= n <= i32::MAX) && text_at(v, "message"@) is Some
    } else if tag == "pong"@ {
        true
    } else {
        false
    }
}

/// Whether `v` is a message of the server: an object with a known `type`
/// and the fields of that type.
pub open spec fn is_server_message(v: Json) -> bool {
    v is Object && (text_at(v, "type"@) matches Some(tag) && has_fields_of(v, tag))
}

/// `v` reads as the message `msg`: it has the tag of `msg`, and under the
/// name of each field the value that `msg` has there.
pub open spec fn reads_as(v: Json, msg: ServerMessage) -> bool {
    match msg {
        ServerMessage::Registered { peer_id, username, timestamp } => {
            &&& text_at(v, "type"@) == Some("registered"@)
            &&& number_at(v, "timestamp"@) == Some(timestamp)
            &&& text_at(v, "peerId"@) == Some(peer_id@)
            &&& text_at(v, "username"@) == Some(username@)
        },
        ServerMessage::UserFound { peer_id, username, is_online, timestamp } => {
            &&& text_at(v, "type"@) == Some("user_found"@)
            &&& number_at(v, "timestamp"@) == Some(timestamp)
            &&& text_at(v, "peerId"@) == Some(peer_id@)
            &&& text_at(v, "username"@) == Some(username@)
            &&& bool_at(v, "isOnline"@) == Some(is_online)
        },
        ServerMessage::UserNotFound { username, timestamp } => {
            &&& text_at(v, "type"@) == Some("user_not_found"@)
            &&& number_at(v, "timestamp"@) == Some(timestamp)
            &&& text_at(v, "username"@) == Some(username@)
        },
        ServerMessage::IncomingOffer { from_peer_id, from_username, sdp, timestamp } => {
            &&& text_at(v, "type"@) == Some("incoming_offer"@)
            &&& number_at(v, "timestamp"@) == Some(timestamp)
            &&& text_at(v, "fromPeerId"@) == Some(from_peer_id@)
            &&& text_at(v, "fromUsername"@) == Some(from_username@)
            &&& text_at(v, "sdp"@) == Some(sdp@)
        },
        ServerMessage::IncomingAnswer { from_peer_id, sdp, timestamp } => {
            &&& text_at(v, "type"@) == Some("incoming_answer"@)
            &&& number_at(v, "timestamp"@) == Some(timestamp)
            &&& text_at(v, "fromPeerId"@) == Some(from_peer_id@)
            &&& text_at(v, "sdp"@) == Some(sdp@)
        },
        ServerMessage::IncomingIceCandidate { from_peer_id, candidate, timestamp } => {
            &&& text_at(v, "type"@) == Some("incoming_ice_candidate"@)
            &&& number_at(v, "timestamp"@) == Some(timestamp)
            &&& text_at(v, "fromPeerId"@) == Some(from_peer_id@)
            &&& text_at(v, "candidate"@) == Some(candidate@)
        },
        ServerMessage::CallRejected { by_peer_id, reason, timestamp } => {
            &&& text_at(v, "type"@) == Some("call_rejected"@)
            &&& number_at(v, "timestamp"@) == Some(timestamp)
            &&& text_at(v, "byPeerId"@) == Some(by_peer_id@)
            &&& optional_text_at(v, "reason"@) == Some(
                match reason {
                    Some(text) => Some(text@),
                    None => None,
                },
            )
        },
        ServerMessage::CallEnded { by_peer_id, timestamp } => {
            &&& text_at(v, "type"@) == Some("call_ended"@)
            &&& number_at(v, "timestamp"@) == Some(timestamp)
            &&& text_at(v, "byPeerId"@) == Some(by_peer_id@)
        },
        ServerMessage::UserOffline { peer_id, timestamp } => {
            &&& text_at(v, "type"@) == Some("user_offline"@)
            &&& number_at(v, "timestamp"@) == Some(timestamp)
            &&& text_at(v, "peerId"@) == Some(peer_id@)
        },
        ServerMessage::UserOnline { peer_id, timestamp } => {
            &&& text_at(v, "type"@) == Some("user_online"@)
            &&& number_at(v, "timestamp"@) == Some(timestamp)
            &&& text_at(v, "peerId"@) == Some(peer_id@)
        },
        ServerMessage::Error { code, message, timestamp } => {
            &&& text_at(v, "type"@) == Some("error"@)
            &&& number_at(v, "timestamp"@) == Some(timestamp)
            &&& number_at(v, "code"@) == Some(code as i64)
            &&& text_at(v, "message"@) == Some(message@)
        },
        ServerMessage::Pong { timestamp } => {
            &&& text_at(v, "type"@) == Some("pong"@)
            &&& number_at(v, "timestamp"@) == Some(timestamp)
        },
    }
}

/// Whether a string is the given text.
fn text_is(s: &String, text: &str) -> (r: bool)
    ensures
        r == (s@ == text@),
{
    *s == String::from_str(text)
}

impl ServerMessage {
    /// Reads a message of the server from a JSON value. Anything that is no
    /// such message (no object, an unknown `type`, a field missing or of the
    /// wrong kind) gives nothing.
    pub fn from_json(value: &JsonValue) -> (r: Option<ServerMessage>)
        ensures
            r is Some <==> is_server_message(value@),
            r matches Some(msg) ==> reads_as(value@, msg),
    {
        match value {
            JsonValue::Object(_) => {},
            _ => {
                return None;
            },
        }
        let tag = match value.get_text("type") {
            Some(tag) => tag,
            None => {
                return None;
            },
        };
        let timestamp = match value.get_number("timestamp") {
            Some(timestamp) => timestamp,
            None => {
                return None;
            },
        };
        if text_is(&tag, "registered") {
            let peer_id = match value.get_text("peerId") {
                Some(peer_id) => peer_id,
                None => {
                    return None;
                },
            };
            let username = match value.get_text("username") {
                Some(username) => username,
                None => {
                    return None;
                },
            };
            Some(ServerMessage::Registered { peer_id, username, timestamp })
        } else if text_is(&tag, "user_found") {
            let peer_id = match value.get_text("peerId") {
                Some(peer_id) => peer_id,
                None => {
                    return None;
                },
            };
            let username = match value.get_text("username") {
                Some(username) => username,
                None => {
                    return None;
                },
            };
            let is_online = match value.get_bool("isOnline") {
                Some(is_online) => is_online,
                None => {
                    return None;
                },
            };
            Some(ServerMessage::UserFound { peer_id, username, is_online, timestamp })
        } else if text_is(&tag, "user_not_found") {
            let username = match value.get_text("username") {
                Some(username) => username,
                None => {
                    return None;
                },
            };
            Some(ServerMessage::UserNotFound { username, timestamp })
        } else if text_is(&tag, "incoming_offer") {
            let from_peer_id = match value.get_text("fromPeerId") {
                Some(from_peer_id) => from_peer_id,
                None => {
                    return None;
                },
            };
            let from_username = match value.get_text("fromUsername") {
                Some(from_username) => from_username,
                None => {
                    return None;
                },
            };
            let sdp = match value.get_text("sdp") {
                Some(sdp) => sdp,
                None => {
                    return None;
                },
            };
            Some(ServerMessage::IncomingOffer { from_peer_id, from_username, sdp, timestamp })
        } else if text_is(&tag, "incoming_answer") {
            let from_peer_id = match value.get_text("fromPeerId") {
                Some(from_peer_id) => from_peer_id,
                None => {
                    return None;
                },
            };
            let sdp = match value.get_text("sdp") {
                Some(sdp) => sdp,
                None => {
                    return None;
                },
            };
            Some(ServerMessage::IncomingAnswer { from_peer_id, sdp, timestamp })
        } else if text_is(&tag, "incoming_ice_candidate") {
            let from_peer_id = match value.get_text("fromPeerId") {
                Some(from_peer_id) => from_peer_id,
                None => {
                    return None;
                },
            };
            let candidate = match value.get_text("candidate") {
                Some(candidate) => candidate,
                None => {
                    return None;
                },
            };
            Some(ServerMessage::IncomingIceCandidate { from_peer_id, candidate, timestamp })
        } else if text_is(&tag, "call_rejected") {
            let by_peer_id = match value.get_text("byPeerId") {
                Some(by_peer_id) => by_peer_id,
                None => {
                    return None;
                },
            };
            let reason = match value.get_optional_text("reason") {
                Some(reason) => reason,
                None => {
                    return None;
                },
            };
            Some(ServerMessage::CallRejected { by_peer_id, reason, timestamp })
        } else if text_is(&tag, "call_ended") {
            let by_peer_id = match value.get_text("byPeerId") {
                Some(by_peer_id) => by_peer_id,
                None => {
                    return None;
                },
            };
            Some(ServerMessage::CallEnded { by_peer_id, timestamp })
        } else if text_is(&tag, "user_offline") {
            let peer_id = match value.get_text("peerId") {
                Some(peer_id) => peer_id,
                None => {
                    return None;
                },
            };
            Some(ServerMessage::UserOffline { peer_id, timestamp })
        } else if text_is(&tag, "user_online") {
            let peer_id = match value.get_text("peerId") {
                Some(peer_id) => peer_id,
                None => {
                    return None;
                },
            };
            Some(ServerMessage::UserOnline { peer_id, timestamp })
        } else if text_is(&tag, "error") {
            let code = match value.get_number("code") {
                Some(code) => code,
                None => {
                    return None;
                },
            };
            if code < -2147483648 || code > 2147483647 {
                return None;
            }
            let code = code as i32;
            let message = match value.get_text("message") {
                Some(message) => message,
                None => {
                    return None;
                },
            };
            Some(ServerMessage::Error { code, message, timestamp })
        } else if text_is(&tag, "pong") {
            Some(ServerMessage::Pong { timestamp })
        } else {
            None
        }
    }
}

} // verus!
