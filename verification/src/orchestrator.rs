//! The orchestrator: what the events of the signaling client mean for the
//! call engine, the contact store and the user interface, and what the
//! events of the call engine mean for signaling.
//!
//! The orchestrator is the only part that knows both the signaling client
//! and the call engine.

use crate::call_engine::engine::{CallEngine, CallEvent, CallState};
use crate::signaling::client::SignalingEvent;
use crate::signaling::messages::ContactInfo;
use vstd::prelude::*;

verus! {

/// What the user interface is told.
#[derive(Debug, Clone, PartialEq, Eq)]
pub enum UiNotice {
    SignalingConnected,
    SignalingDisconnected,
    Registered { peer_id: String, username: String },
    UserFound(ContactInfo),
    UserNotFound { username: String },
    IncomingCall { from_peer_id: String, from_username: String, sdp: String },
    AnswerReceived { from_peer_id: String },
    IceCandidateReceived { from_peer_id: String },
    CallRejected { by_peer_id: String, reason: Option<String> },
    CallEnded { by_peer_id: String },
    ContactOnline { peer_id: String },
    ContactOffline { peer_id: String },
    SignalingError { code: i32, message: String },
    IceCandidate { candidate: String },
    CallStateChanged(CallState),
    CallError(String),
}

/// What the owner of the peer connection is asked to do.
#[derive(Debug, Clone, PartialEq, Eq)]
pub enum RtcRequest {
    /// Apply the peer's answer as the remote description.
    ApplyAnswer { sdp: String },
    /// Apply a candidate of the peer.
    AddIceCandidate { candidate: String },
    /// Close the peer connection, and let the engine settle once the ended
    /// call has been shown.
    Close,
}

/// What a signaling event asks for.
#[derive(Debug, Clone, PartialEq, Eq)]
pub struct Reaction {
    /// What the user interface is told.
    pub notice: UiNotice,
    /// The online status to store for a contact.
    pub contact_status: Option<(String, bool)>,
    /// What the owner of the peer connection is asked to do.
    pub rtc: Option<RtcRequest>,
    /// What the call engine tells its listeners.
    pub call_event: Option<CallEvent>,
}

/// What a call event asks for.
#[derive(Debug, Clone, PartialEq, Eq)]
pub struct CallReaction {
    /// A candidate to send, with the peer to send it to.
    pub send_candidate: Option<(String, String)>,
    /// What the user interface is told.
    pub notice: Option<UiNotice>,
}

impl UiNotice {
    /// The name of the channel on which the notice goes out.
    pub open spec fn channel_name(self) -> Seq<char> {
        match self {
            UiNotice::SignalingConnected => "signaling:connected"@,
            UiNotice::SignalingDisconnected => "signaling:disconnected"@,
            UiNotice::Registered { .. } => "signaling:registered"@,
            UiNotice::UserFound(_) => "signaling:user_found"@,
            UiNotice::UserNotFound { .. } => "signaling:user_not_found"@,
            UiNotice::IncomingCall { .. } => "call:incoming"@,
            UiNotice::AnswerReceived { .. } => "call:answer_received"@,
            UiNotice::IceCandidateReceived { .. } => "call:ice_candidate_received"@,
            UiNotice::CallRejected { .. } => "call:rejected"@,
            UiNotice::CallEnded { .. } => "call:ended"@,
            UiNotice::ContactOnline { .. } => "contact:online"@,
            UiNotice::ContactOffline { .. } => "contact:offline"@,
            UiNotice::SignalingError { .. } => "signaling:error"@,
            UiNotice::IceCandidate { .. } => "call:ice_candidate"@,
            UiNotice::CallStateChanged(_) => "call:state_changed"@,
            UiNotice::CallError(_) => "call:error"@,
        }
    }

    /// The name of the channel on which the notice goes out.
    pub fn channel(&self) -> (r: &'static str)
        ensures
            r@ == self.channel_name(),
    {
        match self {
            UiNotice::SignalingConnected => "signaling:connected",
            UiNotice::SignalingDisconnected => "signaling:disconnected",
            UiNotice::Registered { .. } => "signaling:registered",
            UiNotice::UserFound(_) => "signaling:user_found",
            UiNotice::UserNotFound { .. } => "signaling:user_not_found",
            UiNotice::IncomingCall { .. } => "call:incoming",
            UiNotice::AnswerReceived { .. } => "call:answer_received",
            UiNotice::IceCandidateReceived { .. } => "call:ice_candidate_received",
            UiNotice::CallRejected { .. } => "call:rejected",
            UiNotice::CallEnded { .. } => "call:ended",
            UiNotice::ContactOnline { .. } => "contact:online",
            UiNotice::ContactOffline { .. } => "contact:offline",
            UiNotice::SignalingError { .. } => "signaling:error",
            UiNotice::IceCandidate { .. } => "call:ice_candidate",
            UiNotice::CallStateChanged(_) => "call:state_changed",
            UiNotice::CallError(_) => "call:error",
        }
    }
}

/// What the user interface is told of a signaling event.
pub open spec fn notice_of(event: SignalingEvent) -> UiNotice {
    match event {
        SignalingEvent::Connected => UiNotice::SignalingConnected,
        SignalingEvent::Disconnected => UiNotice::SignalingDisconnected,
        SignalingEvent::Registered { peer_id, username } => UiNotice::Registered {
            peer_id,
            username,
        },
        SignalingEvent::UserFound(info) => UiNotice::UserFound(info),
        SignalingEvent::UserNotFound { username } => UiNotice::UserNotFound { username },
        SignalingEvent::IncomingCall { from_peer_id, from_username, sdp } => UiNotice::IncomingCall {
            from_peer_id,
            from_username,
            sdp,
        },
        SignalingEvent::AnswerReceived { from_peer_id, sdp } => UiNotice::AnswerReceived {
            from_peer_id,
        },
        SignalingEvent::IceCandidateReceived {
            from_peer_id,
            candidate,
        } => UiNotice::IceCandidateReceived { from_peer_id },
        SignalingEvent::CallRejected { by_peer_id, reason } => UiNotice::CallRejected {
            by_peer_id,
            reason,
        },
        SignalingEvent::CallEnded { by_peer_id } => UiNotice::CallEnded { by_peer_id },
        SignalingEvent::ContactOnline { peer_id } => UiNotice::ContactOnline { peer_id },
        SignalingEvent::ContactOffline { peer_id } => UiNotice::ContactOffline { peer_id },
        SignalingEvent::Error { code, message } => UiNotice::SignalingError { code, message },
    }
}

/// The online status that a signaling event gives of a contact.
pub open spec fn contact_status_of(event: SignalingEvent) -> Option<(String, bool)> {
    match event {
        SignalingEvent::UserFound(info) => Some((info.peer_id, info.is_online)),
        SignalingEvent::ContactOnline { peer_id } => Some((peer_id, true)),
        SignalingEvent::ContactOffline { peer_id } => Some((peer_id, false)),
        _ => None,
    }
}

/// What a signaling event asks of the owner of the peer connection, given
/// whether the engine holds a connection.
pub open spec fn rtc_request_of(event: SignalingEvent, has_connection: bool) -> Option<
    RtcRequest,
> {
    match event {
        SignalingEvent::AnswerReceived { from_peer_id, sdp } => if has_connection {
            Some(RtcRequest::ApplyAnswer { sdp })
        } else {
            None
        },
        SignalingEvent::IceCandidateReceived { from_peer_id, candidate } => if has_connection {
            Some(RtcRequest::AddIceCandidate { candidate })
        } else {
            None
        },
        SignalingEvent::CallRejected { by_peer_id, reason } => Some(RtcRequest::Close),
        SignalingEvent::CallEnded { by_peer_id } => Some(RtcRequest::Close),
        _ => None,
    }
}

/// The state of the call after a signaling event: a call that comes in
/// rings, a call that the peer refused or ended is over.
pub open spec fn call_state_after(state: CallState, event: SignalingEvent) -> CallState {
    match event {
        SignalingEvent::IncomingCall { from_peer_id, from_username, sdp } => CallState::Ringing {
            peer_id: from_peer_id,
            username: from_username,
        },
        SignalingEvent::CallRejected { by_peer_id, reason } => CallState::Ended,
        SignalingEvent::CallEnded { by_peer_id } => CallState::Ended,
        _ => state,
    }
}

/// What the call engine tells its listeners when it takes in a signaling
/// event.
pub open spec fn call_event_of(event: SignalingEvent) -> Option<CallEvent> {
    match event {
        SignalingEvent::IncomingCall { from_peer_id, from_username, sdp } => Some(
            CallEvent::StateChanged(
                CallState::Ringing { peer_id: from_peer_id, username: from_username },
            ),
        ),
        SignalingEvent::CallRejected { by_peer_id, reason } => Some(
            CallEvent::StateChanged(CallState::Ended),
        ),
        SignalingEvent::CallEnded { by_peer_id } => Some(CallEvent::StateChanged(CallState::Ended)),
        _ => None,
    }
}

/// Takes a signaling event to the call engine and says what else it asks
/// for.
pub fn handle_signaling_event(event: SignalingEvent, engine: &mut CallEngine) -> (r: Reaction)
    requires
        old(engine).wf(),
    ensures
        final(engine).wf(),
        final(engine).servers() == old(engine).servers(),
        r.notice == notice_of(event),
        r.contact_status == contact_status_of(event),
        r.rtc == rtc_request_of(event, old(engine).has_connection()),
        final(engine).call_state() == call_state_after(old(engine).call_state(), event),
        r.call_event == call_event_of(event),
        (event is CallRejected || event is CallEnded) ==> !final(engine).has_connection()
            && final(engine).audio() is None,
        !(event is CallRejected || event is CallEnded) ==> final(engine).has_connection() == old(engine).has_connection()
            && final(engine).audio() == old(engine).audio(),
{
    match event {
        SignalingEvent::Connected => Reaction {
            notice: UiNotice::SignalingConnected,
            contact_status: None,
            rtc: None,
            call_event: None,
        },
        SignalingEvent::Disconnected => Reaction {
            notice: UiNotice::SignalingDisconnected,
            contact_status: None,
            rtc: None,
            call_event: None,
        },
        SignalingEvent::Registered { peer_id, username } => Reaction {
            notice: UiNotice::Registered { peer_id, username },
            contact_status: None,
            rtc: None,
            call_event: None,
        },
        SignalingEvent::UserFound(info) => {
            let status = (info.peer_id.clone(), info.is_online);
            Reaction {
                notice: UiNotice::UserFound(info),
                contact_status: Some(status),
                rtc: None,
                call_event: None,
            }
        },
        SignalingEvent::UserNotFound { username } => Reaction {
            notice: UiNotice::UserNotFound { username },
            contact_status: None,
            rtc: None,
            call_event: None,
        },
        SignalingEvent::IncomingCall { from_peer_id, from_username, sdp } => {
            let call_event = engine.register_incoming_call(
                from_peer_id.clone(),
                from_username.clone(),
            );
            Reaction {
                notice: UiNotice::IncomingCall { from_peer_id, from_username, sdp },
                contact_status: None,
                rtc: None,
                call_event: Some(call_event),
            }
        },
        SignalingEvent::AnswerReceived { from_peer_id, sdp } => {
            let rtc = match engine.handle_answer(sdp) {
                Ok(sdp) => Some(RtcRequest::ApplyAnswer { sdp }),
                Err(_) => None,
            };
            Reaction {
                notice: UiNotice::AnswerReceived { from_peer_id },
                contact_status: None,
                rtc,
                call_event: None,
            }
        },
        SignalingEvent::IceCandidateReceived { from_peer_id, candidate } => {
            let rtc = match engine.add_ice_candidate(candidate) {
                Ok(candidate) => Some(RtcRequest::AddIceCandidate { candidate }),
                Err(_) => None,
            };
            Reaction {
                notice: UiNotice::IceCandidateReceived { from_peer_id },
                contact_status: None,
                rtc,
                call_event: None,
            }
        },
        SignalingEvent::CallRejected { by_peer_id, reason } => {
            let call_event = engine.end_call();
            Reaction {
                notice: UiNotice::CallRejected { by_peer_id, reason },
                contact_status: None,
                rtc: Some(RtcRequest::Close),
                call_event: Some(call_event),
            }
        },
        SignalingEvent::CallEnded { by_peer_id } => {
            let call_event = engine.end_call();
            Reaction {
                notice: UiNotice::CallEnded { by_peer_id },
                contact_status: None,
                rtc: Some(RtcRequest::Close),
                call_event: Some(call_event),
            }
        },
        SignalingEvent::ContactOnline { peer_id } => Reaction {
            notice: UiNotice::ContactOnline { peer_id: peer_id.clone() },
            contact_status: Some((peer_id, true)),
            rtc: None,
            call_event: None,
        },
        SignalingEvent::ContactOffline { peer_id } => Reaction {
            notice: UiNotice::ContactOffline { peer_id: peer_id.clone() },
            contact_status: Some((peer_id, false)),
            rtc: None,
            call_event: None,
        },
        SignalingEvent::Error { code, message } => Reaction {
            notice: UiNotice::SignalingError { code, message },
            contact_status: None,
            rtc: None,
            call_event: None,
        },
    }
}

/// What an event of the call engine asks for, given the state of the call.
pub open spec fn call_reaction_of(event: CallEvent, state: CallState) -> CallReaction {
    match event {
        CallEvent::IceCandidate { candidate } => CallReaction {
            send_candidate: match state.peer() {
                Some(peer_id) => Some((peer_id, candidate)),
                None => None,
            },
            notice: Some(UiNotice::IceCandidate { candidate }),
        },
        CallEvent::StateChanged(new_state) => CallReaction {
            send_candidate: None,
            notice: Some(UiNotice::CallStateChanged(new_state)),
        },
        CallEvent::Error(detail) => CallReaction {
            send_candidate: None,
            notice: Some(UiNotice::CallError(detail)),
        },
        CallEvent::AudioLevel { input, output } => CallReaction {
            send_candidate: None,
            notice: None,
        },
    }
}

/// Says what an event of the call engine asks for: a candidate of ours
/// goes to the peer of the call, if there is a call; state changes and
/// errors go to the user interface.
pub fn handle_call_event(event: CallEvent, state: &CallState) -> (r: CallReaction)
    ensures
        r == call_reaction_of(event, *state),
{
    match event {
        CallEvent::IceCandidate { candidate } => {
            let send_candidate = match state.peer_id() {
                Some(peer_id) => Some((peer_id, candidate.clone())),
                None => None,
            };
            CallReaction { send_candidate, notice: Some(UiNotice::IceCandidate { candidate }) }
        },
        CallEvent::StateChanged(new_state) => CallReaction {
            send_candidate: None,
            notice: Some(UiNotice::CallStateChanged(new_state)),
        },
        CallEvent::Error(detail) => CallReaction {
            send_candidate: None,
            notice: Some(UiNotice::CallError(detail)),
        },
        CallEvent::AudioLevel { input, output } => CallReaction {
            send_candidate: None,
            notice: None,
        },
    }
}

/// Hangs up: ends the call and names the peer to tell. Without a call
/// there is nothing to hang up, and the engine stays as it is.
pub fn hangup(engine: &mut CallEngine) -> (r: Result<(String, CallEvent), String>)
    requires
        old(engine).wf(),
    ensures
        final(engine).wf(),
        final(engine).servers() == old(engine).servers(),
        match old(engine).call_state().peer() {
            Some(peer_id) => r == Ok::<(String, CallEvent), String>(
                (peer_id, CallEvent::StateChanged(CallState::Ended)),
            ) && final(engine).call_state() == CallState::Ended && !final(engine).has_connection()
                && final(engine).audio() is None,
            None => (r matches Err(m) && m@ == "No active call"@) && final(engine).call_state()
                == old(engine).call_state()
                    && final(engine).has_connection() == old(engine).has_connection()
                    && final(engine).audio() == old(engine).audio(),
        },
{
    match engine.state().peer_id() {
        Some(peer_id) => {
            let event = engine.end_call();
            Ok((peer_id, event))
        },
        None => Err(String::from_str("No active call")),
    }
}

} // verus!
