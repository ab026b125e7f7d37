use call_core::call_engine::{CallEngine, CallEvent, CallState};
use call_core::database::{Contact, NewContact};
use call_core::orchestrator::{
    handle_call_event, handle_signaling_event, hangup, CallReaction, Reaction, RtcRequest,
    UiNotice,
};
use call_core::signaling::{ContactInfo, SignalingEvent};

fn quiet(notice: UiNotice) -> Reaction {
    Reaction { notice, contact_status: None, rtc: None, call_event: None }
}

fn engine_in_call() -> CallEngine {
    let mut engine = CallEngine::new();
    engine.start_call("p-2".to_string()).ok().unwrap();
    engine.negotiated(Ok("v=0".to_string())).ok().unwrap();
    engine
}

#[test]
fn connection_events_go_to_the_user_interface_only() {
    let mut engine = CallEngine::new();
    assert_eq!(
        handle_signaling_event(SignalingEvent::Connected, &mut engine),
        quiet(UiNotice::SignalingConnected)
    );
    assert_eq!(
        handle_signaling_event(SignalingEvent::Disconnected, &mut engine),
        quiet(UiNotice::SignalingDisconnected)
    );
    assert_eq!(
        handle_signaling_event(
            SignalingEvent::Registered { peer_id: "p-1".into(), username: "alice".into() },
            &mut engine
        ),
        quiet(UiNotice::Registered { peer_id: "p-1".into(), username: "alice".into() })
    );
    assert_eq!(
        handle_signaling_event(SignalingEvent::UserNotFound { username: "bob".into() }, &mut engine),
        quiet(UiNotice::UserNotFound { username: "bob".into() })
    );
    assert_eq!(
        handle_signaling_event(
            SignalingEvent::Error { code: 500, message: "oops".into() },
            &mut engine
        ),
        quiet(UiNotice::SignalingError { code: 500, message: "oops".into() })
    );
    assert_eq!(engine.state(), CallState::Idle);
}

#[test]
fn contact_events_update_the_stored_status() {
    let mut engine = CallEngine::new();
    let info = ContactInfo { peer_id: "p-2".into(), username: "bob".into(), is_online: true };
    let r = handle_signaling_event(SignalingEvent::UserFound(info.clone()), &mut engine);
    assert_eq!(r.notice, UiNotice::UserFound(info));
    assert_eq!(r.contact_status, Some(("p-2".to_string(), true)));
    let r = handle_signaling_event(SignalingEvent::ContactOnline { peer_id: "p-3".into() }, &mut engine);
    assert_eq!(r.notice, UiNotice::ContactOnline { peer_id: "p-3".into() });
    assert_eq!(r.contact_status, Some(("p-3".to_string(), true)));
    let r = handle_signaling_event(SignalingEvent::ContactOffline { peer_id: "p-3".into() }, &mut engine);
    assert_eq!(r.notice, UiNotice::ContactOffline { peer_id: "p-3".into() });
    assert_eq!(r.contact_status, Some(("p-3".to_string(), false)));
    assert_eq!(r.rtc, None);
    assert_eq!(r.call_event, None);
}

#[test]
fn an_incoming_call_rings() {
    let mut engine = CallEngine::new();
    let r = handle_signaling_event(
        SignalingEvent::IncomingCall {
            from_peer_id: "p-2".into(),
            from_username: "bob".into(),
            sdp: "v=0".into(),
        },
        &mut engine,
    );
    let ringing = CallState::Ringing { peer_id: "p-2".into(), username: "bob".into() };
    assert_eq!(engine.state(), ringing);
    assert_eq!(
        r,
        Reaction {
            notice: UiNotice::IncomingCall {
                from_peer_id: "p-2".into(),
                from_username: "bob".into(),
                sdp: "v=0".into()
            },
            contact_status: None,
            rtc: None,
            call_event: Some(CallEvent::StateChanged(ringing)),
        }
    );
}

#[test]
fn answers_and_candidates_reach_the_peer_connection_if_there_is_one() {
    let mut idle = CallEngine::new();
    let r = handle_signaling_event(
        SignalingEvent::AnswerReceived { from_peer_id: "p-2".into(), sdp: "v=0".into() },
        &mut idle,
    );
    assert_eq!(r, quiet(UiNotice::AnswerReceived { from_peer_id: "p-2".into() }));
    let r = handle_signaling_event(
        SignalingEvent::IceCandidateReceived { from_peer_id: "p-2".into(), candidate: "{}".into() },
        &mut idle,
    );
    assert_eq!(r, quiet(UiNotice::IceCandidateReceived { from_peer_id: "p-2".into() }));

    let mut engine = engine_in_call();
    let r = handle_signaling_event(
        SignalingEvent::AnswerReceived { from_peer_id: "p-2".into(), sdp: "v=0 answer".into() },
        &mut engine,
    );
    assert_eq!(r.rtc, Some(RtcRequest::ApplyAnswer { sdp: "v=0 answer".into() }));
    assert_eq!(r.notice, UiNotice::AnswerReceived { from_peer_id: "p-2".into() });
    let r = handle_signaling_event(
        SignalingEvent::IceCandidateReceived { from_peer_id: "p-2".into(), candidate: "{}".into() },
        &mut engine,
    );
    assert_eq!(r.rtc, Some(RtcRequest::AddIceCandidate { candidate: "{}".into() }));
    assert_eq!(engine.state(), CallState::Calling { peer_id: "p-2".into() });
}

#[test]
fn a_refused_or_ended_call_is_over() {
    let mut engine = engine_in_call();
    let r = handle_signaling_event(
        SignalingEvent::CallRejected { by_peer_id: "p-2".into(), reason: Some("busy".into()) },
        &mut engine,
    );
    assert_eq!(
        r,
        Reaction {
            notice: UiNotice::CallRejected { by_peer_id: "p-2".into(), reason: Some("busy".into()) },
            contact_status: None,
            rtc: Some(RtcRequest::Close),
            call_event: Some(CallEvent::StateChanged(CallState::Ended)),
        }
    );
    assert_eq!(engine.state(), CallState::Ended);
    assert!(!engine.is_connected());
    let mut engine = engine_in_call();
    let r = handle_signaling_event(SignalingEvent::CallEnded { by_peer_id: "p-2".into() }, &mut engine);
    assert_eq!(r.notice, UiNotice::CallEnded { by_peer_id: "p-2".into() });
    assert_eq!(r.rtc, Some(RtcRequest::Close));
    assert_eq!(r.call_event, Some(CallEvent::StateChanged(CallState::Ended)));
    assert_eq!(engine.state(), CallState::Ended);
}

#[test]
fn our_candidates_go_to_the_peer_of_the_call() {
    let candidate = CallEvent::IceCandidate { candidate: "{\"candidate\":\"c\"}".into() };
    for state in [
        CallState::Calling { peer_id: "p-2".into() },
        CallState::Ringing { peer_id: "p-2".into(), username: "bob".into() },
        CallState::Connecting { peer_id: "p-2".into() },
        CallState::Connected { peer_id: "p-2".into() },
    ] {
        assert_eq!(
            handle_call_event(candidate.clone(), &state),
            CallReaction {
                send_candidate: Some(("p-2".to_string(), "{\"candidate\":\"c\"}".to_string())),
                notice: Some(UiNotice::IceCandidate { candidate: "{\"candidate\":\"c\"}".into() }),
            }
        );
    }
    for state in [CallState::Idle, CallState::Ended] {
        let r = handle_call_event(candidate.clone(), &state);
        assert_eq!(r.send_candidate, None);
        assert!(r.notice.is_some());
    }
}

#[test]
fn state_changes_and_errors_go_to_the_user_interface() {
    let r = handle_call_event(CallEvent::StateChanged(CallState::Ended), &CallState::Ended);
    assert_eq!(r, CallReaction { send_candidate: None, notice: Some(UiNotice::CallStateChanged(CallState::Ended)) });
    let r = handle_call_event(CallEvent::Error("x".into()), &CallState::Idle);
    assert_eq!(r, CallReaction { send_candidate: None, notice: Some(UiNotice::CallError("x".into())) });
    let r = handle_call_event(CallEvent::AudioLevel { input: 1, output: 2 }, &CallState::Idle);
    assert_eq!(r, CallReaction { send_candidate: None, notice: None });
}

#[test]
fn hanging_up_needs_a_call() {
    let mut engine = CallEngine::new();
    assert_eq!(hangup(&mut engine), Err("No active call".to_string()));
    assert_eq!(engine.state(), CallState::Idle);
    let mut engine = engine_in_call();
    assert_eq!(
        hangup(&mut engine),
        Ok(("p-2".to_string(), CallEvent::StateChanged(CallState::Ended)))
    );
    assert_eq!(engine.state(), CallState::Ended);
    assert_eq!(hangup(&mut engine), Err("No active call".to_string()));
    assert_eq!(engine.state(), CallState::Ended);
}

#[test]
fn notices_name_their_channels() {
    assert_eq!(UiNotice::SignalingConnected.channel(), "signaling:connected");
    assert_eq!(UiNotice::SignalingDisconnected.channel(), "signaling:disconnected");
    assert_eq!(UiNotice::Registered { peer_id: "a".into(), username: "b".into() }.channel(), "signaling:registered");
    assert_eq!(UiNotice::UserNotFound { username: "b".into() }.channel(), "signaling:user_not_found");
    assert_eq!(UiNotice::AnswerReceived { from_peer_id: "a".into() }.channel(), "call:answer_received");
    assert_eq!(UiNotice::CallRejected { by_peer_id: "a".into(), reason: None }.channel(), "call:rejected");
    assert_eq!(UiNotice::CallEnded { by_peer_id: "a".into() }.channel(), "call:ended");
    assert_eq!(UiNotice::ContactOnline { peer_id: "a".into() }.channel(), "contact:online");
    assert_eq!(UiNotice::ContactOffline { peer_id: "a".into() }.channel(), "contact:offline");
    assert_eq!(UiNotice::SignalingError { code: 1, message: "m".into() }.channel(), "signaling:error");
    assert_eq!(UiNotice::IceCandidate { candidate: "c".into() }.channel(), "call:ice_candidate");
    assert_eq!(UiNotice::CallStateChanged(CallState::Idle).channel(), "call:state_changed");
    assert_eq!(UiNotice::CallError("e".into()).channel(), "call:error");
}

#[test]
fn a_found_user_becomes_a_contact_to_store() {
    let info = ContactInfo { peer_id: "p-2".into(), username: "bob".into(), is_online: true };
    let contact = NewContact::from_found(&info);
    assert_eq!(
        contact,
        NewContact { peer_id: "p-2".into(), username: "bob".into(), display_name: None }
    );
    let stored = Contact {
        id: 1,
        peer_id: contact.peer_id.clone(),
        username: contact.username.clone(),
        display_name: None,
        is_online: false,
        created_at: "2024-01-01 00:00:00".into(),
        updated_at: "2024-01-01 00:00:00".into(),
    };
    assert_eq!(stored.clone(), stored);
}
