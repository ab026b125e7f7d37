use call_core::crypto::{JsonValue, KeyPair};
use call_core::signaling::client::{
    frame_message, HEARTBEAT_INTERVAL_SECS, OUTBOUND_CAPACITY, REGISTRATION_TIMEOUT_SECS,
};
use call_core::signaling::{
    AnswerPayload, ClientState, ContactInfo, Dispatch, FindUserPayload, HangupPayload,
    HeartbeatPayload, IceCandidatePayload, OfferPayload, RegisterPayload, RegistrationReply,
    RejectCallPayload, ServerMessage, SignalingClient, SignalingError, SignalingEvent,
    SignedMessage,
};

fn key() -> KeyPair {
    KeyPair::from_seed([42u8; 32])
}

fn client() -> SignalingClient {
    SignalingClient::new("https://signal.example.org".to_string(), key())
}

fn registered_client() -> SignalingClient {
    let mut c = client();
    c.connect_and_register("alice".to_string());
    c.handle_server_message(ServerMessage::Registered {
        peer_id: "p-1".to_string(),
        username: "alice".to_string(),
        timestamp: 1,
    });
    c
}

fn parse(text: &str) -> serde_json::Value {
    serde_json::from_str(text).unwrap()
}

fn field<'a>(v: &'a serde_json::Value, name: &str) -> &'a str {
    v.get(name).unwrap().as_str().unwrap()
}

fn from_serde(v: &serde_json::Value) -> JsonValue {
    match v {
        serde_json::Value::Null => JsonValue::Null,
        serde_json::Value::Bool(b) => JsonValue::Bool(*b),
        serde_json::Value::Number(n) => match n.as_i64() {
            Some(whole) => JsonValue::Number(whole),
            None => JsonValue::Real(n.to_string()),
        },
        serde_json::Value::String(s) => JsonValue::Text(s.clone()),
        serde_json::Value::Array(a) => JsonValue::Array(a.iter().map(from_serde).collect()),
        serde_json::Value::Object(m) => {
            JsonValue::Object(m.iter().map(|(k, v)| (k.clone(), from_serde(v))).collect())
        }
    }
}

#[test]
fn payloads_carry_their_type() {
    assert_eq!(RegisterPayload::new("a".into(), "k".into()).msg_type, "register");
    assert_eq!(FindUserPayload::new("p".into(), "t".into()).msg_type, "find_user");
    assert_eq!(OfferPayload::new("a".into(), "b".into(), "s".into()).msg_type, "offer");
    assert_eq!(AnswerPayload::new("a".into(), "b".into(), "s".into()).msg_type, "answer");
    assert_eq!(
        IceCandidatePayload::new("a".into(), "b".into(), "c".into()).msg_type,
        "ice_candidate"
    );
    assert_eq!(RejectCallPayload::new("a".into(), "b".into(), None).msg_type, "reject_call");
    assert_eq!(HangupPayload::new("a".into(), "b".into()).msg_type, "hangup");
    assert_eq!(HeartbeatPayload::new("p".into()).msg_type, "heartbeat");
    let offer = OfferPayload::new("from".into(), "to".into(), "sdp".into());
    assert_eq!(offer.from_peer_id, "from");
    assert_eq!(offer.to_peer_id, "to");
    assert_eq!(offer.sdp, "sdp");
}

#[test]
fn payloads_are_written_in_camel_case() {
    assert_eq!(
        RegisterPayload::new("alice".into(), "PK".into()).to_json().to_json_text(),
        r#"{"type":"register","username":"alice","publicKey":"PK"}"#
    );
    assert_eq!(
        FindUserPayload::new("p-1".into(), "bob".into()).to_json().to_json_text(),
        r#"{"type":"find_user","peerId":"p-1","targetUsername":"bob"}"#
    );
    assert_eq!(
        OfferPayload::new("p-1".into(), "p-2".into(), "v=0".into()).to_json().to_json_text(),
        r#"{"type":"offer","fromPeerId":"p-1","toPeerId":"p-2","sdp":"v=0"}"#
    );
    assert_eq!(
        AnswerPayload::new("p-1".into(), "p-2".into(), "v=0".into()).to_json().to_json_text(),
        r#"{"type":"answer","fromPeerId":"p-1","toPeerId":"p-2","sdp":"v=0"}"#
    );
    assert_eq!(
        IceCandidatePayload::new("p-1".into(), "p-2".into(), "{}".into()).to_json().to_json_text(),
        r#"{"type":"ice_candidate","fromPeerId":"p-1","toPeerId":"p-2","candidate":"{}"}"#
    );
    assert_eq!(
        RejectCallPayload::new("p-1".into(), "p-2".into(), Some("busy".into()))
            .to_json()
            .to_json_text(),
        r#"{"type":"reject_call","fromPeerId":"p-1","toPeerId":"p-2","reason":"busy"}"#
    );
    assert_eq!(
        RejectCallPayload::new("p-1".into(), "p-2".into(), None).to_json().to_json_text(),
        r#"{"type":"reject_call","fromPeerId":"p-1","toPeerId":"p-2"}"#
    );
    assert_eq!(
        HangupPayload::new("p-1".into(), "p-2".into()).to_json().to_json_text(),
        r#"{"type":"hangup","fromPeerId":"p-1","toPeerId":"p-2"}"#
    );
    assert_eq!(
        HeartbeatPayload::new("p-1".into()).to_json().to_json_text(),
        r#"{"type":"heartbeat","peerId":"p-1"}"#
    );
}

#[test]
fn a_framed_message_carries_time_and_a_signature_that_verifies() {
    let keypair = key();
    let payload = HangupPayload::new("p-1".into(), "p-2".into()).to_json();
    let text = frame_message(&keypair, payload.duplicate(), 1700000000000);
    let expected_signature = keypair.sign_base64(
        br#"{"fromPeerId":"p-1","timestamp":1700000000000,"toPeerId":"p-2","type":"hangup"}"#,
    );
    assert_eq!(
        text,
        format!(
            r#"{{"type":"hangup","fromPeerId":"p-1","toPeerId":"p-2","timestamp":1700000000000,"signature":"{}"}}"#,
            expected_signature
        )
    );
    let message = from_serde(&parse(&text));
    assert!(keypair.verify_message(&message));
    assert!(!KeyPair::from_seed([1u8; 32]).verify_message(&message));
    let tampered = message.with("toPeerId", JsonValue::Text("p-3".to_string())).with(
        "signature",
        JsonValue::Text(expected_signature),
    );
    assert!(!keypair.verify_message(&tampered));
    assert!(!keypair.verify_message(&payload));
    assert!(!keypair.verify_message(&JsonValue::Null));
}

#[test]
fn a_signed_message_replaces_time_and_signature_that_the_payload_brings() {
    let keypair = key();
    let payload = JsonValue::Object(vec![
        ("signature".to_string(), JsonValue::Text("forged".to_string())),
        ("type".to_string(), JsonValue::Text("heartbeat".to_string())),
        ("timestamp".to_string(), JsonValue::Number(1)),
    ]);
    let signed = SignedMessage::new(&keypair, payload, 99);
    assert_eq!(signed.timestamp, 99);
    assert_eq!(signed.signature.len(), 88);
    let message = signed.to_json();
    assert_eq!(
        message.to_json_text(),
        format!(r#"{{"type":"heartbeat","timestamp":99,"signature":"{}"}}"#, signed.signature)
    );
    assert!(keypair.verify_message(&message));
}

#[test]
fn a_payload_that_is_no_object_goes_out_as_it_is() {
    assert_eq!(frame_message(&key(), JsonValue::Number(5), 1), "5");
}

#[test]
fn a_new_client_is_not_connected() {
    let mut c = client();
    assert!(!c.is_connected());
    assert_eq!(c.peer_id(), None);
    assert_eq!(c.username(), None);
    assert_eq!(c.next_outbound(), None);
    assert_eq!(c.keypair().public_key_bytes(), key().public_key_bytes());
    assert_eq!(c.find_user_sync("bob".to_string()), Err(SignalingError::NotConnected));
    assert_eq!(c.send_heartbeat_sync(), Err(SignalingError::NotConnected));
    assert_eq!(c.find_user("bob".to_string()), Err(SignalingError::NotConnected));
    assert_eq!(c.heartbeat_tick(), None);
}

#[test]
fn the_websocket_address_comes_from_the_server_address() {
    assert_eq!(client().websocket_url(), "wss://signal.example.org/ws");
    let plain = SignalingClient::new("http://localhost:8787".to_string(), key());
    assert_eq!(plain.websocket_url(), "ws://localhost:8787/ws");
}

#[test]
fn connecting_queues_the_registration() {
    let mut c = client();
    assert_eq!(c.connect_and_register("alice".to_string()), SignalingEvent::Connected);
    assert!(c.is_connected());
    assert_eq!(c.username(), Some("alice".to_string()));
    assert_eq!(c.peer_id(), None);
    let text = c.next_outbound().unwrap();
    let sent = parse(&text);
    assert_eq!(field(&sent, "type"), "register");
    assert_eq!(field(&sent, "username"), "alice");
    assert_eq!(field(&sent, "publicKey"), key().public_key_base64());
    assert!(sent.get("timestamp").unwrap().as_i64().unwrap() > 1_600_000_000_000);
    assert_eq!(field(&sent, "signature").len(), 88);
    assert!(key().verify_message(&from_serde(&sent)));
    assert_eq!(c.next_outbound(), None);
    // Not registered yet: nothing but the registration can be sent.
    assert_eq!(c.send_offer_sync("p-2".into(), "v=0".into()), Err(SignalingError::NotConnected));
}

#[test]
fn registration_names_the_client() {
    let mut c = client();
    c.connect_and_register("alice".to_string());
    let d = c.handle_server_message(ServerMessage::Registered {
        peer_id: "p-1".to_string(),
        username: "alice".to_string(),
        timestamp: 1700000000000,
    });
    assert_eq!(
        d,
        Dispatch {
            registration: Some(Ok("p-1".to_string())),
            event: Some(SignalingEvent::Registered {
                peer_id: "p-1".to_string(),
                username: "alice".to_string()
            }),
        }
    );
    assert_eq!(c.peer_id(), Some("p-1".to_string()));
    assert_eq!(c.username(), Some("alice".to_string()));
    assert_eq!(
        SignalingClient::finish_registration(RegistrationReply::Answered(d.registration.unwrap())),
        Ok("p-1".to_string())
    );
}

#[test]
fn an_incoming_offer_is_an_incoming_call() {
    let mut c = registered_client();
    let d = c.handle_server_message(ServerMessage::IncomingOffer {
        from_peer_id: "p-2".to_string(),
        from_username: "bob".to_string(),
        sdp: "v=0...".to_string(),
        timestamp: 5,
    });
    assert_eq!(d.registration, None);
    assert_eq!(
        d.event,
        Some(SignalingEvent::IncomingCall {
            from_peer_id: "p-2".to_string(),
            from_username: "bob".to_string(),
            sdp: "v=0...".to_string(),
        })
    );
    assert_eq!(c.peer_id(), Some("p-1".to_string()));
}

#[test]
fn every_server_message_has_its_event() {
    let mut c = registered_client();
    let cases: Vec<(ServerMessage, Option<SignalingEvent>)> = vec![
        (
            ServerMessage::UserFound {
                peer_id: "p-2".into(),
                username: "bob".into(),
                is_online: true,
                timestamp: 1,
            },
            Some(SignalingEvent::UserFound(ContactInfo {
                peer_id: "p-2".into(),
                username: "bob".into(),
                is_online: true,
            })),
        ),
        (
            ServerMessage::UserNotFound { username: "bob".into(), timestamp: 1 },
            Some(SignalingEvent::UserNotFound { username: "bob".into() }),
        ),
        (
            ServerMessage::IncomingAnswer { from_peer_id: "p-2".into(), sdp: "v=0".into(), timestamp: 1 },
            Some(SignalingEvent::AnswerReceived { from_peer_id: "p-2".into(), sdp: "v=0".into() }),
        ),
        (
            ServerMessage::IncomingIceCandidate {
                from_peer_id: "p-2".into(),
                candidate: "{}".into(),
                timestamp: 1,
            },
            Some(SignalingEvent::IceCandidateReceived {
                from_peer_id: "p-2".into(),
                candidate: "{}".into(),
            }),
        ),
        (
            ServerMessage::CallRejected {
                by_peer_id: "p-2".into(),
                reason: Some("busy".into()),
                timestamp: 1,
            },
            Some(SignalingEvent::CallRejected { by_peer_id: "p-2".into(), reason: Some("busy".into()) }),
        ),
        (
            ServerMessage::CallEnded { by_peer_id: "p-2".into(), timestamp: 1 },
            Some(SignalingEvent::CallEnded { by_peer_id: "p-2".into() }),
        ),
        (
            ServerMessage::UserOnline { peer_id: "p-2".into(), timestamp: 1 },
            Some(SignalingEvent::ContactOnline { peer_id: "p-2".into() }),
        ),
        (
            ServerMessage::UserOffline { peer_id: "p-2".into(), timestamp: 1 },
            Some(SignalingEvent::ContactOffline { peer_id: "p-2".into() }),
        ),
        (ServerMessage::Pong { timestamp: 1 }, None),
    ];
    for (msg, event) in cases {
        let d = c.handle_server_message(msg);
        assert_eq!(d.registration, None);
        assert_eq!(d.event, event);
        assert_eq!(c.peer_id(), Some("p-1".to_string()));
        assert_eq!(c.username(), Some("alice".to_string()));
        assert!(c.is_connected());
    }
}

#[test]
fn a_server_error_answers_the_registration_too() {
    let mut c = client();
    c.connect_and_register("alice".to_string());
    let d = c.handle_server_message(ServerMessage::Error {
        code: 409,
        message: "taken".to_string(),
        timestamp: 1,
    });
    let error = SignalingError::ServerError { code: 409, message: "taken".to_string() };
    assert_eq!(d.registration, Some(Err(error.clone())));
    assert_eq!(d.event, Some(SignalingEvent::Error { code: 409, message: "taken".to_string() }));
    assert_eq!(c.peer_id(), None);
    assert_eq!(
        SignalingClient::finish_registration(RegistrationReply::Answered(Err(error))),
        Err(SignalingError::RegistrationFailed("Server error: 409 - taken".to_string()))
    );
}

#[test]
fn any_error_in_answer_to_a_registration_is_a_failed_registration() {
    let cases = vec![
        (
            SignalingError::ServerError { code: -1, message: String::new() },
            "Server error: -1 - ",
        ),
        (SignalingError::NotConnected, "Not connected to signaling server"),
        (SignalingError::SendFailed("full".to_string()), "Failed to send message: full"),
        (
            SignalingError::ConnectionFailed("refused".to_string()),
            "WebSocket connection failed: refused",
        ),
        (SignalingError::RegistrationFailed("Timeout".to_string()), "Timeout"),
    ];
    for (error, text) in cases {
        assert_eq!(
            SignalingClient::finish_registration(RegistrationReply::Answered(Err(error))),
            Err(SignalingError::RegistrationFailed(text.to_string()))
        );
    }
}

#[test]
fn errors_say_what_went_wrong() {
    assert_eq!(
        SignalingError::ConnectionFailed("refused".to_string()).message(),
        "WebSocket connection failed: refused"
    );
    assert_eq!(SignalingError::NotConnected.message(), "Not connected to signaling server");
    assert_eq!(
        SignalingError::SendFailed("no available capacity".to_string()).message(),
        "Failed to send message: no available capacity"
    );
    assert_eq!(
        SignalingError::RegistrationFailed("Timeout".to_string()).message(),
        "Registration failed: Timeout"
    );
    assert_eq!(
        SignalingError::ServerError { code: 2147483647, message: "m".to_string() }.message(),
        "Server error: 2147483647 - m"
    );
    assert_eq!(
        SignalingError::ServerError { code: -2147483648, message: "m".to_string() }.message(),
        "Server error: -2147483648 - m"
    );
    assert_eq!(
        SignalingError::ServerError { code: 0, message: "zero".to_string() }.message(),
        "Server error: 0 - zero"
    );
}

#[test]
fn a_text_is_queued_where_there_is_room_and_comes_back_where_not() {
    let mut c = registered_client();
    assert!(c.next_outbound().is_some());
    let framed = c.hangup("p-2".to_string()).unwrap();
    for i in 0..100 {
        assert_eq!(c.enqueue(format!("text {}", i)), Ok(()));
    }
    assert_eq!(c.enqueue(framed.clone()), Err(framed.clone()));
    assert_eq!(c.next_outbound(), Some("text 0".to_string()));
    assert_eq!(c.enqueue(framed.clone()), Ok(()));
    let mut last = String::new();
    let mut count = 0;
    while let Some(text) = c.next_outbound() {
        last = text;
        count += 1;
    }
    assert_eq!(count, 100);
    assert_eq!(last, framed);
}

#[test]
fn registration_without_an_answer_fails() {
    assert_eq!(
        SignalingClient::finish_registration(RegistrationReply::TimedOut),
        Err(SignalingError::RegistrationFailed("Timeout".to_string()))
    );
    assert_eq!(
        SignalingClient::finish_registration(RegistrationReply::Closed),
        Err(SignalingError::RegistrationFailed("No response".to_string()))
    );
    assert_eq!(REGISTRATION_TIMEOUT_SECS, 10);
    assert_eq!(HEARTBEAT_INTERVAL_SECS, 25);
}

#[test]
fn commands_are_queued_in_order_and_signed() {
    let mut c = registered_client();
    assert!(c.next_outbound().is_some());
    assert_eq!(c.find_user_sync("bob".into()), Ok(()));
    assert_eq!(c.send_offer_sync("p-2".into(), "v=0 offer".into()), Ok(()));
    assert_eq!(c.send_answer_sync("p-2".into(), "v=0 answer".into()), Ok(()));
    assert_eq!(c.send_ice_candidate_sync("p-2".into(), "{\"candidate\":\"c\"}".into()), Ok(()));
    assert_eq!(c.reject_call_sync("p-2".into(), Some("busy".into())), Ok(()));
    assert_eq!(c.reject_call_sync("p-2".into(), None), Ok(()));
    assert_eq!(c.hangup_sync("p-2".into()), Ok(()));
    assert_eq!(c.send_heartbeat_sync(), Ok(()));
    let mut sent: Vec<serde_json::Value> = Vec::new();
    while let Some(text) = c.next_outbound() {
        sent.push(parse(&text));
    }
    let types: Vec<&str> = sent.iter().map(|m| field(m, "type")).collect();
    assert_eq!(
        types,
        vec![
            "find_user",
            "offer",
            "answer",
            "ice_candidate",
            "reject_call",
            "reject_call",
            "hangup",
            "heartbeat"
        ]
    );
    assert_eq!(field(&sent[0], "peerId"), "p-1");
    assert_eq!(field(&sent[0], "targetUsername"), "bob");
    assert_eq!(field(&sent[1], "fromPeerId"), "p-1");
    assert_eq!(field(&sent[1], "toPeerId"), "p-2");
    assert_eq!(field(&sent[1], "sdp"), "v=0 offer");
    assert_eq!(field(&sent[2], "sdp"), "v=0 answer");
    assert_eq!(field(&sent[3], "candidate"), "{\"candidate\":\"c\"}");
    assert_eq!(field(&sent[4], "reason"), "busy");
    assert!(sent[5].get("reason").is_none());
    assert_eq!(field(&sent[6], "toPeerId"), "p-2");
    assert_eq!(field(&sent[7], "peerId"), "p-1");
    for message in &sent {
        assert!(message.get("timestamp").unwrap().is_i64());
        assert!(key().verify_message(&from_serde(message)));
    }
}

#[test]
fn commands_for_a_waiting_sender_hand_the_text_back() {
    let c = registered_client();
    let texts = vec![
        c.find_user("bob".into()).unwrap(),
        c.send_offer("p-2".into(), "v=0".into()).unwrap(),
        c.send_answer("p-2".into(), "v=0".into()).unwrap(),
        c.send_ice_candidate("p-2".into(), "{}".into()).unwrap(),
        c.reject_call("p-2".into(), None).unwrap(),
        c.hangup("p-2".into()).unwrap(),
        c.send_heartbeat().unwrap(),
    ];
    let types: Vec<String> =
        texts.iter().map(|t| field(&parse(t), "type").to_string()).collect();
    assert_eq!(
        types,
        vec!["find_user", "offer", "answer", "ice_candidate", "reject_call", "hangup", "heartbeat"]
    );
    for text in &texts {
        assert!(key().verify_message(&from_serde(&parse(text))));
    }
}

#[test]
fn a_full_queue_refuses_without_waiting() {
    let mut c = registered_client();
    assert_eq!(OUTBOUND_CAPACITY, 100);
    // The registration is the first of the hundred.
    for _ in 0..99 {
        assert_eq!(c.send_heartbeat_sync(), Ok(()));
    }
    assert!(matches!(c.send_heartbeat_sync(), Err(SignalingError::SendFailed(_))));
    assert!(matches!(c.find_user_sync("bob".into()), Err(SignalingError::SendFailed(_))));
    assert!(matches!(c.hangup_sync("p-2".into()), Err(SignalingError::SendFailed(_))));
    assert!(matches!(c.heartbeat_tick(), Some(Err(SignalingError::SendFailed(_)))));
    let first = parse(&c.next_outbound().unwrap());
    assert_eq!(field(&first, "type"), "register");
    assert_eq!(c.send_offer_sync("p-2".into(), "v=0".into()), Ok(()));
    let mut count = 0;
    let mut last = String::new();
    while let Some(text) = c.next_outbound() {
        count += 1;
        last = text;
    }
    assert_eq!(count, 100);
    assert_eq!(field(&parse(&last), "type"), "offer");
    // A waiting sender is not bound by the queue.
    assert!(c.send_heartbeat().is_ok());
}

#[test]
fn heartbeats_stop_with_the_connection() {
    let mut c = registered_client();
    c.next_outbound();
    assert_eq!(c.heartbeat_tick(), Some(Ok(())));
    assert_eq!(field(&parse(&c.next_outbound().unwrap()), "type"), "heartbeat");
    assert_eq!(c.connection_closed(), SignalingEvent::Disconnected);
    assert!(!c.is_connected());
    assert_eq!(c.peer_id(), Some("p-1".to_string()));
    assert_eq!(c.heartbeat_tick(), None);
    assert_eq!(c.next_outbound(), None);
}

#[test]
fn client_state_and_errors_compare_by_value() {
    let state = ClientState { is_connected: false, peer_id: None, username: None };
    assert_eq!(state.clone(), state);
    assert_ne!(
        SignalingError::ConnectionFailed("x".to_string()),
        SignalingError::SendFailed("x".to_string())
    );
}

fn read(text: &str) -> Option<ServerMessage> {
    ServerMessage::from_json(&from_serde(&parse(text)))
}

#[test]
fn the_registered_message_names_the_client() {
    let msg = read(r#"{"type":"registered","peerId":"p-1","username":"alice","timestamp":1700000000000}"#)
        .unwrap();
    assert_eq!(
        msg,
        ServerMessage::Registered {
            peer_id: "p-1".to_string(),
            username: "alice".to_string(),
            timestamp: 1700000000000
        }
    );
    let mut c = client();
    c.connect_and_register("alice".to_string());
    let d = c.handle_server_message(msg);
    assert_eq!(c.peer_id(), Some("p-1".to_string()));
    assert_eq!(
        d.event,
        Some(SignalingEvent::Registered { peer_id: "p-1".to_string(), username: "alice".to_string() })
    );
}

#[test]
fn the_incoming_offer_message_is_an_incoming_call() {
    let msg = read(
        r#"{"type":"incoming_offer","fromPeerId":"p-2","fromUsername":"bob","sdp":"v=0...","timestamp":17}"#,
    )
    .unwrap();
    let mut c = registered_client();
    assert_eq!(
        c.handle_server_message(msg).event,
        Some(SignalingEvent::IncomingCall {
            from_peer_id: "p-2".to_string(),
            from_username: "bob".to_string(),
            sdp: "v=0...".to_string(),
        })
    );
}

#[test]
fn every_kind_of_server_message_is_read() {
    assert_eq!(
        read(r#"{"type":"user_found","peerId":"p","username":"u","isOnline":true,"timestamp":1}"#),
        Some(ServerMessage::UserFound {
            peer_id: "p".into(),
            username: "u".into(),
            is_online: true,
            timestamp: 1
        })
    );
    assert_eq!(
        read(r#"{"type":"user_not_found","username":"u","timestamp":2}"#),
        Some(ServerMessage::UserNotFound { username: "u".into(), timestamp: 2 })
    );
    assert_eq!(
        read(r#"{"type":"incoming_answer","fromPeerId":"p","sdp":"s","timestamp":3}"#),
        Some(ServerMessage::IncomingAnswer { from_peer_id: "p".into(), sdp: "s".into(), timestamp: 3 })
    );
    assert_eq!(
        read(r#"{"type":"incoming_ice_candidate","fromPeerId":"p","candidate":"c","timestamp":4}"#),
        Some(ServerMessage::IncomingIceCandidate {
            from_peer_id: "p".into(),
            candidate: "c".into(),
            timestamp: 4
        })
    );
    assert_eq!(
        read(r#"{"type":"call_rejected","byPeerId":"p","reason":"busy","timestamp":5}"#),
        Some(ServerMessage::CallRejected {
            by_peer_id: "p".into(),
            reason: Some("busy".into()),
            timestamp: 5
        })
    );
    assert_eq!(
        read(r#"{"type":"call_rejected","byPeerId":"p","reason":null,"timestamp":5}"#),
        Some(ServerMessage::CallRejected { by_peer_id: "p".into(), reason: None, timestamp: 5 })
    );
    assert_eq!(
        read(r#"{"type":"call_rejected","byPeerId":"p","timestamp":5}"#),
        Some(ServerMessage::CallRejected { by_peer_id: "p".into(), reason: None, timestamp: 5 })
    );
    assert_eq!(
        read(r#"{"type":"call_ended","byPeerId":"p","timestamp":6}"#),
        Some(ServerMessage::CallEnded { by_peer_id: "p".into(), timestamp: 6 })
    );
    assert_eq!(
        read(r#"{"type":"user_offline","peerId":"p","timestamp":7}"#),
        Some(ServerMessage::UserOffline { peer_id: "p".into(), timestamp: 7 })
    );
    assert_eq!(
        read(r#"{"type":"user_online","peerId":"p","timestamp":8}"#),
        Some(ServerMessage::UserOnline { peer_id: "p".into(), timestamp: 8 })
    );
    assert_eq!(
        read(r#"{"type":"error","code":-404,"message":"m","timestamp":9}"#),
        Some(ServerMessage::Error { code: -404, message: "m".into(), timestamp: 9 })
    );
    assert_eq!(read(r#"{"type":"pong","timestamp":-10}"#), Some(ServerMessage::Pong { timestamp: -10 }));
}

#[test]
fn unknown_fields_are_of_no_account() {
    assert_eq!(
        read(r#"{"extra":[1.5,{"a":null}],"timestamp":1,"peerId":"p","type":"user_online","more":0.1}"#),
        Some(ServerMessage::UserOnline { peer_id: "p".into(), timestamp: 1 })
    );
}

#[test]
fn malformed_server_messages_are_dropped() {
    for text in [
        r#"{"type":"unknown","timestamp":1}"#,
        r#"{"type":"Registered","peerId":"p","username":"u","timestamp":1}"#,
        r#"{"peerId":"p","username":"u","timestamp":1}"#,
        r#"{"type":"registered","username":"u","timestamp":1}"#,
        r#"{"type":"registered","peerId":"p","username":"u"}"#,
        r#"{"type":"registered","peerId":7,"username":"u","timestamp":1}"#,
        r#"{"type":"registered","peerId":"p","username":"u","timestamp":"1"}"#,
        r#"{"type":"user_found","peerId":"p","username":"u","isOnline":1,"timestamp":1}"#,
        r#"{"type":"call_rejected","byPeerId":"p","reason":5,"timestamp":5}"#,
        r#"{"type":"error","code":2147483648,"message":"m","timestamp":9}"#,
        r#"{"type":"error","code":-2147483649,"message":"m","timestamp":9}"#,
        r#"{"type":"error","code":"1","message":"m","timestamp":9}"#,
        r#"{"type":"error","code":1.5,"message":"m","timestamp":9}"#,
        r#"{"type":"pong","timestamp":1.0}"#,
        r#"{"type":"pong","timestamp":18446744073709551615}"#,
        r#"{"type":7,"timestamp":9}"#,
        r#"["pong"]"#,
        r#""pong""#,
        r#"null"#,
    ] {
        assert_eq!(read(text), None, "{}", text);
    }
    assert_eq!(
        read(r#"{"type":"error","code":2147483647,"message":"m","timestamp":9}"#),
        Some(ServerMessage::Error { code: 2147483647, message: "m".into(), timestamp: 9 })
    );
    assert_eq!(
        read(r#"{"type":"error","code":-2147483648,"message":"m","timestamp":9}"#),
        Some(ServerMessage::Error { code: -2147483648, message: "m".into(), timestamp: 9 })
    );
}

#[test]
fn a_full_queue_says_that_there_is_no_room() {
    let mut c = registered_client();
    for _ in 0..99 {
        assert_eq!(c.send_heartbeat_sync(), Ok(()));
    }
    assert_eq!(
        c.send_offer_sync("p-2".into(), "v=0".into()),
        Err(SignalingError::SendFailed("no available capacity".to_string()))
    );
}
