use std::sync::Arc;

use strife::api::{api_headers, authorization_value, gateway_bot_url, HeaderKind};
use strife::client::Client;
use strife::event_manager::{EventManager, HEARTBEAT_TASK, UPDATE_TASK};
use strife::gateway::{
    heartbeat_delay_ms, heartbeat_payload, identify_payload, ready_sequence, HandshakeError,
    IDENTIFY_INTENTS,
};
use strife::handshake::{handshake_step, GatewayEvent, HandshakeAction, HandshakeState};
use strife::heart_beat::Heartbeat;
use strife::json_data::{BotGateway, SessionStartLimit};
use strife::ops::{Op0, Op1, Op10, Op10Data};
use strife::requests::RequestTable;
use strife::{DISCORD_API, USER_AGENT_VAL};

fn sample_gateway() -> BotGateway {
    BotGateway {
        url: String::from("wss://gateway.discord.gg"),
        shards: 1,
        session_start_limit: SessionStartLimit {
            total: 1000,
            remaining: 999,
            reset_after: 14400000,
            max_concurrency: 1,
        },
    }
}

fn dispatch(s: i32) -> Op0 {
    Op0 { op: 0, s, t: Some(String::from("READY")) }
}

fn hello(interval: i32) -> Op10 {
    Op10 { op: 10, d: Op10Data { heartbeat_interval: interval, _trace: None }, s: None }
}

#[test]
fn connect_url_appends_version_and_encoding() {
    let g = sample_gateway();
    assert_eq!(g.connect_url(), "wss://gateway.discord.gg/?v=9&encoding=json");
}

#[test]
fn client_connects_to_its_gateway() {
    let client = Client::new(Arc::new(sample_gateway()));
    assert_eq!(client.connect_url(), "wss://gateway.discord.gg/?v=9&encoding=json");
}

#[test]
fn heartbeat_connects_to_its_gateway() {
    let hb = Heartbeat::new(Arc::new(sample_gateway()));
    assert_eq!(hb.connect_url(), "wss://gateway.discord.gg/?v=9&encoding=json");
}

#[test]
fn no_heartbeat_before_the_handshake() {
    let hb = Heartbeat::new(Arc::new(sample_gateway()));
    assert_eq!(hb.heartbeat(), None);
    let m = EventManager::new();
    assert_eq!(m.heartbeat(), None);
}

#[test]
fn heartbeat_payload_reports_sequence() {
    assert_eq!(heartbeat_payload(-1), Op1 { op: 1, d: None, s: None });
    assert_eq!(heartbeat_payload(0), Op1 { op: 1, d: None, s: Some(0) });
    assert_eq!(heartbeat_payload(42), Op1 { op: 1, d: None, s: Some(42) });
    assert_eq!(heartbeat_payload(-2), Op1 { op: 1, d: None, s: Some(-2) });
}

fn token() -> String {
    String::from("tok")
}

fn os() -> String {
    String::from("linux")
}

fn reply(text: &str, d: Option<Op0>) -> GatewayEvent {
    GatewayEvent::IdentifyReply { text: String::from(text), dispatch: d }
}

fn expect_identify(action: Option<HandshakeAction>) {
    match action {
        Some(HandshakeAction::SendIdentify(p)) => {
            assert_eq!(p.op, 2);
            let d = p.d.unwrap();
            assert_eq!(d.token, "tok");
            assert_eq!(d.properties.os, "linux");
        }
        other => panic!("expected the identify, got {:?}", other),
    }
}

#[test]
fn full_handshake_then_heartbeats() {
    let mut m = EventManager::new();
    expect_identify(m.on_gateway_event(&GatewayEvent::Hello(hello(41250)), &token(), &os()));
    assert_eq!(m.heartbeat(), None);
    match m.on_gateway_event(&reply("{\"op\":0}", Some(dispatch(7))), &token(), &os()) {
        Some(HandshakeAction::StartHeartbeats { seq, delay_ms }) => {
            assert_eq!(seq, 7);
            assert_eq!(delay_ms, 41250);
        }
        other => panic!("expected heartbeats to start, got {:?}", other),
    }
    assert_eq!(m.heartbeat(), Some(Op1 { op: 1, d: None, s: Some(7) }));

    let mut hb = Heartbeat::new(Arc::new(sample_gateway()));
    expect_identify(hb.on_gateway_event(&GatewayEvent::Hello(hello(45000)), &token(), &os()));
    match hb.on_gateway_event(&reply("x", Some(dispatch(1))), &token(), &os()) {
        Some(HandshakeAction::StartHeartbeats { seq: 1, delay_ms: 45000 }) => {}
        other => panic!("expected heartbeats to start, got {:?}", other),
    }
    assert_eq!(hb.heartbeat(), Some(Op1 { op: 1, d: None, s: Some(1) }));
}

#[test]
fn refused_intents_abort_and_keep_sequence() {
    let mut hb = Heartbeat::new(Arc::new(sample_gateway()));
    expect_identify(hb.on_gateway_event(&GatewayEvent::Hello(hello(41250)), &token(), &os()));
    match hb.on_gateway_event(&reply("Disallowed intent(s).", Some(dispatch(3))), &token(), &os()) {
        Some(HandshakeAction::Abort(HandshakeError::DisallowedIntents)) => {}
        other => panic!("expected an abort, got {:?}", other),
    }
    assert_eq!(hb.heartbeat(), None);
    match hb.on_gateway_event(&GatewayEvent::Hello(hello(1)), &token(), &os()) {
        None => {}
        other => panic!("a failed handshake asks for nothing, got {:?}", other),
    }
    assert_eq!(hb.heartbeat(), None);
}

#[test]
fn reply_that_is_no_dispatch_is_malformed() {
    let mut m = EventManager::new();
    expect_identify(m.on_gateway_event(&GatewayEvent::Hello(hello(41250)), &token(), &os()));
    match m.on_gateway_event(&reply("not json", None), &token(), &os()) {
        Some(HandshakeAction::Abort(HandshakeError::MalformedReady)) => {}
        other => panic!("expected an abort, got {:?}", other),
    }
    assert_eq!(m.heartbeat(), None);
}

#[test]
fn events_out_of_stage_are_ignored() {
    let (state, action) =
        handshake_step(HandshakeState::AwaitingHello, &reply("x", Some(dispatch(2))), &token(), &os());
    assert_eq!(state, HandshakeState::AwaitingHello);
    assert!(action.is_none());
    let waiting = HandshakeState::AwaitingReady { heartbeat_interval: 10 };
    let (state, action) = handshake_step(waiting, &GatewayEvent::Hello(hello(5)), &token(), &os());
    assert_eq!(state, waiting);
    assert!(action.is_none());
    let open = HandshakeState::Established { heartbeat_interval: 10 };
    let (state, action) = handshake_step(open, &reply("x", Some(dispatch(2))), &token(), &os());
    assert_eq!(state, open);
    assert!(action.is_none());
}

#[test]
fn handshake_step_moves_through_the_stages() {
    let (state, action) =
        handshake_step(HandshakeState::AwaitingHello, &GatewayEvent::Hello(hello(-1)), &token(), &os());
    assert_eq!(state, HandshakeState::AwaitingReady { heartbeat_interval: -1 });
    expect_identify(action);
    let (state, action) = handshake_step(state, &reply("x", Some(dispatch(-1))), &token(), &os());
    assert_eq!(state, HandshakeState::Established { heartbeat_interval: -1 });
    match action {
        Some(HandshakeAction::StartHeartbeats { seq: -1, delay_ms }) => assert_eq!(delay_ms, u64::MAX),
        other => panic!("expected heartbeats to start, got {:?}", other),
    }
}

#[test]
fn ready_sequence_cases() {
    assert_eq!(ready_sequence(&String::from("x"), &Some(dispatch(9))), Ok(9));
    assert_eq!(
        ready_sequence(&String::from("Disallowed intent(s)."), &Some(dispatch(9))),
        Err(HandshakeError::DisallowedIntents)
    );
    assert_eq!(
        ready_sequence(&String::from("Disallowed intent(s)"), &None),
        Err(HandshakeError::MalformedReady)
    );
}

#[test]
fn identify_payload_fields() {
    let p = identify_payload(String::from("tok"), String::from("linux"));
    assert_eq!(p.op, 2);
    let d = p.d.unwrap();
    assert_eq!(d.token, "tok");
    assert_eq!(d.properties.os, "linux");
    assert_eq!(d.properties.browser, "Strife");
    assert_eq!(d.properties.device, "Strife");
    assert_eq!(d.compress, None);
    assert_eq!(d.large_threshold, None);
    assert_eq!(d.shards, None);
    assert_eq!(d.intents, 1 << 9);
    assert_eq!(IDENTIFY_INTENTS, 512);
}

#[test]
fn heartbeat_delay_follows_interval() {
    assert_eq!(heartbeat_delay_ms(&hello(41250)), 41250);
    assert_eq!(heartbeat_delay_ms(&hello(0)), 0);
    assert_eq!(heartbeat_delay_ms(&hello(-1)), u64::MAX);
    assert_eq!(heartbeat_delay_ms(&hello(i32::MIN)), (i32::MIN as i64 as u64));
}

#[test]
fn registered_tasks_are_pending() {
    let mut m = EventManager::new();
    assert!(!m.has_request(HEARTBEAT_TASK));
    assert!(!m.has_request(UPDATE_TASK));
    m.register_tasks();
    assert!(m.has_request("heartbeat_loop"));
    assert!(m.has_request("check_for_update"));
    assert!(!m.has_request("event_loop"));
    assert_eq!(m.poll_request(HEARTBEAT_TASK), None);
    assert_eq!(m.poll_request(UPDATE_TASK), None);
    m.register_tasks();
    assert_eq!(m.poll_request(HEARTBEAT_TASK), None);
}

#[test]
fn request_table_insert_and_get() {
    let mut t = RequestTable::new();
    assert!(!t.contains_key("a"));
    assert_eq!(t.get("a"), None);
    t.insert(String::from("a"), String::from("one"), false);
    t.insert(String::from("b"), String::from("two"), true);
    assert_eq!(t.get("a"), Some((String::from("one"), false)));
    assert_eq!(t.get("b"), Some((String::from("two"), true)));
    t.insert(String::from("a"), String::from("three"), true);
    assert_eq!(t.get("a"), Some((String::from("three"), true)));
    assert_eq!(t.get("b"), Some((String::from("two"), true)));
    assert!(t.contains_key("b"));
    assert!(!t.contains_key("c"));
}

#[test]
fn api_request_parts() {
    assert_eq!(DISCORD_API, "https://discord.com/api/v9");
    assert_eq!(gateway_bot_url(), "https://discord.com/api/v9/gateway/bot");
    assert_eq!(authorization_value("abc"), "Bot abc");
    let h = api_headers("abc");
    assert_eq!(h.len(), 3);
    assert_eq!(h[0].kind, HeaderKind::UserAgent);
    assert_eq!(h[0].value, USER_AGENT_VAL);
    assert_eq!(h[1].kind, HeaderKind::Authorization);
    assert_eq!(h[1].value, "Bot abc");
    assert_eq!(h[2].kind, HeaderKind::Accept);
    assert_eq!(h[2].value, "application/json");
}
