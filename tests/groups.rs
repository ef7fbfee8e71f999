use std::sync::{Arc, Mutex};

use group_relay::auth::{AuthData, AuthFailure, JwtExtractor, TokenPayload, WsJwtParams};
use group_relay::channel::PublishOutcome;
use group_relay::ingest::{IngestOutcome, MessageHandler};
use group_relay::message::{Broadcast, ServerMessage};
use group_relay::registry::GroupRegistry;
use group_relay::session::{ClientFrame, FrameStep, Phase, ReceiveFailure, Session, WsHandler, WsHandlerWithToken, WsQueryParams};
use serde_json::Value;
use tokio::sync::broadcast::error::TryRecvError;

fn join(registry: &mut GroupRegistry, g: &str, table: u16) -> Session {
    WsHandler::set_websocket(registry, WsQueryParams { group_id: g.to_string(), table_number: table })
}

fn auth(g: &str, sub: &str, table: u16) -> Result<JwtExtractor, AuthFailure> {
    Ok(JwtExtractor(AuthData {
        token_payload: TokenPayload {
            sub: sub.to_string(),
            restaurant_name: "diner".to_string(),
            table_number: table,
            table_count: 10,
            exp: 4_000_000_000,
        },
        group_id: g.to_string(),
    }))
}

fn order_for(targets: Option<Vec<u16>>) -> ServerMessage {
    ServerMessage {
        group_id: "r1".to_string(),
        table_number: targets,
        message_type: "order".to_string(),
        payload: Value::String("two coffees".to_string()),
    }
}

#[test]
fn same_group_same_channel() {
    let mut registry = GroupRegistry::new();
    let a = registry.get_or_create(&"r1".to_string());
    let b = registry.get_or_create(&"r1".to_string());
    let c = registry.get_or_create(&"r2".to_string());
    assert!(Arc::ptr_eq(&a, &b));
    assert!(!Arc::ptr_eq(&a, &c));
    assert!(!a.same_channel(&c));
    let mut ids = registry.group_ids();
    ids.sort();
    assert_eq!(ids, vec!["r1".to_string(), "r2".to_string()]);
}

#[test]
fn concurrent_joins_share_one_channel() {
    let registry = Arc::new(Mutex::new(GroupRegistry::new()));
    let rt = tokio::runtime::Builder::new_multi_thread().worker_threads(4).build().unwrap();
    let handles: Vec<_> = (0..16u16)
        .map(|t| {
            let registry = registry.clone();
            rt.spawn(async move {
                let mut guard = registry.lock().unwrap();
                let s = join(&mut guard, "fresh", t);
                s.channel_handle()
            })
        })
        .collect();
    let channels: Vec<_> = handles.into_iter().map(|h| rt.block_on(h).unwrap()).collect();
    for ch in &channels {
        assert!(Arc::ptr_eq(ch, &channels[0]));
    }
    assert_eq!(registry.lock().unwrap().group_ids(), vec!["fresh".to_string()]);
}

#[test]
fn slow_subscriber_does_not_stall_group() {
    let mut registry = GroupRegistry::new();
    let ch = registry.get_or_create(&"busy".to_string());
    let mut fast = ch.subscribe();
    let mut slow = ch.subscribe();
    let busy = order_for(None);
    let busy = ServerMessage { group_id: "busy".to_string(), ..busy };
    for i in 0..300u32 {
        let out = MessageHandler::send_message_to_websocket(&registry, &busy, Some(format!("m{}", i)));
        match &out {
            IngestOutcome::Sent(p) => {
                assert_eq!(p.outcome(), PublishOutcome::Delivered(2));
                assert_eq!(p.text(), &format!("m{}", i));
            }
            _ => panic!("ingest into a live group must publish"),
        }
        assert_eq!(fast.try_recv().unwrap(), format!("m{}", i));
    }
    let lag = match slow.try_recv() {
        Err(TryRecvError::Lagged(n)) => ReceiveFailure::Lagged(n),
        other => panic!("expected the slow subscriber to lag, got {:?}", other),
    };
    assert!(lag.keeps_pump());
    let next = slow.try_recv().unwrap();
    assert!(next.starts_with('m'));
    assert!(!ReceiveFailure::Closed.keeps_pump());
}

#[test]
fn targeted_order_reaches_only_its_table() {
    let mut registry = GroupRegistry::new();
    let mut a = join(&mut registry, "r1", 3);
    let mut b = join(&mut registry, "r1", 5);
    let mut rx_a = a.channel_handle().subscribe();
    let mut rx_b = b.channel_handle().subscribe();
    assert_eq!(a.announce_join().text(), "tb 3 join to the r1");
    assert_eq!(b.announce_join().text(), "tb 5 join to the r1");
    a.activate();
    b.activate();
    let order = order_for(Some(vec![3]));
    let text = "{\"group_id\":\"r1\",\"table_number\":[3],\"message_type\":\"order\",\"payload\":\"two coffees\"}";
    let out = MessageHandler::send_message_to_websocket(&registry, &order, Some(text.to_string()));
    assert_eq!(out.status(), 200);
    assert_eq!(out.reply_text(), "Message sent successfully");
    let mut got_a = Vec::new();
    while let Ok(item) = rx_a.try_recv() {
        let parsed = if item == text { Some(order_for(Some(vec![3]))) } else { None };
        if let Some(t) = a.filter().route(Broadcast::classify(item, parsed)) {
            got_a.push(t);
        }
    }
    let mut got_b = Vec::new();
    while let Ok(item) = rx_b.try_recv() {
        let parsed = if item == text { Some(order_for(Some(vec![3]))) } else { None };
        if let Some(t) = b.filter().route(Broadcast::classify(item, parsed)) {
            got_b.push(t);
        }
    }
    assert_eq!(got_a, vec!["tb 3 join to the r1".to_string(), "tb 5 join to the r1".to_string(), text.to_string()]);
    assert_eq!(got_b, vec!["tb 3 join to the r1".to_string(), "tb 5 join to the r1".to_string()]);
}

#[test]
fn ingest_to_unknown_group_is_not_found() {
    let mut registry = GroupRegistry::new();
    let s = join(&mut registry, "r1", 3);
    let mut rx = s.channel_handle().subscribe();
    let ghost = ServerMessage { group_id: "ghost".to_string(), ..order_for(None) };
    let out = MessageHandler::send_message_to_websocket(&registry, &ghost, Some("{}".to_string()));
    assert_eq!(out.status(), 404);
    assert_eq!(out.reply_text(), "Group not found: ghost");
    assert_eq!(registry.group_ids(), vec!["r1".to_string()]);
    assert!(!registry.contains(&"ghost".to_string()));
    assert!(rx.try_recv().is_err());
}

#[test]
fn ingest_without_listeners_is_no_op_success() {
    let mut registry = GroupRegistry::new();
    registry.get_or_create(&"r1".to_string());
    let out = MessageHandler::send_message_to_websocket(&registry, &order_for(None), Some("x".to_string()));
    match &out {
        IngestOutcome::Sent(p) => {
            assert_eq!(p.outcome(), PublishOutcome::NoListeners);
            assert_eq!(p.text(), "x");
        }
        _ => panic!("ingest into a known group must publish"),
    }
    assert_eq!(out.status(), 200);
}

#[test]
fn ingest_serialization_failure_is_internal() {
    let mut registry = GroupRegistry::new();
    registry.get_or_create(&"r1".to_string());
    let out = MessageHandler::send_message_to_websocket(&registry, &order_for(None), None);
    assert_eq!(out.status(), 500);
    assert_eq!(out.reply_text(), "Failed to send message: the message could not be serialized");
}

#[test]
fn rejected_token_creates_no_group() {
    let mut registry = GroupRegistry::new();
    let r = WsHandlerWithToken::set_group_handler_with_token(&mut registry, Err(AuthFailure::InvalidToken));
    let e = r.err().unwrap();
    assert_eq!(e.status(), 401);
    assert!(registry.group_ids().is_empty());
}

#[test]
fn expired_token_is_rejected_before_join() {
    let mut claims = serde_json::Map::new();
    claims.insert("sub".to_string(), Value::String("alice".to_string()));
    claims.insert("restaurantName".to_string(), Value::String("diner".to_string()));
    claims.insert("tableNumber".to_string(), Value::from(3u16));
    claims.insert("tableCount".to_string(), Value::from(10u16));
    claims.insert("exp".to_string(), Value::from(1_000_000u64));
    let secret = JwtExtractor::signing_secret(None);
    let token = jsonwebtoken::encode(
        &jsonwebtoken::Header::new(jsonwebtoken::Algorithm::HS512),
        &Value::Object(claims),
        &jsonwebtoken::EncodingKey::from_secret(secret.value.as_bytes()),
    )
    .unwrap();
    let header = format!("Bearer {}", token).into_bytes();
    let query = Some(WsJwtParams { group_id: "r1".to_string() });
    let request = JwtExtractor::check_request(query, Some(header)).ok().unwrap();
    let decoded = jsonwebtoken::decode::<Value>(
        std::str::from_utf8(&request.token).unwrap(),
        &jsonwebtoken::DecodingKey::from_secret(secret.value.as_bytes()),
        &jsonwebtoken::Validation::new(jsonwebtoken::Algorithm::HS512),
    );
    assert!(decoded.is_err());
    let gate = JwtExtractor::accept(request, None);
    let mut registry = GroupRegistry::new();
    let e = WsHandlerWithToken::set_group_handler_with_token(&mut registry, gate).err().unwrap();
    assert_eq!(e, AuthFailure::InvalidToken);
    assert_eq!(e.status(), 401);
    assert!(registry.group_ids().is_empty());
}

#[test]
fn authenticated_session_texts_and_filter() {
    let mut registry = GroupRegistry::new();
    let mut s = WsHandlerWithToken::set_group_handler_with_token(&mut registry, auth("r2", "bob", 7)).ok().unwrap();
    assert_eq!(s.group_id(), "r2");
    assert_eq!(s.table_number(), 7);
    assert_eq!(s.subject().unwrap(), "bob");
    assert_eq!(s.announce_join().text(), "authenticated user bob (table 7) join to the r2");
    s.activate();
    match s.on_frame(ClientFrame::Text("hello".to_string())) {
        FrameStep::Published(p) => assert_eq!(p.text(), "[group: r2][table: 7][user: bob] hello"),
        _ => panic!("text frame not published"),
    }
    assert!(!s.filter().should_receive_message(&order_for(None)));
    assert!(matches!(s.on_frame(ClientFrame::Close), FrameStep::Closing));
    assert_eq!(s.phase_now(), Phase::Closing);
    assert_eq!(s.close().text(), "authenticated user bob (table 7) leave the r2");
    assert_eq!(s.phase_now(), Phase::Closed);
}

#[test]
fn open_session_lifecycle() {
    let mut registry = GroupRegistry::new();
    let mut s = join(&mut registry, "hall", 0);
    let mut rx = s.channel_handle().subscribe();
    assert_eq!(s.phase_now(), Phase::Connecting);
    let j = s.announce_join();
    assert_eq!(j.text(), "tb 0 join to the hall");
    assert_eq!(j.outcome(), PublishOutcome::Delivered(1));
    s.activate();
    assert_eq!(s.phase_now(), Phase::Active);
    assert!(matches!(s.on_frame(ClientFrame::Other), FrameStep::Ignored));
    match s.on_frame(ClientFrame::Text("hi all".to_string())) {
        FrameStep::Published(p) => assert_eq!(p.text(), "[group: hall][table: 0] hi all"),
        _ => panic!("text frame not published"),
    }
    s.pump_failed();
    assert_eq!(s.close().text(), "tb 0 leave the hall");
    assert_eq!(rx.try_recv().unwrap(), "tb 0 join to the hall");
    assert_eq!(rx.try_recv().unwrap(), "[group: hall][table: 0] hi all");
    assert_eq!(rx.try_recv().unwrap(), "tb 0 leave the hall");
}

#[test]
fn largest_table_number_in_texts() {
    let mut registry = GroupRegistry::new();
    let mut s = join(&mut registry, "g", 65535);
    assert_eq!(s.announce_join().text(), "tb 65535 join to the g");
    assert_eq!(s.filter().table_number, 65535);
}

#[test]
fn health_check_is_ok() {
    assert_eq!(WsHandler::health_check(), "OK");
}

#[test]
fn ingest_and_frame_reach_third_party_alike() {
    let mut registry = GroupRegistry::new();
    let mut a = join(&mut registry, "r1", 3);
    let c = join(&mut registry, "r1", 9);
    let mut rx_c = c.channel_handle().subscribe();
    a.announce_join();
    a.activate();
    a.on_frame(ClientFrame::Text("hello".to_string()));
    let text = "{\"group_id\":\"r1\",\"table_number\":null,\"message_type\":\"note\",\"payload\":\"two coffees\"}";
    let out = MessageHandler::send_message_to_websocket(&registry, &order_for(None), Some(text.to_string()));
    assert_eq!(out.status(), 200);
    let mut got = Vec::new();
    while let Ok(item) = rx_c.try_recv() {
        let parsed = if item == text { Some(order_for(None)) } else { None };
        if let Some(t) = c.filter().route(Broadcast::classify(item, parsed)) {
            got.push(t);
        }
    }
    assert_eq!(
        got,
        vec![
            "tb 3 join to the r1".to_string(),
            "[group: r1][table: 3] hello".to_string(),
            text.to_string()
        ]
    );
}
