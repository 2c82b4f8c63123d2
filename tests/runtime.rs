use walle_core::config::{Heartbeat, HttpClient, HttpServer, ImplConfig, WebSocketRev, WebSocketServer};
use walle_core::error::WalleError;
use walle_core::event::MessageEventType;
use walle_core::message::MessageSegment;
use walle_core::runtime::{heartbeat_interval, report_sent, CustomOneBot, NoReceiver, RunPlan};

fn config(enabled: bool, interval: i64) -> ImplConfig {
    ImplConfig {
        heartbeat: Heartbeat { enabled, interval },
        http: vec![
            HttpServer { host: "127.0.0.1".to_string(), port: 6700, access_token: None },
            HttpServer { host: "0.0.0.0".to_string(), port: 6701, access_token: None },
        ],
        http_webhook: vec![HttpClient {
            url: "http://127.0.0.1:6800".to_string(),
            access_token: None,
            timeout: 4,
        }],
        websocket: vec![WebSocketServer {
            host: "127.0.0.1".to_string(),
            port: 8844,
            access_token: None,
        }],
        websocket_rev: vec![],
    }
}

fn bot(enabled: bool, interval: i64) -> CustomOneBot<u32, ()> {
    CustomOneBot::new(
        "walle".to_string(),
        "qq".to_string(),
        "123".to_string(),
        config(enabled, interval),
        (),
    )
}

#[test]
fn run_twice_fails() {
    let mut ob = bot(true, 0);
    assert!(!ob.is_running());
    assert!(ob.is_shutdown());
    let plan = ob.run().unwrap();
    assert_eq!(
        plan,
        RunPlan {
            http_servers: 2,
            webhook_clients: 1,
            ws_servers: 1,
            ws_clients: 0,
            heartbeat_interval: Some(4),
        }
    );
    assert!(ob.is_running());
    assert_eq!(ob.run(), Err(WalleError::AlreadyRunning));
    assert!(ob.is_running());
}

#[test]
fn run_after_shutdown_plans_again() {
    let mut ob = bot(false, 9);
    let plan = ob.run().unwrap();
    assert_eq!(plan.heartbeat_interval, None);
    ob.shutdown();
    assert!(ob.is_shutdown());
    assert_eq!(ob.run(), Ok(plan));
}

#[test]
fn heartbeat_interval_clamped() {
    assert_eq!(heartbeat_interval(0), 4);
    assert_eq!(heartbeat_interval(-3), 4);
    assert_eq!(heartbeat_interval(1), 1);
    assert_eq!(heartbeat_interval(7), 7);
    let mut ob = bot(true, -1);
    assert_eq!(ob.run().unwrap().heartbeat_interval, Some(4));
}

#[test]
fn heartbeat_stops_after_shutdown() {
    let mut ob = bot(true, 5);
    assert!(ob.heartbeat_step(5).is_none());
    ob.run().unwrap();
    ob.set_online(true);
    let hb = ob.heartbeat_step(5).unwrap();
    assert_eq!(hb.interval, 5);
    assert!(hb.status.good);
    assert!(hb.status.online);
    assert_eq!(hb.sub_type, "");
    ob.shutdown();
    assert!(ob.heartbeat_step(5).is_none());
}

#[test]
fn status_mirrors_flags() {
    let mut ob = bot(false, 0);
    let s = ob.get_status();
    assert!(!s.good && !s.online);
    ob.set_running();
    ob.set_online(true);
    let s = ob.get_status();
    assert!(s.good && s.online);
    ob.set_online(false);
    assert!(!ob.get_status().online);
}

#[test]
fn send_event_without_receiver_is_soft_failure() {
    let ob = bot(false, 0);
    let ev = ob.new_event("e1".to_string(), 10, 7);
    assert_eq!(ob.send_event(ev), Err(NoReceiver));
    assert_eq!(
        NoReceiver.message(),
        "there is no event receiver can receive the event yet"
    );
}

#[test]
fn send_event_reaches_every_subscriber_in_order() {
    let ob = bot(false, 0);
    let mut rxs = vec![ob.subscribe(), ob.subscribe(), ob.subscribe()];
    assert_eq!(ob.send_event(ob.new_event("a".to_string(), 1, 10)), Ok(3));
    assert_eq!(ob.send_event(ob.new_event("b".to_string(), 2, 20)), Ok(3));
    for rx in rxs.iter_mut() {
        let first = rx.try_recv().unwrap();
        let second = rx.try_recv().unwrap();
        assert_eq!((first.id.as_str(), first.content), ("a", 10));
        assert_eq!((second.id.as_str(), second.content), ("b", 20));
        assert!(rx.try_recv().is_err());
    }
    drop(rxs);
    assert_eq!(ob.send_event(ob.new_event("c".to_string(), 3, 30)), Err(NoReceiver));
}

#[test]
fn subscriber_sees_only_later_events() {
    let ob = bot(false, 0);
    let mut early = ob.subscribe();
    assert_eq!(ob.send_event(ob.new_event("a".to_string(), 1, 1)), Ok(1));
    let mut late = ob.subscribe();
    assert_eq!(ob.send_event(ob.new_event("b".to_string(), 2, 2)), Ok(2));
    assert_eq!(early.try_recv().unwrap().id, "a");
    assert_eq!(early.try_recv().unwrap().id, "b");
    assert_eq!(late.try_recv().unwrap().id, "b");
}

#[test]
fn report_sent_maps_results() {
    assert_eq!(report_sent::<u8>(Ok(2)), Ok(2));
    assert_eq!(report_sent::<u8>(Err(9)), Err(NoReceiver));
}

#[test]
fn new_event_fills_envelope() {
    let ob = bot(false, 0);
    let ev = ob.new_event("id-1".to_string(), 1700000000, 42);
    assert_eq!(ev.id, "id-1");
    assert_eq!(ev.impl_name, "walle");
    assert_eq!(ev.platform, "qq");
    assert_eq!(ev.self_id, "123");
    assert_eq!(ev.time, 1700000000);
    assert_eq!(ev.content, 42);
}

#[test]
fn new_message_event_group_and_private() {
    let ob = bot(false, 0);
    let msg = vec![MessageSegment::Text { text: "hi".to_string() }];
    let ev = ob.new_message_event(
        "e".to_string(),
        5,
        "m1".to_string(),
        "u1".to_string(),
        Some("g1".to_string()),
        msg.clone(),
    );
    assert!(matches!(&ev.content.ty, MessageEventType::Group { group_id } if group_id == "g1"));
    assert_eq!(ev.content.message_id, "m1");
    assert_eq!(ev.content.user_id, "u1");
    assert_eq!(ev.content.sub_type, "");
    assert_eq!(ev.content.message.len(), 1);
    assert_eq!(ev.self_id, "123");
    let ev = ob.new_message_event("e".to_string(), 5, "m2".to_string(), "u1".to_string(), None, msg);
    assert!(matches!(ev.content.ty, MessageEventType::Private));
}

#[test]
fn websocket_rev_config_counts() {
    let mut c = config(false, 0);
    c.websocket_rev.push(WebSocketRev {
        url: "ws://127.0.0.1:8080".to_string(),
        access_token: None,
        reconnect_interval: 4,
    });
    let mut ob: CustomOneBot<u32, ()> =
        CustomOneBot::new("w".to_string(), "p".to_string(), "s".to_string(), c, ());
    assert_eq!(ob.run().unwrap().ws_clients, 1);
}

#[test]
fn arc_keeps_the_runtime() {
    let ob = bot(false, 0).arc();
    assert_eq!(ob.impl_name, "walle");
    assert!(ob.is_shutdown());
}
