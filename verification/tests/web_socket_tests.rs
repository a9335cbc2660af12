use http_ssh_server::message::{ClientActorMessage, Connect, Disconnect, WsMessage};
use http_ssh_server::start_conn::{start_connection, start_connection_with};
use http_ssh_server::web_socket::{
    Beat, CloseReason, Frame, Phase, Reply, WsConn, CLIENT_TIMEOUT, HEARTBEAT_INTERVAL,
    PING_INTERVAL,
};

const ROOM: u128 = 0x11111111_1111_4111_8111_111111111111;
const ID: u128 = 0xaaaaaaaa_aaaa_4aaa_8aaa_aaaaaaaaaaaa;

fn active() -> WsConn {
    let mut c = WsConn::with_id(ID, ROOM, 1000);
    assert_eq!(c.registered(true), Reply::Nothing);
    c
}

#[test]
fn timer_constants() {
    assert_eq!(HEARTBEAT_INTERVAL, 5000);
    assert_eq!(CLIENT_TIMEOUT, 10000);
    assert_eq!(PING_INTERVAL, 30000);
}

#[test]
fn new_connection_waits_for_registration() {
    let c = WsConn::with_id(ID, ROOM, 7);
    assert_eq!(c, WsConn { room: ROOM, hb: 7, id: ID, last_ping: 7, phase: Phase::Connecting });
    assert_eq!(c.started(), Connect { lobby_id: ROOM, self_id: ID });
    let d = WsConn::new(ROOM, 9);
    assert_eq!(d.room, ROOM);
    assert_eq!(d.hb, 9);
    assert_eq!(d.phase, Phase::Connecting);
    let e = WsConn::new(ROOM, 9);
    assert_ne!(d.id, e.id);
}

#[test]
fn refused_registration_ends_the_connection_without_a_disconnect() {
    let mut c = WsConn::with_id(ID, ROOM, 0);
    assert_eq!(c.registered(false), Reply::Stop);
    assert_eq!(c.phase, Phase::Disconnected);
    assert_eq!(c.stopping(), None);
    assert_eq!(c.registered(true), Reply::Nothing);
    assert_eq!(c.phase, Phase::Disconnected);
}

#[test]
fn stopping_tells_the_broker_once() {
    let mut c = active();
    assert_eq!(c.stopping(), Some(Disconnect { lobby_id: ROOM, self_id: ID }));
    assert_eq!(c.phase, Phase::Disconnected);
    assert_eq!(c.stopping(), None);
}

#[test]
fn heartbeat_in_time_sends_a_ping() {
    let mut c = active();
    assert_eq!(c.hb(1000), Beat::Ping);
    assert_eq!(c.hb(6000), Beat::Ping);
    assert_eq!(c.hb(11000), Beat::Ping);
    assert_eq!(c.hb(500), Beat::Ping);
    assert_eq!(c.phase, Phase::Active);
}

#[test]
fn heartbeat_too_late_disconnects_once() {
    let mut c = active();
    assert_eq!(c.hb(11001), Beat::Expired(Disconnect { lobby_id: ROOM, self_id: ID }));
    assert_eq!(c.phase, Phase::Disconnected);
    assert_eq!(c.hb(20000), Beat::Idle);
    assert_eq!(c.stopping(), None);
}

#[test]
fn heartbeat_of_a_connection_that_is_not_active_is_idle() {
    let mut c = WsConn::with_id(ID, ROOM, 0);
    assert_eq!(c.hb(100000), Beat::Idle);
    assert_eq!(c.phase, Phase::Connecting);
}

#[test]
fn transport_ping_and_pong_refresh_the_heartbeat() {
    let mut c = active();
    assert_eq!(c.answer(Frame::Ping(vec![1, 2, 3]), 5000, 0), Reply::Pong(vec![1, 2, 3]));
    assert_eq!(c.hb, 5000);
    assert_eq!(c.answer(Frame::Pong(vec![9]), 9000, 0), Reply::Nothing);
    assert_eq!(c.hb, 9000);
    assert_eq!(c.hb(19000), Beat::Ping);
    assert_eq!(c.hb(19001), Beat::Expired(Disconnect { lobby_id: ROOM, self_id: ID }));
}

#[test]
fn json_ping_is_answered_with_a_json_pong() {
    let mut c = active();
    let r = c.answer(Frame::Text("{\"type\":\"ping\",\"timestamp\":3}".to_string()), 4000, 1700000000);
    assert_eq!(
        r,
        Reply::Text("{\"type\":\"pong\",\"timestamp\":1700000000,\"server_id\":\"http-ssh-server\"}".to_string())
    );
    assert_eq!(c.hb, 4000);
}

#[test]
fn json_pong_refreshes_the_heartbeat_only() {
    let mut c = active();
    assert_eq!(c.answer(Frame::Text("{\"type\":\"pong\"}".to_string()), 4500, 0), Reply::Nothing);
    assert_eq!(c.hb, 4500);
}

#[test]
fn other_text_is_forwarded_as_it_is() {
    let mut c = active();
    for text in [
        "hello",
        "\\w someone hi",
        "{\"type\":\"command\",\"payload\":{\"command\":\"ls\"}}",
        "{\"type\":\"resize\"}",
        "{\"no\":\"type\"}",
    ] {
        assert_eq!(
            c.answer(Frame::Text(text.to_string()), 8000, 0),
            Reply::Forward(ClientActorMessage { id: ID, msg: text.to_string(), room_id: ROOM })
        );
    }
    assert_eq!(c.hb, 1000);
}

#[test]
fn binary_frames_are_echoed() {
    let mut c = active();
    assert_eq!(c.answer(Frame::Binary(vec![0, 255]), 8000, 0), Reply::Binary(vec![0, 255]));
    assert_eq!(c.hb, 1000);
}

#[test]
fn close_continuation_and_errors_end_the_connection() {
    let mut c = active();
    let reason = Some(CloseReason { code: 1000, description: Some("bye".to_string()) });
    assert_eq!(c.answer(Frame::Close(reason.clone()), 1, 0), Reply::Close(reason));
    assert_eq!(c.answer(Frame::Close(None), 1, 0), Reply::Close(None));
    assert_eq!(c.answer(Frame::Continuation, 1, 0), Reply::Stop);
    assert_eq!(c.answer(Frame::Error, 1, 0), Reply::Stop);
    assert_eq!(c.answer(Frame::Nop, 1, 0), Reply::Nothing);
    assert_eq!(c.hb, 1000);
    assert_eq!(c.stopping(), Some(Disconnect { lobby_id: ROOM, self_id: ID }));
}

#[test]
fn frames_are_ignored_unless_the_connection_is_active() {
    let mut c = WsConn::with_id(ID, ROOM, 0);
    assert_eq!(c.answer(Frame::Text("hello".to_string()), 5, 0), Reply::Nothing);
    assert_eq!(c.answer(Frame::Ping(vec![1]), 5, 0), Reply::Nothing);
    assert_eq!(c.hb, 0);
    let mut d = active();
    d.stopping();
    assert_eq!(d.handle(Frame::Text("hello".to_string()), 5), Reply::Nothing);
    assert_eq!(d.start_ping_task(5), None);
}

#[test]
fn handle_stamps_the_pong_with_the_clock() {
    let mut c = active();
    let before = chrono::Utc::now().timestamp();
    let r = c.handle(Frame::Text("{\"type\":\"ping\"}".to_string()), 2000);
    let after = chrono::Utc::now().timestamp();
    match r {
        Reply::Text(text) => {
            let v: serde_json::Value = serde_json::from_str(&text).expect("the frame is JSON");
            assert_eq!(v["type"].as_str(), Some("pong"));
            assert_eq!(v["server_id"].as_str(), Some("http-ssh-server"));
            let t = v["timestamp"].as_i64().expect("a number");
            assert!(before <= t && t <= after);
        }
        other => panic!("unexpected reply {:?}", other),
    }
    assert_eq!(c.hb, 2000);
    assert_eq!(
        c.handle(Frame::Text("hi".to_string()), 3000),
        Reply::Forward(ClientActorMessage { id: ID, msg: "hi".to_string(), room_id: ROOM })
    );
}

#[test]
fn keepalive_ping_of_an_active_connection() {
    let mut c = active();
    assert_eq!(
        c.ping_at(31000, 1700000030),
        Some("{\"type\":\"ping\",\"timestamp\":1700000030,\"server_id\":\"http-ssh-server\"}".to_string())
    );
    assert_eq!(c.last_ping, 31000);
    assert_eq!(c.hb, 1000);
    let text = c.start_ping_task(61000).expect("the connection is active");
    let v: serde_json::Value = serde_json::from_str(&text).expect("the frame is JSON");
    assert_eq!(v["type"].as_str(), Some("ping"));
    assert_eq!(c.last_ping, 61000);
    let mut idle = WsConn::with_id(ID, ROOM, 0);
    assert_eq!(idle.ping_at(5, 5), None);
    assert_eq!(idle.last_ping, 0);
}

#[test]
fn broker_messages_go_out_as_text() {
    let c = active();
    assert_eq!(
        c.deliver(WsMessage { message: "hello".to_string() }),
        Reply::Text("hello".to_string())
    );
}

#[test]
fn start_connection_takes_the_room_from_the_path() {
    let c = start_connection("11111111-1111-4111-8111-111111111111", 42);
    assert_eq!(c.room, ROOM);
    assert_eq!(c.hb, 42);
    assert_eq!(c.last_ping, 42);
    assert_eq!(c.phase, Phase::Connecting);
    let d = start_connection("11111111111141118111111111111111", 43);
    assert_eq!(d.room, ROOM);
    assert_ne!(c.id, d.id);
}

#[test]
fn malformed_room_identifiers_give_different_rooms() {
    let a = start_connection("lobby", 1);
    let b = start_connection("lobby", 1);
    assert_ne!(a.room, b.room);
    assert_ne!(a.id, b.id);
    let c = start_connection("", 1);
    assert_eq!(c.phase, Phase::Connecting);
}

#[test]
fn start_connection_with_drawn_identifiers() {
    let c = start_connection_with("11111111-1111-4111-8111-111111111111", 7, 9, 42);
    assert_eq!(c, WsConn { room: ROOM, hb: 42, id: 9, last_ping: 42, phase: Phase::Connecting });
    let d = start_connection_with("lobby", 7, 9, 42);
    assert_eq!(d, WsConn { room: 7, hb: 42, id: 9, last_ping: 42, phase: Phase::Connecting });
    let e = start_connection_with("lobby", 8, 10, 43);
    assert_eq!(e, WsConn { room: 8, hb: 43, id: 10, last_ping: 43, phase: Phase::Connecting });
    assert_ne!(d.room, e.room);
    let f = start_connection_with("", 5, 6, 0);
    assert_eq!(f.room, 5);
}
