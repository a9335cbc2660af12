use http_ssh_server::message::{
    ClientActorMessage, CommandMessage, Connect, Delivery, Disconnect, WsMessage,
};

#[test]
fn messages_hold_what_they_are_given() {
    let frame = WsMessage { message: "hello".to_string() };
    assert_eq!(frame.message, "hello");
    let c = Connect { lobby_id: 1, self_id: 2 };
    assert_eq!((c.lobby_id, c.self_id), (1, 2));
    let d = Disconnect { lobby_id: 1, self_id: 2 };
    assert_eq!((d.lobby_id, d.self_id), (1, 2));
    let m = ClientActorMessage { id: 2, msg: "x".to_string(), room_id: 1 };
    assert_eq!((m.id, m.msg.as_str(), m.room_id), (2, "x", 1));
    let k = CommandMessage { id: 2, command: "ls".to_string(), room_id: 1 };
    assert_eq!((k.id, k.command.as_str(), k.room_id), (2, "ls", 1));
    let sent = Delivery { to: 2, message: frame.clone() };
    assert_eq!(sent, Delivery { to: 2, message: frame });
}
