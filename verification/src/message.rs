//! The messages that sessions and the broker exchange.

use vstd::prelude::*;

verus! {

/// A text frame for the peer of a session.
#[derive(Clone, Debug, PartialEq, Eq)]
pub struct WsMessage {
    pub message: String,
}

/// A session asks to be registered in a room.
#[derive(Clone, Copy, Debug, PartialEq, Eq)]
pub struct Connect {
    pub lobby_id: u128,
    pub self_id: u128,
}

/// A session has ended. The broker goes by the session; the room is told
/// for the reader of a log.
#[derive(Clone, Copy, Debug, PartialEq, Eq)]
pub struct Disconnect {
    pub lobby_id: u128,
    pub self_id: u128,
}

/// A text frame that the peer of a session sent. The broker goes by the
/// session; the room is told for the reader of a log.
#[derive(Clone, Debug, PartialEq, Eq)]
pub struct ClientActorMessage {
    pub id: u128,
    pub msg: String,
    pub room_id: u128,
}

/// A command that a session asks to have run.
#[derive(Clone, Debug, PartialEq, Eq)]
pub struct CommandMessage {
    pub id: u128,
    pub command: String,
    pub room_id: u128,
}

/// A frame on its way to the session `to`.
#[derive(Clone, Debug, PartialEq, Eq)]
pub struct Delivery {
    pub to: u128,
    pub message: WsMessage,
}

/// What a delivery says, as plain values: the session and the text.
pub open spec fn sent(d: Delivery) -> (u128, Seq<char>) {
    (d.to, d.message.message@)
}

/// What a list of deliveries says, in order.
pub open spec fn all_sent(ds: Seq<Delivery>) -> Seq<(u128, Seq<char>)> {
    ds.map_values(|d: Delivery| sent(d))
}

} // verus!
