//! The start of a connection: the room that the request names.

use vstd::prelude::*;
use crate::ident::{parse_uuid, parsed_id, random_uuid};
use crate::web_socket::{Phase, WsConn};

verus! {

/// The room of a connection that asks for `group_id`: the room that
/// `group_id` writes, or `fresh_room` where it writes none.
pub open spec fn room_of_request(group_id: Seq<char>, fresh_room: u128) -> u128 {
    match parsed_id(group_id) {
        Some(room) => room,
        None => fresh_room,
    }
}

/// The handler of a connection that was opened at `now` and asks for the
/// room `group_id`, where `fresh_room` and `fresh_id` are two identifiers
/// drawn for it: the session `fresh_id`, not registered yet, in the room that
/// `group_id` writes, or in the room `fresh_room` where it writes none. So
/// two connections that ask for the same text that writes no room are in
/// different rooms as soon as different identifiers are drawn for them.
pub fn start_connection_with(group_id: &str, fresh_room: u128, fresh_id: u128, now: u64) -> (conn:
    WsConn)
    ensures
        conn == (WsConn {
            room: room_of_request(group_id@, fresh_room),
            hb: now,
            id: fresh_id,
            last_ping: now,
            phase: Phase::Connecting,
        }),
{
    let room = match parse_uuid(group_id) {
        Some(room) => room,
        None => fresh_room,
    };
    WsConn::with_id(fresh_id, room, now)
}

/// The handler of a connection that was opened at `now` and asks for the
/// room `group_id`: what `start_connection_with` gives for two identifiers
/// drawn at random.
pub fn start_connection(group_id: &str, now: u64) -> (conn: WsConn)
    ensures
        exists|fresh_room: u128, fresh_id: u128|
            conn == (WsConn {
                room: room_of_request(group_id@, fresh_room),
                hb: now,
                id: fresh_id,
                last_ping: now,
                phase: Phase::Connecting,
            }),
{
    let fresh_room = random_uuid();
    let fresh_id = random_uuid();
    start_connection_with(group_id, fresh_room, fresh_id, now)
}

/// Connections that ask for a text that writes no room are in the rooms
/// drawn for them: in different rooms where the draws differ.
pub proof fn law_malformed_requests_part(
    group_id: Seq<char>,
    first_room: u128,
    second_room: u128,
)
    requires
        parsed_id(group_id).is_none(),
    ensures
        room_of_request(group_id, first_room) == first_room,
        room_of_request(group_id, second_room) == second_room,
        first_room != second_room ==> room_of_request(group_id, first_room) != room_of_request(
            group_id,
            second_room,
        ),
{
}

} // verus!
