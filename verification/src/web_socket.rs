//! The handler of one connection: it keeps the heartbeat, answers pings, and
//! passes every other frame on to the broker.
//!
//! The handler owns no socket and no timer. Whoever runs it hands it each
//! frame and each tick with the time, in milliseconds on a clock that never
//! goes back, and carries out the reply.

use vstd::prelude::*;
use crate::clock::utc_seconds;
use crate::envelope::{decoded, heartbeat, heartbeat_text, Envelope, EnvelopeView};
use crate::ident::random_uuid;
use crate::message::{ClientActorMessage, Connect, Disconnect, WsMessage};

verus! {

/// The milliseconds between two checks of the heartbeat.
pub const HEARTBEAT_INTERVAL: u64 = 5000;

/// The milliseconds without a heartbeat after which the peer counts as gone.
pub const CLIENT_TIMEOUT: u64 = 10000;

/// The milliseconds between two keepalive pings.
pub const PING_INTERVAL: u64 = 30000;

/// Why a peer closes the connection.
#[derive(Clone, Debug, PartialEq, Eq)]
pub struct CloseReason {
    pub code: u16,
    pub description: Option<String>,
}

/// What arrives on a connection.
#[derive(Clone, Debug, PartialEq, Eq)]
pub enum Frame {
    Text(String),
    Binary(Vec<u8>),
    Continuation,
    Ping(Vec<u8>),
    Pong(Vec<u8>),
    Close(Option<CloseReason>),
    Nop,
    /// The transport reported a protocol error.
    Error,
}

/// What the handler asks for in answer to a frame.
#[derive(Clone, Debug, PartialEq, Eq)]
pub enum Reply {
    /// Nothing.
    Nothing,
    /// Send a transport-level pong with this payload.
    Pong(Vec<u8>),
    /// Send this binary frame.
    Binary(Vec<u8>),
    /// Send this text frame.
    Text(String),
    /// Hand this to the broker.
    Forward(ClientActorMessage),
    /// Close the connection with this reason, and stop.
    Close(Option<CloseReason>),
    /// Stop.
    Stop,
}

/// A `Frame` as plain values.
pub enum FrameView {
    Text(Seq<char>),
    Binary(Seq<u8>),
    Continuation,
    Ping(Seq<u8>),
    Pong(Seq<u8>),
    Close(Option<CloseReason>),
    Nop,
    Error,
}

/// A `Reply` as plain values.
pub enum ReplyView {
    Nothing,
    Pong(Seq<u8>),
    Binary(Seq<u8>),
    Text(Seq<char>),
    Forward { id: u128, msg: Seq<char>, room_id: u128 },
    Close(Option<CloseReason>),
    Stop,
}

impl View for Frame {
    type V = FrameView;

    open spec fn view(&self) -> FrameView {
        match self {
            Frame::Text(s) => FrameView::Text(s@),
            Frame::Binary(b) => FrameView::Binary(b@),
            Frame::Continuation => FrameView::Continuation,
            Frame::Ping(b) => FrameView::Ping(b@),
            Frame::Pong(b) => FrameView::Pong(b@),
            Frame::Close(reason) => FrameView::Close(*reason),
            Frame::Nop => FrameView::Nop,
            Frame::Error => FrameView::Error,
        }
    }
}

impl View for Reply {
    type V = ReplyView;

    open spec fn view(&self) -> ReplyView {
        match self {
            Reply::Nothing => ReplyView::Nothing,
            Reply::Pong(b) => ReplyView::Pong(b@),
            Reply::Binary(b) => ReplyView::Binary(b@),
            Reply::Text(s) => ReplyView::Text(s@),
            Reply::Forward(m) => ReplyView::Forward { id: m.id, msg: m.msg@, room_id: m.room_id },
            Reply::Close(reason) => ReplyView::Close(*reason),
            Reply::Stop => ReplyView::Stop,
        }
    }
}

/// Where a connection stands.
#[derive(Clone, Copy, Debug, PartialEq, Eq, Structural)]
pub enum Phase {
    /// The broker has not answered the registration yet.
    Connecting,
    /// Registered; frames are handled.
    Active,
    /// Over. Nothing is handled any more.
    Disconnected,
}

/// What a check of the heartbeat comes to.
#[derive(Clone, Copy, Debug, PartialEq, Eq)]
pub enum Beat {
    /// The connection is not active: nothing to do.
    Idle,
    /// The peer was heard in time: send it a transport-level ping.
    Ping,
    /// The peer was not heard for too long: tell the broker, and stop.
    Expired(Disconnect),
}

/// The handler of one connection.
#[derive(Clone, Debug, PartialEq, Eq)]
pub struct WsConn {
    /// The room that the session is in.
    pub room: u128,
    /// When the peer was last heard.
    pub hb: u64,
    /// The session.
    pub id: u128,
    /// When the last keepalive ping was sent.
    pub last_ping: u64,
    /// Where the connection stands.
    pub phase: Phase,
}

/// Whether a text frame refreshes the heartbeat: it is a ping or a pong of
/// the JSON format.
pub open spec fn is_heartbeat(text: Seq<char>) -> bool {
    decoded(text) is Ping || decoded(text) is Pong
}

/// Whether a frame shows that the peer is there: a ping or a pong, of the
/// transport or of the JSON format.
pub open spec fn refreshes(frame: FrameView) -> bool {
    match frame {
        FrameView::Ping(_) => true,
        FrameView::Pong(_) => true,
        FrameView::Text(s) => is_heartbeat(s),
        _ => false,
    }
}

/// The reply of the active connection of the session `id` of `room` to
/// `frame`, at `seconds` since the start of 1970. A transport ping is
/// answered with a pong of the same payload, a JSON ping with a JSON pong; a
/// pong of either kind needs no answer. A binary frame is echoed. Every
/// other text frame is handed to the broker as it is. A close frame closes
/// the connection; a continuation frame and a protocol error stop it.
pub open spec fn reply_to(id: u128, room: u128, frame: FrameView, seconds: int) -> ReplyView {
    match frame {
        FrameView::Ping(payload) => ReplyView::Pong(payload),
        FrameView::Pong(_) => ReplyView::Nothing,
        FrameView::Binary(payload) => ReplyView::Binary(payload),
        FrameView::Close(reason) => ReplyView::Close(reason),
        FrameView::Continuation => ReplyView::Stop,
        FrameView::Nop => ReplyView::Nothing,
        FrameView::Error => ReplyView::Stop,
        FrameView::Text(s) => match decoded(s) {
            EnvelopeView::Pong => ReplyView::Nothing,
            EnvelopeView::Ping => ReplyView::Text(heartbeat_text("pong"@, seconds)),
            _ => ReplyView::Forward { id: id, msg: s, room_id: room },
        },
    }
}

/// Whether the peer counts as gone at `now`, having last been heard at
/// `hb`.
pub open spec fn expired(hb: u64, now: u64) -> bool {
    now - hb > CLIENT_TIMEOUT
}

impl WsConn {
    /// The handler of the session `id` of `room`, opened at `now` and not
    /// registered yet.
    pub fn with_id(id: u128, room: u128, now: u64) -> (r: WsConn)
        ensures
            r == (WsConn { room: room, hb: now, id: id, last_ping: now, phase: Phase::Connecting }),
    {
        WsConn { room, hb: now, id, last_ping: now, phase: Phase::Connecting }
    }

    /// The handler of a new session of `room`, opened at `now` and not
    /// registered yet. The session gets a random identifier.
    pub fn new(room: u128, now: u64) -> (r: WsConn)
        ensures
            r == (WsConn {
                room: room,
                hb: now,
                id: r.id,
                last_ping: now,
                phase: Phase::Connecting,
            }),
    {
        WsConn::with_id(random_uuid(), room, now)
    }

    /// The registration that the handler sends to the broker when it
    /// starts.
    pub fn started(&self) -> (r: Connect)
        ensures
            r == (Connect { lobby_id: self.room, self_id: self.id }),
    {
        Connect { lobby_id: self.room, self_id: self.id }
    }

    /// Takes the broker's answer to the registration. Accepted, the
    /// connection is active, with nothing to do. Refused, it is over and has
    /// to stop. A connection that is not waiting for the answer stays as it
    /// is.
    pub fn registered(&mut self, accepted: bool) -> (r: Reply)
        ensures
            old(self).phase == Phase::Connecting && accepted ==> r@ == ReplyView::Nothing
                && *final(self) == (WsConn { phase: Phase::Active, ..*old(self) }),
            old(self).phase == Phase::Connecting && !accepted ==> r@ == ReplyView::Stop
                && *final(self) == (WsConn { phase: Phase::Disconnected, ..*old(self) }),
            old(self).phase != Phase::Connecting ==> r@ == ReplyView::Nothing && *final(self)
                == *old(self),
    {
        match self.phase {
            Phase::Connecting => {
                if accepted {
                    self.phase = Phase::Active;
                    Reply::Nothing
                } else {
                    self.phase = Phase::Disconnected;
                    Reply::Stop
                }
            },
            _ => Reply::Nothing,
        }
    }

    /// Ends the connection. An active connection tells the broker that its
    /// session is over; any other has nothing to tell. Either way the
    /// connection is over afterwards, so the broker is told once.
    pub fn stopping(&mut self) -> (r: Option<Disconnect>)
        ensures
            *final(self) == (WsConn { phase: Phase::Disconnected, ..*old(self) }),
            r == if old(self).phase == Phase::Active {
                Some(Disconnect { lobby_id: old(self).room, self_id: old(self).id })
            } else {
                None
            },
    {
        let r = match self.phase {
            Phase::Active => Some(Disconnect { lobby_id: self.room, self_id: self.id }),
            _ => None,
        };
        self.phase = Phase::Disconnected;
        r
    }

    /// Checks the heartbeat at `now`. An active connection whose peer was
    /// last heard more than `CLIENT_TIMEOUT` ago is over, and the broker is
    /// to be told; one whose peer was heard in time sends a ping.
    pub fn hb(&mut self, now: u64) -> (r: Beat)
        ensures
            old(self).phase != Phase::Active ==> r == Beat::Idle && *final(self) == *old(self),
            old(self).phase == Phase::Active && expired(old(self).hb, now) ==> r == Beat::Expired(
                Disconnect { lobby_id: old(self).room, self_id: old(self).id },
            ) && *final(self) == (WsConn { phase: Phase::Disconnected, ..*old(self) }),
            old(self).phase == Phase::Active && !expired(old(self).hb, now) ==> r == Beat::Ping
                && *final(self) == *old(self),
    {
        match self.phase {
            Phase::Active => {
                if now > self.hb && now - self.hb > CLIENT_TIMEOUT {
                    self.phase = Phase::Disconnected;
                    Beat::Expired(Disconnect { lobby_id: self.room, self_id: self.id })
                } else {
                    Beat::Ping
                }
            },
            _ => Beat::Idle,
        }
    }

    /// The keepalive ping of an active connection, sent at `now`, which is
    /// `seconds` since the start of 1970. Any other connection sends none.
    pub fn ping_at(&mut self, now: u64, seconds: i64) -> (r: Option<String>)
        ensures
            old(self).phase == Phase::Active ==> r.is_some() && r.unwrap()@ == heartbeat_text(
                "ping"@,
                seconds as int,
            ) && *final(self) == (WsConn { last_ping: now, ..*old(self) }),
            old(self).phase != Phase::Active ==> r.is_none() && *final(self) == *old(self),
    {
        match self.phase {
            Phase::Active => {
                self.last_ping = now;
                Some(heartbeat("ping", seconds))
            },
            _ => None,
        }
    }

    /// The keepalive ping of an active connection, sent at `now` and
    /// stamped with the wall clock's time.
    pub fn start_ping_task(&mut self, now: u64) -> (r: Option<String>)
        ensures
            old(self).phase == Phase::Active ==> r.is_some() && (exists|seconds: i64|
                r.unwrap()@ == heartbeat_text("ping"@, seconds as int)) && *final(self) == (WsConn {
                last_ping: now,
                ..*old(self)
            }),
            old(self).phase != Phase::Active ==> r.is_none() && *final(self) == *old(self),
    {
        let seconds = utc_seconds();
        self.ping_at(now, seconds)
    }

    /// Answers `frame`, which arrived at `now`, `seconds` since the start of
    /// 1970. A connection that is not active ignores it. An active one
    /// answers as `reply_to` says, and notes that the peer was heard where
    /// the frame shows it.
    pub fn answer(&mut self, frame: Frame, now: u64, seconds: i64) -> (r: Reply)
        ensures
            old(self).phase != Phase::Active ==> r@ == ReplyView::Nothing && *final(self) == *old(
                self,
            ),
            old(self).phase == Phase::Active ==> r@ == reply_to(
                old(self).id,
                old(self).room,
                frame@,
                seconds as int,
            ),
            old(self).phase == Phase::Active && refreshes(frame@) ==> *final(self) == (WsConn {
                hb: now,
                ..*old(self)
            }),
            old(self).phase == Phase::Active && !refreshes(frame@) ==> *final(self) == *old(self),
    {
        match self.phase {
            Phase::Active => {},
            _ => {
                return Reply::Nothing;
            },
        }
        match frame {
            Frame::Ping(payload) => {
                self.hb = now;
                Reply::Pong(payload)
            },
            Frame::Pong(_) => {
                self.hb = now;
                Reply::Nothing
            },
            Frame::Binary(payload) => Reply::Binary(payload),
            Frame::Close(reason) => Reply::Close(reason),
            Frame::Continuation => Reply::Stop,
            Frame::Nop => Reply::Nothing,
            Frame::Error => Reply::Stop,
            Frame::Text(s) => match Envelope::decode(s.as_str()) {
                Envelope::Pong => {
                    self.hb = now;
                    Reply::Nothing
                },
                Envelope::Ping => {
                    self.hb = now;
                    Reply::Text(heartbeat("pong", seconds))
                },
                _ => Reply::Forward(ClientActorMessage { id: self.id, msg: s, room_id: self.room }),
            },
        }
    }

    /// Answers `frame`, which arrived at `now`; a pong of the JSON format is
    /// stamped with the wall clock's time.
    pub fn handle(&mut self, frame: Frame, now: u64) -> (r: Reply)
        ensures
            old(self).phase != Phase::Active ==> r@ == ReplyView::Nothing && *final(self) == *old(
                self,
            ),
            old(self).phase == Phase::Active ==> exists|seconds: i64|
                r@ == reply_to(old(self).id, old(self).room, frame@, seconds as int),
            old(self).phase == Phase::Active && refreshes(frame@) ==> *final(self) == (WsConn {
                hb: now,
                ..*old(self)
            }),
            old(self).phase == Phase::Active && !refreshes(frame@) ==> *final(self) == *old(self),
    {
        let seconds = utc_seconds();
        self.answer(frame, now, seconds)
    }

    /// The text frame that carries the broker's message `msg` to the peer.
    pub fn deliver(&self, msg: WsMessage) -> (r: Reply)
        ensures
            r@ == ReplyView::Text(msg.message@),
    {
        Reply::Text(msg.message)
    }
}

} // verus!
