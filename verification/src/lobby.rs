//! The broker: every live session with its room and its working directory,
//! and every room with its members.
//!
//! The broker sends nothing and runs nothing itself. `handle` serves one
//! request: a registration, the end of a session, or a frame. Each operation
//! changes the broker's state and returns a `Reaction`: the frames to
//! deliver, and, for a command, the task that has to be carried out. While
//! a session's command is under way the session is busy: its further frames
//! wait in line, and are handled in their order once the command's result is
//! in. Other sessions are not held up.
//!
//! The module `model` says what each operation does, over the broker's
//! state as plain values.

use std::collections::HashMap;
use vstd::prelude::*;
use vstd::string::StringExecFns;
use crate::clock::utc_rfc3339;
use crate::envelope::{decoded, pong, pong_text, system_message, CommandResult, Envelope};
use crate::exec::{planned, resolution_view, Host, Outcome, Resolution, Task, CD};
use crate::ident::id_to_text;
use crate::legacy::Plain;
use crate::message::{all_sent, sent, ClientActorMessage, Connect, Delivery, Disconnect, WsMessage};
use crate::model::{
    cd_completed, completed, drained, farewell_text, handled, lemma_connected_valid,
    lemma_disconnected_valid, lemma_reacted_valid, lemma_with_session, nothing, reacted, received,
    relayed, run_completed, to_each, welcome_text, without, LobbyView, ReactionView, RequestView,
    SessionView,
};

verus! {

/// Writes the frame that greets the session `id`.
pub fn welcome(id: u128, timestamp: &str, directory: &str) -> (r: String)
    ensures
        r@ == welcome_text(id, timestamp@, directory@),
{
    let mut message = "Connected! Your session ID is ".to_owned();
    message.append(id_to_text(id).as_str());
    system_message(message.as_str(), timestamp, directory)
}

/// Writes the frame that tells a room that the session `id` has left.
pub fn farewell(id: u128) -> (r: String)
    ensures
        r@ == farewell_text(id),
{
    let mut r = id_to_text(id);
    r.append(" disconnected.");
    r
}

/// What the broker does about a frame: the frames to deliver, and the task
/// to carry out before a command's result can be told.
#[derive(Debug, PartialEq, Eq)]
pub struct Reaction {
    pub deliveries: Vec<Delivery>,
    pub task: Option<Task>,
}

impl View for Reaction {
    type V = ReactionView;

    open spec fn view(&self) -> ReactionView {
        ReactionView {
            deliveries: all_sent(self.deliveries@),
            task: match self.task {
                Some(task) => Some(task@),
                None => None,
            },
        }
    }
}

/// A request to the broker.
#[derive(Clone, Debug, PartialEq, Eq)]
pub enum Request {
    /// A session asks to be registered.
    Connect(Connect),
    /// A session has ended.
    Disconnect(Disconnect),
    /// The peer of a session sent a text frame.
    Message(ClientActorMessage),
}

impl View for Request {
    type V = RequestView;

    open spec fn view(&self) -> RequestView {
        match self {
            Request::Connect(m) => RequestView::Connect { room: m.lobby_id, id: m.self_id },
            Request::Disconnect(m) => RequestView::Disconnect { id: m.self_id },
            Request::Message(m) => RequestView::Message { id: m.id, raw: m.msg@ },
        }
    }
}

/// Why a session was not registered.
#[derive(Clone, Copy, Debug, PartialEq, Eq)]
pub enum ConnectError {
    /// A live session has this identifier already.
    SessionExists,
}

/// A live session: the room that it is in, its shell, and the frames that
/// wait while a command of it is under way.
struct Session {
    room: u128,
    shell: CD,
    busy: bool,
    backlog: Vec<String>,
}

impl View for Session {
    type V = SessionView;

    closed spec fn view(&self) -> SessionView {
        SessionView {
            room: self.room,
            directory: self.shell.curr_dir@,
            busy: self.busy,
            backlog: self.backlog@.map_values(|s: String| s@),
        }
    }
}

/// The broker.
pub struct Lobby {
    sessions: HashMap<u128, Session>,
    rooms: HashMap<u128, Vec<u128>>,
    start_dir: String,
    host: Host,
}

impl View for Lobby {
    type V = LobbyView;

    closed spec fn view(&self) -> LobbyView {
        LobbyView {
            sessions: Map::new(
                |id: u128| self.sessions@.contains_key(id),
                |id: u128| self.sessions@[id]@,
            ),
            rooms: Map::new(
                |room: u128| self.rooms@.contains_key(room),
                |room: u128| self.rooms@[room]@,
            ),
            start_dir: self.start_dir@,
            home: self.host.home@,
            windows: self.host.windows,
            timeout_secs: self.host.timeout_secs,
        }
    }
}

impl Default for Lobby {
    /// A broker without sessions or rooms on the plain platform, whose
    /// sessions start in the root directory.
    fn default() -> (r: Lobby)
        ensures
            r.wf(),
            r@.sessions == Map::<u128, SessionView>::empty(),
            r@.rooms == Map::<u128, Seq<u128>>::empty(),
            r@.start_dir == seq!['/'],
            r@.home == seq!['/'],
            !r@.windows,
            r@.timeout_secs == 15,
    {
        proof {
            reveal_strlit("/");
        }
        let start = "/".to_owned();
        assert(start@ =~= seq!['/']);
        Lobby::new(start, Host::default())
    }
}

impl Lobby {
    /// Whether the broker's state is one that its operations leave behind.
    pub open spec fn wf(&self) -> bool {
        self@.valid()
    }

    /// A broker without sessions or rooms, whose sessions will start in
    /// `start_dir`, on the host `host`.
    pub fn new(start_dir: String, host: Host) -> (r: Lobby)
        ensures
            r.wf(),
            r@.sessions == Map::<u128, SessionView>::empty(),
            r@.rooms == Map::<u128, Seq<u128>>::empty(),
            r@.start_dir == start_dir@,
            r@.home == host.home@,
            r@.windows == host.windows,
            r@.timeout_secs == host.timeout_secs,
    {
        let r = Lobby { sessions: HashMap::new(), rooms: HashMap::new(), start_dir, host };
        assert(r@.sessions =~= Map::<u128, SessionView>::empty());
        assert(r@.rooms =~= Map::<u128, Seq<u128>>::empty());
        r
    }

    /// Tells whether the session `id` is live.
    pub fn is_live(&self, id: u128) -> (b: bool)
        ensures
            b == self@.live(id),
    {
        self.sessions.contains_key(&id)
    }

    /// The room of the session `id`, if it is live.
    pub fn room_of(&self, id: u128) -> (r: Option<u128>)
        ensures
            r == if self@.live(id) {
                Some(self@.sessions[id].room)
            } else {
                None
            },
    {
        match self.sessions.get(&id) {
            Some(session) => Some(session.room),
            None => None,
        }
    }

    /// The working directory of the session `id`, if it is live.
    pub fn directory_of(&self, id: u128) -> (r: Option<String>)
        ensures
            match r {
                Some(d) => self@.live(id) && d@ == self@.sessions[id].directory,
                None => !self@.live(id),
            },
    {
        match self.sessions.get(&id) {
            Some(session) => Some(session.shell.curr_dir.clone()),
            None => None,
        }
    }

    /// Whether a command of the session `id` is under way, if the session
    /// is live.
    pub fn is_busy(&self, id: u128) -> (r: Option<bool>)
        ensures
            r == if self@.live(id) {
                Some(self@.sessions[id].busy)
            } else {
                None
            },
    {
        match self.sessions.get(&id) {
            Some(session) => Some(session.busy),
            None => None,
        }
    }

    /// How many frames of the session `id` wait in line: none for a session
    /// that is not live.
    pub fn waiting(&self, id: u128) -> (r: usize)
        ensures
            r == self@.waiting(id),
    {
        match self.sessions.get(&id) {
            Some(session) => session.backlog.len(),
            None => 0,
        }
    }

    /// The members of `room` in the order in which they joined, if there
    /// is such a room.
    pub fn members_of(&self, room: u128) -> (r: Option<Vec<u128>>)
        ensures
            match r {
                Some(m) => self@.rooms.contains_key(room) && m@ == self@.rooms[room],
                None => !self@.rooms.contains_key(room),
            },
    {
        match self.rooms.get(&room) {
            Some(members) => Some(members.clone()),
            None => None,
        }
    }

    /// The frame `message` on its way to the session `id_to`, if that
    /// session is live; to any other nothing is sent.
    pub fn send_message(&self, message: &str, id_to: u128) -> (r: Option<Delivery>)
        ensures
            match r {
                Some(d) => self@.live(id_to) && sent(d) == (id_to, message@),
                None => !self@.live(id_to),
            },
    {
        if self.sessions.contains_key(&id_to) {
            Some(Delivery { to: id_to, message: WsMessage { message: message.to_owned() } })
        } else {
            None
        }
    }

    /// Registers the session `msg.self_id` in the room `msg.lobby_id`, and
    /// greets it with a frame written at `timestamp`. An identifier that a
    /// live session has already is refused, and nothing changes.
    pub fn connect_at(&mut self, msg: Connect, timestamp: &str) -> (r: Result<
        Delivery,
        ConnectError,
    >)
        requires
            old(self).wf(),
        ensures
            final(self).wf(),
            match r {
                Ok(d) => {
                    &&& !old(self)@.live(msg.self_id)
                    &&& final(self)@ == old(self)@.connected(msg.self_id, msg.lobby_id)
                    &&& sent(d) == (
                        msg.self_id,
                        welcome_text(msg.self_id, timestamp@, old(self)@.start_dir),
                    )
                },
                Err(_) => old(self)@.live(msg.self_id) && final(self)@ == old(self)@,
            },
    {
        let id = msg.self_id;
        let room = msg.lobby_id;
        if self.sessions.contains_key(&id) {
            return Err(ConnectError::SessionExists);
        }
        let ghost before = self@;
        let mut members = match self.rooms.remove(&room) {
            Some(members) => members,
            None => Vec::new(),
        };
        assert(members@ == before.members(room));
        members.push(id);
        self.rooms.insert(room, members);
        let session = Session {
            room,
            shell: CD::new(self.start_dir.clone()),
            busy: false,
            backlog: Vec::new(),
        };
        assert(session@.backlog =~= Seq::empty());
        self.sessions.insert(id, session);
        proof {
            let after = before.connected(id, room);
            assert(self@.sessions =~= after.sessions);
            assert(self@.rooms =~= after.rooms);
            lemma_connected_valid(before, id, room);
        }
        let text = welcome(id, timestamp, self.start_dir.as_str());
        Ok(Delivery { to: id, message: WsMessage { message: text } })
    }

    /// Registers the session `msg.self_id` in the room `msg.lobby_id`, and
    /// greets it: what `connect_at` does at the time that the wall clock
    /// shows.
    pub fn connect(&mut self, msg: Connect) -> (r: Result<Delivery, ConnectError>)
        requires
            old(self).wf(),
        ensures
            final(self).wf(),
            match r {
                Ok(d) => {
                    &&& !old(self)@.live(msg.self_id)
                    &&& final(self)@ == old(self)@.connected(msg.self_id, msg.lobby_id)
                    &&& d.to == msg.self_id
                    &&& exists|timestamp: Seq<char>|
                        d.message.message@ == welcome_text(
                            msg.self_id,
                            timestamp,
                            old(self)@.start_dir,
                        )
                },
                Err(_) => old(self)@.live(msg.self_id) && final(self)@ == old(self)@,
            },
    {
        let timestamp = utc_rfc3339();
        self.connect_at(msg, timestamp.as_str())
    }

    /// Ends the session `msg.self_id`: it is live no more, its directory and
    /// its line are forgotten, every member that stays in its room is told,
    /// and the room goes with its last member. The room is the one that the
    /// session is in, whatever room the message names. Nothing happens where
    /// the session is not live.
    pub fn disconnect(&mut self, msg: Disconnect) -> (r: Vec<Delivery>)
        requires
            old(self).wf(),
        ensures
            final(self).wf(),
            old(self)@.live(msg.self_id) ==> {
                &&& final(self)@ == old(self)@.disconnected(msg.self_id)
                &&& all_sent(r@) == to_each(
                    without(
                        old(self)@.members(old(self)@.sessions[msg.self_id].room),
                        msg.self_id,
                    ),
                    farewell_text(msg.self_id),
                )
            },
            !old(self)@.live(msg.self_id) ==> final(self)@ == old(self)@ && r@.len() == 0,
    {
        let id = msg.self_id;
        let room = match self.room_of(id) {
            Some(room) => room,
            None => {
                return Vec::new();
            },
        };
        let ghost before = self@;
        assert(before.rooms.contains_key(room));
        self.sessions.remove(&id);
        let members = match self.rooms.remove(&room) {
            Some(members) => members,
            None => Vec::new(),
        };
        assert(members@ == before.members(room));
        let rest = remove_member(&members, id);
        let text = farewell(id);
        let deliveries = notify(&rest, text.as_str());
        if rest.len() > 0 {
            self.rooms.insert(room, rest);
        }
        proof {
            let after = before.disconnected(id);
            assert(self@.sessions =~= after.sessions);
            assert(self@.rooms =~= after.rooms);
            lemma_disconnected_valid(before, id);
        }
        deliveries
    }

    /// What the command `command` of the session `id_to` needs from
    /// outside, in the directory that the session is in: `None` where the
    /// session is not live.
    pub fn execute_command(&self, command: &str, id_to: u128) -> (r: Option<Task>)
        ensures
            match r {
                Some(task) => self@.live(id_to) && task@ == planned(
                    self@.sessions[id_to].directory,
                    command@,
                    self@.home,
                    self@.windows,
                    self@.timeout_secs,
                ),
                None => !self@.live(id_to),
            },
    {
        match self.sessions.get(&id_to) {
            Some(session) => Some(session.shell.cd(command, &self.host)),
            None => None,
        }
    }

    /// What the broker sends for the plain text frame `raw` that a session
    /// of `room` sent and that reads as `plain`.
    pub fn relay(&self, room: u128, plain: Plain, raw: &str) -> (r: Vec<Delivery>)
        ensures
            all_sent(r@) == relayed(self@, room, plain@, raw@),
    {
        match plain {
            Plain::Whisper { target, text } => match target {
                Some(t) => match self.send_message(text.as_str(), t) {
                    Some(d) => {
                        let r = vec![d];
                        assert(all_sent(r@) =~= seq![(t, text@)]);
                        r
                    },
                    None => {
                        let r: Vec<Delivery> = Vec::new();
                        assert(all_sent(r@) =~= Seq::empty());
                        r
                    },
                },
                None => {
                    let r: Vec<Delivery> = Vec::new();
                    assert(all_sent(r@) =~= Seq::empty());
                    r
                },
            },
            Plain::Broadcast => match self.rooms.get(&room) {
                Some(members) => notify(members, raw),
                None => {
                    let r: Vec<Delivery> = Vec::new();
                    assert(all_sent(r@) =~= to_each(Seq::empty(), raw@));
                    r
                },
            },
        }
    }

    /// Puts `session` in the place of the live session `id`.
    fn replace(&mut self, id: u128, session: Session)
        ensures
            final(self)@ == old(self)@.with_session(id, session@),
    {
        let ghost before = self@;
        self.sessions.insert(id, session);
        assert(self@.sessions =~= before.with_session(id, session@).sessions);
        assert(self@.rooms =~= before.rooms);
    }

    /// Takes the live session `id` out of the table, to be put back by
    /// `replace`.
    fn take(&mut self, id: u128) -> (session: Session)
        requires
            old(self)@.live(id),
        ensures
            session@ == old(self)@.sessions[id],
            final(self)@.sessions == old(self)@.sessions.remove(id),
            final(self)@.with_session(id, session@) == old(self)@,
            forall|s: SessionView| #[trigger]
                final(self)@.with_session(id, s) == old(self)@.with_session(id, s),
    {
        let ghost before = self@;
        let session = match self.sessions.remove(&id) {
            Some(session) => session,
            None => Session { room: 0, shell: CD::new(String::new()), busy: false, backlog: Vec::new() },
        };
        assert(self@.sessions =~= before.sessions.remove(id));
        assert(self@.rooms =~= before.rooms);
        assert(self@.with_session(id, session@).sessions =~= before.sessions);
        assert forall|s: SessionView| #[trigger]
            self@.with_session(id, s) == before.with_session(id, s) by {
            assert(self@.with_session(id, s).sessions =~= before.with_session(id, s).sessions);
        }
        session
    }

    /// What the broker does about the frame `raw` of the session `id`,
    /// which decodes to `envelope`, at the time `stamp`. Nothing happens
    /// where the session is not live.
    pub fn dispatch(&mut self, id: u128, envelope: Envelope, raw: &str, stamp: &str) -> (r:
        Reaction)
        requires
            old(self)@.valid_but(id),
        ensures
            final(self)@.valid_but(id),
            old(self).wf() ==> final(self).wf(),
            old(self)@.live(id) ==> (final(self)@, r@) == reacted(
                old(self)@,
                id,
                envelope@,
                raw@,
                stamp@,
            ),
            !old(self)@.live(id) ==> final(self)@ == old(self)@ && r@ == nothing(),
    {
        let room = match self.room_of(id) {
            Some(room) => room,
            None => {
                let r = Reaction { deliveries: Vec::new(), task: None };
                assert(r@.deliveries =~= Seq::empty());
                return r;
            },
        };
        proof {
            lemma_reacted_valid(self@, id, envelope@, raw@, stamp@);
        }
        match envelope {
            Envelope::Command(command) => {
                let task = self.execute_command(command.as_str(), id);
                let mut session = self.take(id);
                session.busy = true;
                self.replace(id, session);
                let r = Reaction { deliveries: Vec::new(), task };
                assert(r@.deliveries =~= Seq::empty());
                r
            },
            Envelope::Ping => {
                let text = pong(stamp);
                let deliveries = vec![Delivery { to: id, message: WsMessage { message: text } }];
                assert(all_sent(deliveries@) =~= seq![(id, pong_text(stamp@))]);
                Reaction { deliveries, task: None }
            },
            Envelope::Pong => {
                let r = Reaction { deliveries: Vec::new(), task: None };
                assert(r@.deliveries =~= Seq::empty());
                r
            },
            Envelope::Unrecognized => {
                let r = Reaction { deliveries: Vec::new(), task: None };
                assert(r@.deliveries =~= Seq::empty());
                r
            },
            Envelope::Legacy => Reaction {
                deliveries: self.relay(room, Plain::read(raw), raw),
                task: None,
            },
        }
    }

    /// What the broker does when the frame `msg.msg` arrives from the
    /// session `msg.id`, at the time `stamp`. The frame is handled in the
    /// room that the session is in, whatever room the message names.
    pub fn receive(&mut self, msg: ClientActorMessage, stamp: &str) -> (r: Reaction)
        requires
            old(self).wf(),
        ensures
            final(self).wf(),
            (final(self)@, r@) == received(old(self)@, msg.id, msg.msg@, stamp@),
    {
        let id = msg.id;
        let idle = match self.sessions.get(&id) {
            Some(session) => !session.busy,
            None => {
                let r = Reaction { deliveries: Vec::new(), task: None };
                assert(r@.deliveries =~= Seq::empty());
                return r;
            },
        };
        if idle {
            let envelope = Envelope::decode(msg.msg.as_str());
            self.dispatch(id, envelope, msg.msg.as_str(), stamp)
        } else {
            let ghost before = self@;
            let mut session = self.take(id);
            let ghost line = session@.backlog;
            session.backlog.push(msg.msg);
            assert(session@.backlog =~= line.push(msg.msg@));
            self.replace(id, session);
            proof {
                lemma_with_session(
                    before,
                    id,
                    SessionView { backlog: line.push(msg.msg@), ..before.sessions[id] },
                );
            }
            let r = Reaction { deliveries: Vec::new(), task: None };
            assert(r@.deliveries =~= Seq::empty());
            r
        }
    }

    /// What the broker does when the frame `msg.msg` arrives from the
    /// session `msg.id`: what `receive` does at the time that the wall clock
    /// shows.
    pub fn client_message(&mut self, msg: ClientActorMessage) -> (r: Reaction)
        requires
            old(self).wf(),
        ensures
            final(self).wf(),
            exists|stamp: Seq<char>|
                (final(self)@, r@) == received(old(self)@, msg.id, msg.msg@, stamp),
    {
        let stamp = utc_rfc3339();
        self.receive(msg, stamp.as_str())
    }

    /// Serves one request, at the time `stamp`: a registration as
    /// `connect_at` does, where a refusal gives nothing to deliver; the end of
    /// a session as `disconnect` does; a frame as `receive` does.
    pub fn handle_at(&mut self, msg: Request, stamp: &str) -> (r: Reaction)
        requires
            old(self).wf(),
        ensures
            final(self).wf(),
            (final(self)@, r@) == handled(old(self)@, msg@, stamp@),
    {
        match msg {
            Request::Connect(connect) => match self.connect_at(connect, stamp) {
                Ok(welcome) => {
                    let deliveries = vec![welcome];
                    assert(all_sent(deliveries@) =~= seq![sent(welcome)]);
                    Reaction { deliveries, task: None }
                },
                Err(_) => {
                    let r = Reaction { deliveries: Vec::new(), task: None };
                    assert(r@.deliveries =~= Seq::empty());
                    r
                },
            },
            Request::Disconnect(disconnect) => {
                let deliveries = self.disconnect(disconnect);
                assert(deliveries@.len() == 0 ==> all_sent(deliveries@) =~= Seq::empty());
                Reaction { deliveries, task: None }
            },
            Request::Message(message) => self.receive(message, stamp),
        }
    }

    /// Serves one request: what `handle_at` does at the time that the wall
    /// clock shows. The broker serves its requests one at a time, each to its
    /// end, in the order in which they are handed to it.
    pub fn handle(&mut self, msg: Request) -> (r: Reaction)
        requires
            old(self).wf(),
        ensures
            final(self).wf(),
            exists|stamp: Seq<char>| (final(self)@, r@) == handled(old(self)@, msg@, stamp),
    {
        let stamp = utc_rfc3339();
        self.handle_at(msg, stamp.as_str())
    }

    /// Takes the first frame out of the line of the session `id`, if the
    /// session is live and idle and a frame waits.
    fn next_in_line(&mut self, id: u128) -> (r: Option<String>)
        ensures
            match r {
                Some(raw) => {
                    &&& old(self)@.live(id)
                    &&& !old(self)@.sessions[id].busy
                    &&& old(self)@.sessions[id].backlog.len() > 0
                    &&& raw@ == old(self)@.sessions[id].backlog[0]
                    &&& final(self)@ == old(self)@.unqueued(id)
                },
                None => {
                    &&& final(self)@ == old(self)@
                    &&& (!old(self)@.live(id) || old(self)@.sessions[id].busy
                        || old(self)@.sessions[id].backlog.len() == 0)
                },
            },
    {
        let ready = match self.sessions.get(&id) {
            Some(session) => !session.busy && session.backlog.len() > 0,
            None => false,
        };
        if !ready {
            return None;
        }
        let mut session = self.take(id);
        let ghost line = session@.backlog;
        let raw = session.backlog.remove(0);
        assert(session@.backlog =~= line.drop_first());
        assert(raw@ == line[0]);
        self.replace(id, session);
        Some(raw)
    }

    /// Works off the line of the session `id`, at the time `stamp`.
    pub fn drain(&mut self, id: u128, stamp: &str) -> (r: Reaction)
        requires
            old(self)@.valid_but(id),
        ensures
            final(self).wf(),
            (final(self)@, r@) == drained(old(self)@, id, stamp@),
    {
        let mut deliveries: Vec<Delivery> = Vec::new();
        let ghost goal = drained(self@, id, stamp@);
        assert(all_sent(deliveries@) =~= Seq::empty());
        assert(all_sent(deliveries@) + goal.1.deliveries =~= goal.1.deliveries);
        loop
            invariant
                self@.valid_but(id),
                goal == drained(old(self)@, id, stamp@),
                drained(self@, id, stamp@).0 == goal.0,
                all_sent(deliveries@) + drained(self@, id, stamp@).1.deliveries
                    == goal.1.deliveries,
                drained(self@, id, stamp@).1.task == goal.1.task,
            decreases self@.waiting(id),
        {
            let ghost before = self@;
            let ghost sent_before = all_sent(deliveries@);
            match self.next_in_line(id) {
                None => {
                    let r = Reaction { deliveries, task: None };
                    assert(drained(before, id, stamp@) == (before, nothing()));
                    assert(sent_before + Seq::empty() =~= sent_before);
                    assert(before.settled(id));
                    return r;
                },
                Some(raw) => {
                    proof {
                        lemma_with_session(
                            before,
                            id,
                            SessionView {
                                backlog: before.sessions[id].backlog.drop_first(),
                                ..before.sessions[id]
                            },
                        );
                    }
                    let ghost popped = self@;
                    let envelope = Envelope::decode(raw.as_str());
                    let mut step = self.dispatch(id, envelope, raw.as_str(), stamp);
                    let ghost first = reacted(popped, id, decoded(raw@), raw@, stamp@);
                    let ghost rest = drained(first.0, id, stamp@);
                    assert(first.0 == self@);
                    assert(first.1 == step@);
                    assert(self@.waiting(id) < before.waiting(id));
                    let ghost step_sent = all_sent(step.deliveries@);
                    deliveries.append(&mut step.deliveries);
                    assert(all_sent(deliveries@) =~= sent_before + step_sent);
                    assert((sent_before + step_sent) + rest.1.deliveries =~= sent_before + (
                    step_sent + rest.1.deliveries));
                    if step.task.is_some() {
                        assert(self@.sessions[id].busy);
                        assert(rest == (self@, nothing()));
                        assert(step_sent + Seq::empty() =~= step_sent);
                        assert(self@.settled(id));
                        return Reaction { deliveries, task: step.task };
                    }
                },
            }
        }
    }

    /// Completes the command of the session `id`: the session is told
    /// `result`, is idle again in `directory`, and its line is worked off at
    /// the time `stamp`. Nothing happens where the session is live no more.
    fn complete(&mut self, id: u128, directory: String, result: String, stamp: &str) -> (r:
        Reaction)
        requires
            old(self).wf(),
        ensures
            final(self).wf(),
            (final(self)@, r@) == completed(old(self)@, id, directory@, result@, stamp@),
    {
        if !self.sessions.contains_key(&id) {
            let r = Reaction { deliveries: Vec::new(), task: None };
            assert(r@.deliveries =~= Seq::empty());
            return r;
        }
        let ghost before = self@;
        let mut session = self.take(id);
        session.shell.curr_dir = directory;
        session.busy = false;
        self.replace(id, session);
        proof {
            let idle = before.moved(id, directory@).occupied(id, false);
            assert(self@.sessions =~= idle.sessions);
            lemma_with_session(
                before,
                id,
                SessionView { directory: directory@, ..before.sessions[id] },
            );
            lemma_with_session(
                before.moved(id, directory@),
                id,
                SessionView { busy: false, ..before.moved(id, directory@).sessions[id] },
            );
        }
        let mut rest = self.drain(id, stamp);
        let mut deliveries = vec![Delivery { to: id, message: WsMessage { message: result } }];
        let ghost rest_sent = all_sent(rest.deliveries@);
        assert(all_sent(deliveries@) =~= seq![(id, result@)]);
        deliveries.append(&mut rest.deliveries);
        assert(all_sent(deliveries@) =~= seq![(id, result@)] + rest_sent);
        Reaction { deliveries, task: rest.task }
    }

    /// Ends the `cd` command `command` of the session `id`, whose path
    /// resolved as `resolution` says, at the time `stamp`.
    pub fn directory_resolved_at(
        &mut self,
        id: u128,
        command: &str,
        resolution: Resolution,
        stamp: &str,
    ) -> (r: Reaction)
        requires
            old(self).wf(),
        ensures
            final(self).wf(),
            (final(self)@, r@) == cd_completed(
                old(self)@,
                id,
                command@,
                resolution_view(resolution),
                stamp@,
            ),
    {
        let cwd = match self.directory_of(id) {
            Some(cwd) => cwd,
            None => {
                let r = Reaction { deliveries: Vec::new(), task: None };
                assert(r@.deliveries =~= Seq::empty());
                return r;
            },
        };
        let mut shell = CD::new(cwd);
        let result = shell.resolved(command, resolution);
        self.complete(id, shell.curr_dir, result.encode(), stamp)
    }

    /// Ends the `cd` command `command` of the session `id`, whose path
    /// resolved as `resolution` says: what `directory_resolved_at` does at
    /// the time that the wall clock shows.
    pub fn directory_resolved(&mut self, id: u128, command: &str, resolution: Resolution) -> (r:
        Reaction)
        requires
            old(self).wf(),
        ensures
            final(self).wf(),
            exists|stamp: Seq<char>|
                (final(self)@, r@) == cd_completed(
                    old(self)@,
                    id,
                    command@,
                    resolution_view(resolution),
                    stamp,
                ),
    {
        let stamp = utc_rfc3339();
        self.directory_resolved_at(id, command, resolution, stamp.as_str())
    }

    /// Ends the command `command` of the session `id`, which ran in
    /// `directory` and went as `outcome` says, at the time `stamp`.
    pub fn command_finished_at(
        &mut self,
        id: u128,
        command: &str,
        directory: &str,
        outcome: Outcome,
        stamp: &str,
    ) -> (r: Reaction)
        requires
            old(self).wf(),
        ensures
            final(self).wf(),
            (final(self)@, r@) == run_completed(
                old(self)@,
                id,
                command@,
                directory@,
                outcome@,
                stamp@,
            ),
    {
        let cwd = match self.directory_of(id) {
            Some(cwd) => cwd,
            None => {
                let r = Reaction { deliveries: Vec::new(), task: None };
                assert(r@.deliveries =~= Seq::empty());
                return r;
            },
        };
        let result = CommandResult::of_outcome(command, directory, outcome, self.host.timeout_secs);
        self.complete(id, cwd, result.encode(), stamp)
    }

    /// Ends the command `command` of the session `id`, which ran in
    /// `directory` and went as `outcome` says: what `command_finished_at`
    /// does at the time that the wall clock shows.
    pub fn command_finished(
        &mut self,
        id: u128,
        command: &str,
        directory: &str,
        outcome: Outcome,
    ) -> (r: Reaction)
        requires
            old(self).wf(),
        ensures
            final(self).wf(),
            exists|stamp: Seq<char>|
                (final(self)@, r@) == run_completed(
                    old(self)@,
                    id,
                    command@,
                    directory@,
                    outcome@,
                    stamp,
                ),
    {
        let stamp = utc_rfc3339();
        self.command_finished_at(id, command, directory, outcome, stamp.as_str())
    }
}

/// The members of a room without `id`, the others in their order.
pub fn remove_member(members: &Vec<u128>, id: u128) -> (r: Vec<u128>)
    ensures
        r@ == without(members@, id),
{
    let mut r: Vec<u128> = Vec::new();
    let mut i: usize = 0;
    while i < members.len()
        invariant
            i <= members.len(),
            r@ == without(members@.take(i as int), id),
        decreases members.len() - i,
    {
        assert(members@.take(i + 1).drop_last() =~= members@.take(i as int));
        if members[i] != id {
            r.push(members[i]);
        }
        i += 1;
    }
    assert(members@.take(members.len() as int) =~= members@);
    r
}

/// The frame `text` on its way to each of `members`, in their order.
pub fn notify(members: &Vec<u128>, text: &str) -> (r: Vec<Delivery>)
    ensures
        all_sent(r@) == to_each(members@, text@),
{
    let mut r: Vec<Delivery> = Vec::new();
    let mut i: usize = 0;
    while i < members.len()
        invariant
            i <= members.len(),
            r@.len() == i,
            forall|k: int| 0 <= k < i ==> sent(#[trigger] r@[k]) == (members@[k], text@),
        decreases members.len() - i,
    {
        r.push(Delivery { to: members[i], message: WsMessage { message: text.to_owned() } });
        i += 1;
    }
    assert(all_sent(r@) =~= to_each(members@, text@));
    r
}

} // verus!
