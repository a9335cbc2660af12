//! The broker's state as plain values, what each of its operations makes of
//! it, and what holds of every state that the operations can reach.

use vstd::prelude::*;
use crate::envelope::{decoded, pong_text, system_message_text, EnvelopeView};
use crate::exec::{
    cd_argument, cd_result, directory_after, is_cd, law_cd_alone_goes_home, law_cd_dot_stays,
    law_cd_up_goes_to_parent,
    planned, run_result, OutcomeView, TaskView,
};
use crate::ident::id_text;
use crate::legacy::{is_whisper, plain_of, whisper_body, whisper_target, PlainView};
use crate::path::{is_separator, parent_path};

verus! {

/// A live session as plain values.
pub struct SessionView {
    /// The room that the session is in.
    pub room: u128,
    /// Its working directory.
    pub directory: Seq<char>,
    /// Whether a command of the session is under way.
    pub busy: bool,
    /// The frames of the session that wait for that command to end, the
    /// oldest first.
    pub backlog: Seq<Seq<char>>,
}

/// The broker's state as plain values.
pub struct LobbyView {
    /// The live sessions.
    pub sessions: Map<u128, SessionView>,
    /// The rooms, each with its members in the order in which they joined.
    pub rooms: Map<u128, Seq<u128>>,
    /// The directory in which a session starts.
    pub start_dir: Seq<char>,
    /// The home directory of `cd` without an argument.
    pub home: Seq<char>,
    /// Whether the host follows the alternate platform's conventions.
    pub windows: bool,
    /// The seconds that a command may take.
    pub timeout_secs: u64,
}

/// What an operation of the broker asks for, as plain values.
pub struct ReactionView {
    /// The frames to deliver, in order: the session and the text of each.
    pub deliveries: Seq<(u128, Seq<char>)>,
    /// The task to carry out, if there is one.
    pub task: Option<TaskView>,
}

/// A request to the broker, as plain values. Of the rooms that a request
/// names, the broker reads that of a registration only: every other request
/// is served in the room that the session is in.
pub enum RequestView {
    /// The session `id` asks to be registered in `room`.
    Connect { room: u128, id: u128 },
    /// The session `id` has ended.
    Disconnect { id: u128 },
    /// The peer of the session `id` sent the text frame `raw`.
    Message { id: u128, raw: Seq<char> },
}

/// No frame to deliver and no task.
pub open spec fn nothing() -> ReactionView {
    ReactionView { deliveries: Seq::empty(), task: None }
}

/// `members` without `id`, the others in their order.
pub open spec fn without(members: Seq<u128>, id: u128) -> Seq<u128>
    decreases members.len(),
{
    if members.len() == 0 {
        members
    } else if members.last() == id {
        without(members.drop_last(), id)
    } else {
        without(members.drop_last(), id).push(members.last())
    }
}

/// The frame `text` for each of `members`, in their order.
pub open spec fn to_each(members: Seq<u128>, text: Seq<char>) -> Seq<(u128, Seq<char>)> {
    Seq::new(members.len(), |i: int| (members[i], text))
}

impl LobbyView {
    /// Whether the session `id` is live.
    pub open spec fn live(self, id: u128) -> bool {
        self.sessions.contains_key(id)
    }

    /// Whether the session `id` is live and in the room `room`.
    pub open spec fn joined(self, id: u128, room: u128) -> bool {
        self.sessions.contains_key(id) && self.sessions[id].room == room
    }

    /// The members of `room`: none where there is no such room.
    pub open spec fn members(self, room: u128) -> Seq<u128> {
        if self.rooms.contains_key(room) {
            self.rooms[room]
        } else {
            Seq::empty()
        }
    }

    /// How many frames of the session `id` wait in line.
    pub open spec fn waiting(self, id: u128) -> nat {
        if self.live(id) {
            self.sessions[id].backlog.len()
        } else {
            0
        }
    }

    /// Whether sessions and rooms agree: every live session is a member of
    /// its room; every member of a room is a live session of that room, and
    /// is a member once; no room is empty.
    pub open spec fn consistent(self) -> bool {
        &&& forall|id: u128| #[trigger]
            self.sessions.contains_key(id) ==> self.rooms.contains_key(self.sessions[id].room)
                && self.rooms[self.sessions[id].room].contains(id)
        &&& forall|room: u128| #[trigger]
            self.rooms.contains_key(room) ==> self.rooms[room].len() > 0
                && self.rooms[room].no_duplicates()
        &&& forall|room: u128, i: int|
            self.rooms.contains_key(room) && 0 <= i < self.rooms[room].len() ==> self.joined(
                #[trigger] self.rooms[room][i],
                room,
            )
    }

    /// Whether no frame of the session `id` waits without need: frames
    /// wait in line only while the session is busy.
    pub open spec fn settled(self, id: u128) -> bool {
        self.live(id) ==> self.sessions[id].busy || self.sessions[id].backlog.len() == 0
    }

    /// What holds of the broker between its operations: sessions and rooms
    /// agree, and every session is settled.
    pub open spec fn valid(self) -> bool {
        self.consistent() && forall|id: u128| #[trigger] self.settled(id)
    }

    /// What holds of the broker while the line of the session `id` is
    /// worked off: all that `valid` asks, but that `id` be settled.
    pub open spec fn valid_but(self, id: u128) -> bool {
        self.consistent() && forall|other: u128| other != id ==> #[trigger] self.settled(other)
    }

    /// The state in which the session `id` is as `session` says, and
    /// everything else is as it was.
    pub open spec fn with_session(self, id: u128, session: SessionView) -> LobbyView {
        LobbyView { sessions: self.sessions.insert(id, session), ..self }
    }

    /// The state after the session `id` has joined `room`: it is live, idle,
    /// in the start directory, and the last member of the room, which exists
    /// from now on if it did not before.
    pub open spec fn connected(self, id: u128, room: u128) -> LobbyView {
        LobbyView {
            sessions: self.sessions.insert(
                id,
                SessionView {
                    room: room,
                    directory: self.start_dir,
                    busy: false,
                    backlog: Seq::empty(),
                },
            ),
            rooms: self.rooms.insert(room, self.members(room).push(id)),
            ..self
        }
    }

    /// The state after the live session `id` has left: it is live no more,
    /// its room has lost it, and the room is gone if nobody is left in it.
    pub open spec fn disconnected(self, id: u128) -> LobbyView {
        let room = self.sessions[id].room;
        let rest = without(self.members(room), id);
        LobbyView {
            sessions: self.sessions.remove(id),
            rooms: if rest.len() == 0 {
                self.rooms.remove(room)
            } else {
                self.rooms.insert(room, rest)
            },
            ..self
        }
    }

    /// The state after the live session `id` has moved to `directory`.
    pub open spec fn moved(self, id: u128, directory: Seq<char>) -> LobbyView {
        self.with_session(id, SessionView { directory: directory, ..self.sessions[id] })
    }

    /// The state in which the live session `id` is busy, or idle.
    pub open spec fn occupied(self, id: u128, busy: bool) -> LobbyView {
        self.with_session(id, SessionView { busy: busy, ..self.sessions[id] })
    }

    /// The state after the frame `raw` of the live session `id` has joined
    /// the end of the session's line.
    pub open spec fn queued(self, id: u128, raw: Seq<char>) -> LobbyView {
        self.with_session(
            id,
            SessionView { backlog: self.sessions[id].backlog.push(raw), ..self.sessions[id] },
        )
    }

    /// The state after the first frame in line of the live session `id` has
    /// left the line.
    pub open spec fn unqueued(self, id: u128) -> LobbyView {
        self.with_session(
            id,
            SessionView { backlog: self.sessions[id].backlog.drop_first(), ..self.sessions[id] },
        )
    }
}

/// What the broker sends for the plain text frame `raw` that a session of
/// `room` sent and that reads as `plain`: a whisper goes to its target alone
/// if that is a live session, and to nobody otherwise; a broadcast goes, as
/// it was sent, to every member of `room`, the sender among them.
pub open spec fn relayed(v: LobbyView, room: u128, plain: PlainView, raw: Seq<char>) -> Seq<
    (u128, Seq<char>),
> {
    match plain {
        PlainView::Whisper { target, text } => match target {
            Some(t) => if v.live(t) {
                seq![(t, text)]
            } else {
                Seq::empty()
            },
            None => Seq::empty(),
        },
        PlainView::Broadcast => to_each(v.members(room), raw),
    }
}

/// What the broker does about the frame `raw` of the session `id`, which
/// decodes to `envelope`, at the time `stamp`; `id` is live. A command makes
/// the session busy and gives the task that it needs; its result is told
/// when the task is done. A ping is answered with a pong to the sender
/// alone. A pong and an unrecognized frame call for nothing. Plain text is
/// relayed.
pub open spec fn reacted(
    v: LobbyView,
    id: u128,
    envelope: EnvelopeView,
    raw: Seq<char>,
    stamp: Seq<char>,
) -> (LobbyView, ReactionView) {
    match envelope {
        EnvelopeView::Command(command) => (
            v.occupied(id, true),
            ReactionView {
                deliveries: Seq::empty(),
                task: Some(
                    planned(
                        v.sessions[id].directory,
                        command,
                        v.home,
                        v.windows,
                        v.timeout_secs,
                    ),
                ),
            },
        ),
        EnvelopeView::Ping => (
            v,
            ReactionView { deliveries: seq![(id, pong_text(stamp))], task: None },
        ),
        EnvelopeView::Pong => (v, nothing()),
        EnvelopeView::Unrecognized => (v, nothing()),
        EnvelopeView::Legacy => (
            v,
            ReactionView {
                deliveries: relayed(v, v.sessions[id].room, plain_of(raw), raw),
                task: None,
            },
        ),
    }
}

/// What the broker does when the frame `raw` arrives from the session `id`.
/// A frame of a session that is not live is ignored. A frame of a busy
/// session joins the session's line. Any other is handled at once, as its
/// envelope asks, in the room that the session is in.
pub open spec fn received(v: LobbyView, id: u128, raw: Seq<char>, stamp: Seq<char>) -> (
    LobbyView,
    ReactionView,
) {
    if !v.live(id) {
        (v, nothing())
    } else if v.sessions[id].busy {
        (v.queued(id, raw), nothing())
    } else {
        reacted(v, id, decoded(raw), raw, stamp)
    }
}

/// What the broker does to serve `request` at the time `stamp`. A session
/// that is not live is registered and greeted; a registration under the
/// identifier of a live session changes nothing and sends nothing. A live
/// session that ends leaves its room, and every member that stays is told; of
/// a session that is not live nothing is done. A frame is received.
pub open spec fn handled(v: LobbyView, request: RequestView, stamp: Seq<char>) -> (
    LobbyView,
    ReactionView,
) {
    match request {
        RequestView::Connect { room, id } => if v.live(id) {
            (v, nothing())
        } else {
            (
                v.connected(id, room),
                ReactionView {
                    deliveries: seq![(id, welcome_text(id, stamp, v.start_dir))],
                    task: None,
                },
            )
        },
        RequestView::Disconnect { id } => if v.live(id) {
            (
                v.disconnected(id),
                ReactionView {
                    deliveries: to_each(
                        without(v.members(v.sessions[id].room), id),
                        farewell_text(id),
                    ),
                    task: None,
                },
            )
        } else {
            (v, nothing())
        },
        RequestView::Message { id, raw } => received(v, id, raw, stamp),
    }
}

/// What the broker does to work off the line of the session `id`: as long as
/// the session is idle and a frame waits, the first in line is handled as if
/// it had just arrived. This ends when the line is empty, or with the next
/// command, which makes the session busy again and whose task is passed on.
pub open spec fn drained(v: LobbyView, id: u128, stamp: Seq<char>) -> (LobbyView, ReactionView)
    decreases v.waiting(id),
{
    if !v.live(id) || v.sessions[id].busy || v.sessions[id].backlog.len() == 0 {
        (v, nothing())
    } else {
        let raw = v.sessions[id].backlog[0];
        let first = reacted(v.unqueued(id), id, decoded(raw), raw, stamp);
        let rest = drained(first.0, id, stamp);
        (
            rest.0,
            ReactionView {
                deliveries: first.1.deliveries + rest.1.deliveries,
                task: if first.1.task.is_some() {
                    first.1.task
                } else {
                    rest.1.task
                },
            },
        )
    }
}

/// What the broker does when the command of the session `id` has ended
/// with `result`, leaving the session in `directory`: the session is told
/// the result, is idle again, and its line is worked off. Nothing happens
/// where the session is live no more.
pub open spec fn completed(
    v: LobbyView,
    id: u128,
    directory: Seq<char>,
    result: Seq<char>,
    stamp: Seq<char>,
) -> (LobbyView, ReactionView) {
    if !v.live(id) {
        (v, nothing())
    } else {
        let rest = drained(v.moved(id, directory).occupied(id, false), id, stamp);
        (
            rest.0,
            ReactionView { deliveries: seq![(id, result)] + rest.1.deliveries, task: rest.1.task },
        )
    }
}

/// What the broker does when the path of the `cd` command `command` of the
/// session `id` has resolved as `resolution` says: the session moves to the
/// canonical path if there is one, and the command is completed.
pub open spec fn cd_completed(
    v: LobbyView,
    id: u128,
    command: Seq<char>,
    resolution: Result<Seq<char>, Seq<char>>,
    stamp: Seq<char>,
) -> (LobbyView, ReactionView) {
    completed(
        v,
        id,
        directory_after(v.sessions[id].directory, resolution),
        cd_result(command, v.sessions[id].directory, resolution).frame(),
        stamp,
    )
}

/// What the broker does when the command `command` of the session `id`,
/// which ran in `directory`, has gone as `outcome` says: the session stays
/// where it is, and the command is completed.
pub open spec fn run_completed(
    v: LobbyView,
    id: u128,
    command: Seq<char>,
    directory: Seq<char>,
    outcome: OutcomeView,
    stamp: Seq<char>,
) -> (LobbyView, ReactionView) {
    completed(
        v,
        id,
        v.sessions[id].directory,
        run_result(command, directory, outcome, v.timeout_secs).frame(),
        stamp,
    )
}

/// What `without` keeps: the members other than `id`, each as often as
/// before.
pub proof fn lemma_without(members: Seq<u128>, id: u128)
    ensures
        !without(members, id).contains(id),
        forall|m: u128| m != id ==> (without(members, id).contains(m) <==> members.contains(m)),
        members.no_duplicates() ==> without(members, id).no_duplicates(),
        without(members, id).len() <= members.len(),
        !members.contains(id) ==> without(members, id) == members,
    decreases members.len(),
{
    let out = without(members, id);
    if members.len() > 0 {
        let shorter = members.drop_last();
        let last = members.last();
        lemma_without(shorter, id);
        let inner = without(shorter, id);
        assert(members =~= shorter.push(last));
        assert forall|m: u128| m != id implies (out.contains(m) <==> members.contains(m)) by {
            if members.contains(m) {
                let i = choose|i: int| 0 <= i < members.len() && members[i] == m;
                if i < shorter.len() {
                    assert(shorter[i] == m);
                    assert(shorter.contains(m));
                    assert(inner.contains(m));
                    let j = choose|j: int| 0 <= j < inner.len() && inner[j] == m;
                    assert(out[j] == m);
                } else {
                    assert(last == m);
                    assert(out[out.len() - 1] == m);
                }
            }
            if out.contains(m) {
                let j = choose|j: int| 0 <= j < out.len() && out[j] == m;
                if j < inner.len() {
                    assert(inner[j] == m);
                    assert(inner.contains(m));
                    assert(shorter.contains(m));
                    let i = choose|i: int| 0 <= i < shorter.len() && shorter[i] == m;
                    assert(members[i] == m);
                } else {
                    assert(members[members.len() - 1] == m);
                }
            }
        }
        if out.contains(id) {
            let j = choose|j: int| 0 <= j < out.len() && out[j] == id;
            if j < inner.len() {
                assert(inner[j] == id);
                assert(inner.contains(id));
            }
        }
        if members.no_duplicates() {
            assert(shorter.no_duplicates());
            if last != id {
                if inner.contains(last) {
                    assert(shorter.contains(last));
                    let i = choose|i: int| 0 <= i < shorter.len() && shorter[i] == last;
                    assert(members[i] == members[members.len() - 1]);
                }
                assert forall|a: int, b: int| 0 <= a < out.len() && 0 <= b < out.len() && a
                    != b implies out[a] != out[b] by {
                    if a == inner.len() {
                        assert(inner[b] == out[b]);
                        assert(inner.contains(out[b]));
                    } else if b == inner.len() {
                        assert(inner[a] == out[a]);
                        assert(inner.contains(out[a]));
                    }
                }
            }
        }
        if !members.contains(id) {
            assert(!shorter.contains(id)) by {
                if shorter.contains(id) {
                    let i = choose|i: int| 0 <= i < shorter.len() && shorter[i] == id;
                    assert(members[i] == id);
                }
            }
            assert(last != id) by {
                assert(members[members.len() - 1] == last);
            }
            assert(out =~= members);
        }
    }
}

/// The text that greets the session `id`.
pub open spec fn greeting(id: u128) -> Seq<char> {
    "Connected! Your session ID is "@ + id_text(id)
}

/// The frame that greets the session `id`, written at `timestamp`, for a
/// session that starts in `directory`.
pub open spec fn welcome_text(id: u128, timestamp: Seq<char>, directory: Seq<char>) -> Seq<char> {
    system_message_text(greeting(id), timestamp, directory)
}

/// The frame that tells a room that the session `id` has left.
pub open spec fn farewell_text(id: u128) -> Seq<char> {
    id_text(id) + " disconnected."@
}

/// A session that is not live may join any room: the state stays valid.
pub proof fn lemma_connected_valid(v: LobbyView, id: u128, room: u128)
    requires
        v.valid(),
        !v.live(id),
    ensures
        v.connected(id, room).valid(),
{
    let w = v.connected(id, room);
    assert forall|s: u128| #[trigger] w.settled(s) by {
        if s != id {
            assert(v.settled(s));
        }
    }
    let old_members = v.members(room);
    let new_members = old_members.push(id);
    assert(new_members[new_members.len() - 1] == id);
    assert(!old_members.contains(id)) by {
        if old_members.contains(id) {
            let i = choose|i: int| 0 <= i < old_members.len() && old_members[i] == id;
            assert(v.joined(v.rooms[room][i], room));
        }
    }
    assert forall|s: u128| #[trigger] w.sessions.contains_key(s) implies w.rooms.contains_key(
        w.sessions[s].room,
    ) && w.rooms[w.sessions[s].room].contains(s) by {
        if s == id {
            assert(new_members.contains(id));
        } else {
            assert(v.sessions.contains_key(s));
            let r = v.sessions[s].room;
            if r == room {
                let i = choose|i: int| 0 <= i < old_members.len() && old_members[i] == s;
                assert(new_members[i] == s);
            }
        }
    }
    assert forall|r: u128| #[trigger] w.rooms.contains_key(r) implies w.rooms[r].len() > 0
        && w.rooms[r].no_duplicates() by {
        if r == room {
            if v.rooms.contains_key(room) {
                assert(old_members.no_duplicates());
            }
            assert forall|a: int, b: int|
                0 <= a < new_members.len() && 0 <= b < new_members.len() && a
                    != b implies new_members[a] != new_members[b] by {
                if a == old_members.len() {
                    assert(old_members[b] == new_members[b]);
                    assert(old_members.contains(new_members[b]));
                } else if b == old_members.len() {
                    assert(old_members[a] == new_members[a]);
                    assert(old_members.contains(new_members[a]));
                }
            }
        } else {
            assert(v.rooms.contains_key(r));
        }
    }
    assert forall|r: u128, i: int|
        w.rooms.contains_key(r) && 0 <= i < w.rooms[r].len() implies w.joined(
        #[trigger] w.rooms[r][i],
        r,
    ) by {
        if r == room {
            if i < old_members.len() {
                assert(v.joined(v.rooms[room][i], room));
                assert(old_members.contains(old_members[i]));
            }
        } else {
            assert(v.joined(v.rooms[r][i], r));
            assert(v.rooms[r][i] != id);
        }
    }
}

/// A live session may leave: the state stays valid.
pub proof fn lemma_disconnected_valid(v: LobbyView, id: u128)
    requires
        v.valid(),
        v.live(id),
    ensures
        v.disconnected(id).valid(),
{
    let w = v.disconnected(id);
    assert forall|s: u128| #[trigger] w.settled(s) by {
        assert(v.settled(s));
    }
    let room = v.sessions[id].room;
    let members = v.members(room);
    let rest = without(members, id);
    lemma_without(members, id);
    assert(v.rooms.contains_key(room));
    assert forall|s: u128| #[trigger] w.sessions.contains_key(s) implies w.rooms.contains_key(
        w.sessions[s].room,
    ) && w.rooms[w.sessions[s].room].contains(s) by {
        assert(v.sessions.contains_key(s));
        if v.sessions[s].room == room {
            assert(members.contains(s));
            assert(rest.contains(s));
        }
    }
    assert forall|r: u128| #[trigger] w.rooms.contains_key(r) implies w.rooms[r].len() > 0
        && w.rooms[r].no_duplicates() by {
        if r != room {
            assert(v.rooms.contains_key(r));
        }
    }
    assert forall|r: u128, i: int|
        w.rooms.contains_key(r) && 0 <= i < w.rooms[r].len() implies w.joined(
        #[trigger] w.rooms[r][i],
        r,
    ) by {
        let m = w.rooms[r][i];
        if r == room {
            assert(rest.contains(m));
            assert(members.contains(m));
            let j = choose|j: int| 0 <= j < members.len() && members[j] == m;
            assert(v.joined(v.rooms[room][j], room));
        } else {
            assert(v.joined(v.rooms[r][i], r));
        }
    }
}

/// A live session may change in anything but its room: sessions and rooms
/// still agree, and every other session is as settled as it was.
pub proof fn lemma_with_session(v: LobbyView, id: u128, session: SessionView)
    requires
        v.consistent(),
        v.live(id),
        session.room == v.sessions[id].room,
    ensures
        v.with_session(id, session).consistent(),
        forall|other: u128|
            other != id ==> #[trigger] v.with_session(id, session).settled(other) == v.settled(
                other,
            ),
        v.valid_but(id) ==> v.with_session(id, session).valid_but(id),
        v.valid_but(id) && (session.busy || session.backlog.len() == 0) ==> v.with_session(
            id,
            session,
        ).valid(),
{
    let w = v.with_session(id, session);
    assert forall|s: u128| #[trigger] w.sessions.contains_key(s) implies w.rooms.contains_key(
        w.sessions[s].room,
    ) && w.rooms[w.sessions[s].room].contains(s) by {
        assert(v.sessions.contains_key(s));
    }
    assert forall|r: u128, i: int|
        w.rooms.contains_key(r) && 0 <= i < w.rooms[r].len() implies w.joined(
        #[trigger] w.rooms[r][i],
        r,
    ) by {
        assert(v.joined(v.rooms[r][i], r));
    }
    assert forall|other: u128| other != id implies #[trigger] w.settled(other) == v.settled(
        other,
    ) by {}
    if v.valid_but(id) {
        assert forall|other: u128| other != id implies #[trigger] w.settled(other) by {
            assert(v.settled(other));
        }
        if session.busy || session.backlog.len() == 0 {
            assert forall|other: u128| #[trigger] w.settled(other) by {
                if other != id {
                    assert(v.settled(other));
                }
            }
        }
    }
}

/// Handling a frame of a live session keeps what held of the broker; a
/// frame that gives a task leaves the session busy.
pub proof fn lemma_reacted_valid(
    v: LobbyView,
    id: u128,
    envelope: EnvelopeView,
    raw: Seq<char>,
    stamp: Seq<char>,
)
    requires
        v.valid_but(id),
        v.live(id),
    ensures
        reacted(v, id, envelope, raw, stamp).0.valid_but(id),
        v.valid() ==> reacted(v, id, envelope, raw, stamp).0.valid(),
        reacted(v, id, envelope, raw, stamp).1.task.is_some() ==> reacted(
            v,
            id,
            envelope,
            raw,
            stamp,
        ).0.sessions[id].busy,
        reacted(v, id, envelope, raw, stamp).0.waiting(id) == v.waiting(id),
        reacted(v, id, envelope, raw, stamp).0.live(id),
{
    lemma_with_session(v, id, SessionView { busy: true, ..v.sessions[id] });
    if v.valid() {
        assert(v.settled(id));
    }
}

/// A session is in one room at a time: a room that holds it is the room
/// that it is live in.
pub proof fn law_one_room_per_session(v: LobbyView, id: u128, first: u128, second: u128)
    requires
        v.valid(),
        v.members(first).contains(id),
        v.members(second).contains(id),
    ensures
        first == second,
        v.joined(id, first),
{
    let i = choose|i: int| 0 <= i < v.members(first).len() && v.members(first)[i] == id;
    let j = choose|j: int| 0 <= j < v.members(second).len() && v.members(second)[j] == id;
    assert(v.joined(v.rooms[first][i], first));
    assert(v.joined(v.rooms[second][j], second));
}

/// When a session leaves, it is live no more and its room holds it no more;
/// where it was the room's only member, the room is gone with it. The other
/// rooms and the other sessions are as they were.
pub proof fn law_disconnect_leaves_room(v: LobbyView, id: u128)
    requires
        v.valid(),
        v.live(id),
    ensures
        !v.disconnected(id).live(id),
        !v.disconnected(id).members(v.sessions[id].room).contains(id),
        v.members(v.sessions[id].room) == seq![id] ==> !v.disconnected(id).rooms.contains_key(
            v.sessions[id].room,
        ),
        forall|other: u128|
            other != v.sessions[id].room ==> v.disconnected(id).members(other) == v.members(
                other,
            ),
        forall|other: u128|
            other != id ==> v.disconnected(id).live(other) == v.live(other),
{
    let room = v.sessions[id].room;
    lemma_without(v.members(room), id);
    if v.members(room) == seq![id] {
        let rest = without(v.members(room), id);
        if rest.len() > 0 {
            assert(rest.contains(rest[0]));
            assert(v.members(room).contains(rest[0]));
            let j = choose|j: int| 0 <= j < v.members(room).len() && v.members(room)[j] == rest[0];
            assert(rest[0] == id);
        }
    }
}

/// When a session leaves, every member that stays in its room is told
/// once, and nobody else is told: not the session that leaves, and no
/// session of another room.
pub proof fn law_disconnect_tells_the_room(v: LobbyView, id: u128)
    requires
        v.valid(),
        v.live(id),
    ensures
        ({
            let room = v.sessions[id].room;
            let told = to_each(without(v.members(room), id), farewell_text(id));
            &&& forall|member: u128|
                member != id && v.joined(member, room) ==> told.contains(
                    (member, farewell_text(id)),
                )
            &&& forall|other: u128, text: Seq<char>|
                told.contains((other, text)) ==> other != id && v.joined(other, room) && text
                    == farewell_text(id)
            &&& forall|i: int, j: int|
                0 <= i < told.len() && 0 <= j < told.len() && i != j ==> told[i].0 != told[j].0
        }),
{
    let room = v.sessions[id].room;
    let members = v.members(room);
    let rest = without(members, id);
    let told = to_each(rest, farewell_text(id));
    lemma_without(members, id);
    assert(v.rooms.contains_key(room));
    assert forall|member: u128| member != id && v.joined(member, room) implies told.contains(
        (member, farewell_text(id)),
    ) by {
        assert(v.sessions.contains_key(member));
        assert(members.contains(member));
        assert(rest.contains(member));
        let i = choose|i: int| 0 <= i < rest.len() && rest[i] == member;
        assert(told[i] == (member, farewell_text(id)));
    }
    assert forall|other: u128, text: Seq<char>| told.contains((other, text)) implies other != id
        && v.joined(other, room) && text == farewell_text(id) by {
        let i = choose|i: int| 0 <= i < told.len() && told[i] == (other, text);
        assert(rest[i] == other);
        assert(rest.contains(other));
        assert(members.contains(other));
        let j = choose|j: int| 0 <= j < members.len() && members[j] == other;
        assert(v.joined(v.rooms[room][j], room));
    }
}

/// A broadcast reaches every member of the sender's room, the sender among
/// them, with the text as it was sent; it reaches no session that is not a
/// member of that room, so none of another room.
pub proof fn law_broadcast_stays_in_room(v: LobbyView, room: u128, raw: Seq<char>)
    requires
        v.valid(),
    ensures
        forall|member: u128|
            v.joined(member, room) ==> relayed(v, room, PlainView::Broadcast, raw).contains(
                (member, raw),
            ),
        forall|other: u128, text: Seq<char>|
            relayed(v, room, PlainView::Broadcast, raw).contains((other, text)) ==> v.joined(
                other,
                room,
            ) && text == raw,
{
    let out = relayed(v, room, PlainView::Broadcast, raw);
    let members = v.members(room);
    assert forall|member: u128| v.joined(member, room) implies out.contains((member, raw)) by {
        assert(v.sessions.contains_key(member));
        assert(members.contains(member));
        let i = choose|i: int| 0 <= i < members.len() && members[i] == member;
        assert(out[i] == (member, raw));
    }
    assert forall|other: u128, text: Seq<char>| out.contains((other, text)) implies v.joined(
        other,
        room,
    ) && text == raw by {
        let i = choose|i: int| 0 <= i < out.len() && out[i] == (other, text);
        assert(v.joined(v.rooms[room][i], room));
    }
}

/// A whisper that names a live session reaches that session, with what the
/// whisper says, and nobody else: it is not relayed to the room.
pub proof fn law_whisper_reaches_target_only(
    v: LobbyView,
    room: u128,
    raw: Seq<char>,
    target: u128,
)
    requires
        is_whisper(raw),
        whisper_target(raw) == Some(target),
        v.live(target),
    ensures
        relayed(v, room, plain_of(raw), raw) == seq![(target, whisper_body(raw))],
        forall|other: u128, text: Seq<char>|
            relayed(v, room, plain_of(raw), raw).contains((other, text)) ==> other == target,
{
    let out = relayed(v, room, plain_of(raw), raw);
    assert forall|other: u128, text: Seq<char>| out.contains((other, text)) implies other
        == target by {
        let i = choose|i: int| 0 <= i < out.len() && out[i] == (other, text);
    }
}

/// A whisper that names no live session reaches nobody.
pub proof fn law_whisper_to_nobody_is_dropped(v: LobbyView, room: u128, raw: Seq<char>)
    requires
        is_whisper(raw),
        match whisper_target(raw) {
            Some(target) => !v.live(target),
            None => true,
        },
    ensures
        relayed(v, room, plain_of(raw), raw).len() == 0,
{
}

/// Handling a frame of a session changes nothing of any other session, and
/// nothing of the rooms; of the session itself it changes neither the room
/// nor the directory.
pub proof fn lemma_reacted_touches_one(
    v: LobbyView,
    id: u128,
    envelope: EnvelopeView,
    raw: Seq<char>,
    stamp: Seq<char>,
)
    requires
        v.live(id),
    ensures
        reacted(v, id, envelope, raw, stamp).0.rooms == v.rooms,
        reacted(v, id, envelope, raw, stamp).0.sessions.dom() == v.sessions.dom(),
        forall|other: u128|
            other != id && v.live(other) ==> #[trigger] reacted(
                v,
                id,
                envelope,
                raw,
                stamp,
            ).0.sessions[other] == v.sessions[other],
        reacted(v, id, envelope, raw, stamp).0.sessions[id].room == v.sessions[id].room,
        reacted(v, id, envelope, raw, stamp).0.sessions[id].directory == v.sessions[id].directory,
{
    let w = reacted(v, id, envelope, raw, stamp).0;
    assert(w.sessions.dom() =~= v.sessions.dom());
}

/// Working off the line of a session changes nothing of any other session,
/// and nothing of the rooms; of the session itself it changes neither the
/// room nor the directory.
pub proof fn lemma_drained_touches_one(v: LobbyView, id: u128, stamp: Seq<char>)
    ensures
        drained(v, id, stamp).0.rooms == v.rooms,
        drained(v, id, stamp).0.sessions.dom() == v.sessions.dom(),
        forall|other: u128|
            other != id && v.live(other) ==> #[trigger] drained(v, id, stamp).0.sessions[other]
                == v.sessions[other],
        v.live(id) ==> drained(v, id, stamp).0.sessions[id].room == v.sessions[id].room,
        v.live(id) ==> drained(v, id, stamp).0.sessions[id].directory
            == v.sessions[id].directory,
    decreases v.waiting(id),
{
    if !(!v.live(id) || v.sessions[id].busy || v.sessions[id].backlog.len() == 0) {
        let raw = v.sessions[id].backlog[0];
        let popped = v.unqueued(id);
        assert(popped.sessions.dom() =~= v.sessions.dom());
        let first = reacted(popped, id, decoded(raw), raw, stamp);
        lemma_reacted_touches_one(popped, id, decoded(raw), raw, stamp);
        lemma_drained_touches_one(first.0, id, stamp);
        assert forall|other: u128| other != id && v.live(other) implies #[trigger] drained(
            v,
            id,
            stamp,
        ).0.sessions[other] == v.sessions[other] by {
            assert(popped.sessions[other] == v.sessions[other]);
            assert(popped.live(other));
            assert(first.0.sessions[other] == popped.sessions[other]);
            assert(first.0.live(other));
        }
    }
}

/// A session that changes its directory changes no other session's. When
/// the `cd` of one session is completed, every other session is as it was,
/// in the directory it was in, and its next command is planned there.
pub proof fn law_directories_are_separate(
    v: LobbyView,
    mover: u128,
    command: Seq<char>,
    resolution: Result<Seq<char>, Seq<char>>,
    stamp: Seq<char>,
    other: u128,
    next: Seq<char>,
)
    requires
        v.live(mover),
        v.live(other),
        mover != other,
    ensures
        cd_completed(v, mover, command, resolution, stamp).0.sessions[other] == v.sessions[other],
        planned(
            cd_completed(v, mover, command, resolution, stamp).0.sessions[other].directory,
            next,
            v.home,
            v.windows,
            v.timeout_secs,
        ) == planned(v.sessions[other].directory, next, v.home, v.windows, v.timeout_secs),
        cd_completed(v, mover, command, resolution, stamp).0.sessions[mover].directory
            == directory_after(v.sessions[mover].directory, resolution),
{
    let directory = directory_after(v.sessions[mover].directory, resolution);
    let idle = v.moved(mover, directory).occupied(mover, false);
    lemma_drained_touches_one(idle, mover, stamp);
    assert(idle.live(other));
    assert(idle.sessions[other] == v.sessions[other]);
    assert(drained(idle, mover, stamp).0.sessions[other] == idle.sessions[other]);
}

/// `cd .` leaves a session where it is. Where the session's directory
/// resolves to itself or not at all, the session is in that directory after
/// the command is completed, and the result, which is the first frame
/// delivered, names that directory.
pub proof fn law_cd_dot_keeps_directory(
    v: LobbyView,
    id: u128,
    command: Seq<char>,
    resolution: Result<Seq<char>, Seq<char>>,
    stamp: Seq<char>,
)
    requires
        v.live(id),
        is_cd(command),
        cd_argument(command) == seq!['.'],
        resolution is Ok ==> resolution->Ok_0 == v.sessions[id].directory,
    ensures
        planned(v.sessions[id].directory, command, v.home, v.windows, v.timeout_secs) == (
        TaskView::Resolve { command: command, target: v.sessions[id].directory }),
        cd_completed(v, id, command, resolution, stamp).0.sessions[id].directory
            == v.sessions[id].directory,
        cd_completed(v, id, command, resolution, stamp).1.deliveries[0] == (
            id,
            cd_result(command, v.sessions[id].directory, resolution).frame(),
        ),
        cd_result(command, v.sessions[id].directory, resolution).current_directory
            == v.sessions[id].directory,
{
    let cwd = v.sessions[id].directory;
    law_cd_dot_stays(cwd, command, v.home, v.windows, v.timeout_secs, resolution);
    lemma_drained_touches_one(v.moved(id, cwd).occupied(id, false), id, stamp);
}

/// `cd` without an argument takes a session home. Where the home directory
/// resolves to itself, the session is there after the command is completed,
/// and the result, which is the first frame delivered, names that directory
/// with exit code 0.
pub proof fn law_cd_alone_reaches_home(
    v: LobbyView,
    id: u128,
    command: Seq<char>,
    stamp: Seq<char>,
)
    requires
        v.live(id),
        is_cd(command),
        cd_argument(command).len() == 0,
    ensures
        planned(v.sessions[id].directory, command, v.home, v.windows, v.timeout_secs) == (
        TaskView::Resolve { command: command, target: v.home }),
        cd_completed(v, id, command, Ok(v.home), stamp).0.sessions[id].directory == v.home,
        cd_completed(v, id, command, Ok(v.home), stamp).1.deliveries[0] == (
            id,
            cd_result(command, v.sessions[id].directory, Ok(v.home)).frame(),
        ),
        cd_result(command, v.sessions[id].directory, Ok(v.home)).current_directory == v.home,
        cd_result(command, v.sessions[id].directory, Ok(v.home)).exit_code == 0,
{
    law_cd_alone_goes_home(v.sessions[id].directory, command, v.home, v.windows, v.timeout_secs);
    lemma_drained_touches_one(v.moved(id, v.home).occupied(id, false), id, stamp);
}

/// `cd ..` takes a session to the parent of its directory, and leaves it
/// where it is in a root, which has no parent. Where the path asked for
/// resolves to itself, the session is there after the command is completed,
/// and the result, which is the first frame delivered, names that directory.
pub proof fn law_cd_up_reaches_parent(
    v: LobbyView,
    id: u128,
    command: Seq<char>,
    stamp: Seq<char>,
)
    requires
        v.live(id),
        is_cd(command),
        cd_argument(command) == seq!['.', '.'],
    ensures
        ({
            let cwd = v.sessions[id].directory;
            let target = match parent_path(cwd, v.windows) {
                Some(parent) => parent,
                None => cwd,
            };
            &&& planned(cwd, command, v.home, v.windows, v.timeout_secs) == (TaskView::Resolve {
                command: command,
                target: target,
            })
            &&& cd_completed(v, id, command, Ok(target), stamp).0.sessions[id].directory == target
            &&& cd_completed(v, id, command, Ok(target), stamp).1.deliveries[0] == (
                id,
                cd_result(command, cwd, Ok(target)).frame(),
            )
            &&& cd_result(command, cwd, Ok(target)).current_directory == target
            &&& cwd.len() > 0 && is_separator(cwd.last(), v.windows) ==> target == cwd
        }),
{
    let cwd = v.sessions[id].directory;
    let target = match parent_path(cwd, v.windows) {
        Some(parent) => parent,
        None => cwd,
    };
    law_cd_up_goes_to_parent(cwd, command, v.home, v.windows, v.timeout_secs);
    lemma_drained_touches_one(v.moved(id, target).occupied(id, false), id, stamp);
}

/// A command that is under way holds up no other session. While one session
/// is busy, a broadcast of an idle session of the same room is relayed at
/// once, to every member of the room.
pub proof fn law_busy_session_holds_up_no_other(
    v: LobbyView,
    busy: u128,
    sender: u128,
    room: u128,
    raw: Seq<char>,
    stamp: Seq<char>,
)
    requires
        v.valid(),
        v.live(busy),
        v.sessions[busy].busy,
        v.joined(sender, room),
        !v.sessions[sender].busy,
        decoded(raw) is Legacy,
        !is_whisper(raw),
    ensures
        received(v, sender, raw, stamp).0 == v,
        received(v, sender, raw, stamp).1.deliveries == to_each(v.members(room), raw),
        received(v, sender, raw, stamp).1.task.is_none(),
{
}

/// The frames of one session are answered in their order. A frame that
/// arrives while a command of its session is under way is not answered: it
/// joins the end of the session's line. When the command is completed, its
/// result is the first frame that is delivered, before any answer to a frame
/// of the line.
pub proof fn law_frames_wait_for_the_result(
    v: LobbyView,
    id: u128,
    raw: Seq<char>,
    directory: Seq<char>,
    result: Seq<char>,
    stamp: Seq<char>,
)
    requires
        v.live(id),
        v.sessions[id].busy,
    ensures
        received(v, id, raw, stamp).1 == nothing(),
        received(v, id, raw, stamp).0.sessions[id].backlog == v.sessions[id].backlog.push(
            raw,
        ),
        completed(v, id, directory, result, stamp).1.deliveries.len() > 0,
        completed(v, id, directory, result, stamp).1.deliveries[0] == (id, result),
{
}

/// Serving the end of a live session: the session is live no more and its
/// room holds it no more; the room is gone where the session was its only
/// member, and then nobody is told; else every member that stays is told
/// once, and nobody else; no task is asked for; the other rooms and sessions
/// are as they were.
pub proof fn law_handle_disconnect(v: LobbyView, id: u128, stamp: Seq<char>)
    requires
        v.valid(),
        v.live(id),
    ensures
        ({
            let room = v.sessions[id].room;
            let served = handled(v, RequestView::Disconnect { id: id }, stamp);
            &&& served.0 == v.disconnected(id)
            &&& served.0.valid()
            &&& !served.0.live(id)
            &&& served.0.members(room) == without(v.members(room), id)
            &&& !served.0.members(room).contains(id)
            &&& v.members(room) == seq![id] ==> !served.0.rooms.contains_key(room)
                && served.1.deliveries.len() == 0
            &&& served.1.task.is_none()
            &&& served.1.deliveries == to_each(without(v.members(room), id), farewell_text(id))
            &&& forall|member: u128|
                member != id && v.joined(member, room) ==> served.1.deliveries.contains(
                    (member, farewell_text(id)),
                ) && served.0.joined(member, room)
            &&& forall|other: u128, text: Seq<char>|
                served.1.deliveries.contains((other, text)) ==> other != id && v.joined(
                    other,
                    room,
                )
            &&& forall|other: u128|
                other != room ==> served.0.members(other) == v.members(other)
            &&& forall|other: u128|
                other != id && v.live(other) ==> served.0.live(other)
                    && served.0.sessions[other] == v.sessions[other]
        }),
{
    let room = v.sessions[id].room;
    lemma_disconnected_valid(v, id);
    law_disconnect_leaves_room(v, id);
    law_disconnect_tells_the_room(v, id);
    lemma_without(v.members(room), id);
    assert(v.rooms.contains_key(room));
}

/// Serving a broadcast of an idle session: every member of the sender's
/// room, the sender among them, gets the frame as it was sent, once; nobody
/// else gets anything, so no session of another room; nothing changes and no
/// task is asked for.
pub proof fn law_handle_broadcast(v: LobbyView, sender: u128, raw: Seq<char>, stamp: Seq<char>)
    requires
        v.valid(),
        v.live(sender),
        !v.sessions[sender].busy,
        decoded(raw) is Legacy,
        !is_whisper(raw),
    ensures
        ({
            let room = v.sessions[sender].room;
            let served = handled(v, RequestView::Message { id: sender, raw: raw }, stamp);
            &&& served.0 == v
            &&& served.1.task.is_none()
            &&& served.1.deliveries == to_each(v.members(room), raw)
            &&& forall|member: u128|
                v.joined(member, room) ==> served.1.deliveries.contains((member, raw))
            &&& forall|other: u128, text: Seq<char>|
                served.1.deliveries.contains((other, text)) ==> v.joined(other, room) && text
                    == raw
            &&& forall|i: int, j: int|
                0 <= i < served.1.deliveries.len() && 0 <= j < served.1.deliveries.len() && i
                    != j ==> served.1.deliveries[i].0 != served.1.deliveries[j].0
        }),
{
    let room = v.sessions[sender].room;
    law_broadcast_stays_in_room(v, room, raw);
    if v.rooms.contains_key(room) {
        assert(v.rooms[room].no_duplicates());
    }
}

/// Serving a whisper of an idle session that names a live session: that
/// session gets what the whisper says, and nobody else gets anything; the
/// whisper is not relayed to the room; nothing changes and no task is asked
/// for.
pub proof fn law_handle_whisper(
    v: LobbyView,
    sender: u128,
    target: u128,
    raw: Seq<char>,
    stamp: Seq<char>,
)
    requires
        v.live(sender),
        !v.sessions[sender].busy,
        decoded(raw) is Legacy,
        is_whisper(raw),
        whisper_target(raw) == Some(target),
        v.live(target),
    ensures
        ({
            let served = handled(v, RequestView::Message { id: sender, raw: raw }, stamp);
            &&& served.0 == v
            &&& served.1.task.is_none()
            &&& served.1.deliveries == seq![(target, whisper_body(raw))]
            &&& forall|other: u128, text: Seq<char>|
                served.1.deliveries.contains((other, text)) ==> other == target
        }),
{
    law_whisper_reaches_target_only(v, v.sessions[sender].room, raw, target);
}

/// A command that is under way holds up no other session: while one session
/// is busy, the frame of an idle session is handled in the same call, and
/// what is delivered and asked for is what it would be were no command under
/// way.
pub proof fn law_handle_while_another_is_busy(
    v: LobbyView,
    busy: u128,
    sender: u128,
    raw: Seq<char>,
    stamp: Seq<char>,
)
    requires
        v.valid(),
        v.live(busy),
        v.sessions[busy].busy,
        v.live(sender),
        !v.sessions[sender].busy,
    ensures
        handled(v, RequestView::Message { id: sender, raw: raw }, stamp) == reacted(
            v,
            sender,
            decoded(raw),
            raw,
            stamp,
        ),
        handled(v, RequestView::Message { id: sender, raw: raw }, stamp).1 == handled(
            v.occupied(busy, false),
            RequestView::Message { id: sender, raw: raw },
            stamp,
        ).1,
        decoded(raw) is Legacy && !is_whisper(raw) ==> handled(
            v,
            RequestView::Message { id: sender, raw: raw },
            stamp,
        ).1.deliveries == to_each(v.members(v.sessions[sender].room), raw),
{
}

} // verus!
