//! The older protocol of plain text frames: a whisper to one session, or a
//! broadcast to the room.

use vstd::prelude::*;
use crate::ident::{parse_uuid, parsed_id};
use crate::text::{begins_with, chars_of, starts_with};

verus! {

/// The index of the first space of `s`, or its length where it has none.
pub open spec fn first_space(s: Seq<char>) -> int
    decreases s.len(),
{
    if s.len() == 0 || s[0] == ' ' {
        0
    } else {
        1 + first_space(s.drop_first())
    }
}

/// What follows the first space of `s`, if it has one.
pub open spec fn after_space(s: Seq<char>) -> Option<Seq<char>> {
    if first_space(s) < s.len() {
        Some(s.skip(first_space(s) + 1))
    } else {
        None
    }
}

/// What stands before the first space of `s`: all of it where it has none.
pub open spec fn before_space(s: Seq<char>) -> Seq<char> {
    s.take(first_space(s))
}

/// Whether a plain text frame is a whisper: it begins with `\w`.
pub open spec fn is_whisper(text: Seq<char>) -> bool {
    begins_with(text, "\\w"@)
}

/// The word of a whisper that names its target: what stands between the
/// first space and the second.
pub open spec fn whisper_word(text: Seq<char>) -> Option<Seq<char>> {
    match after_space(text) {
        Some(rest) => Some(before_space(rest)),
        None => None,
    }
}

/// The session that a whisper is for: the identifier that its second word
/// writes, if there is such a word and it writes one.
pub open spec fn whisper_target(text: Seq<char>) -> Option<u128> {
    match whisper_word(text) {
        Some(word) => parsed_id(word),
        None => None,
    }
}

/// What a whisper says: the text after the space that follows its second
/// word, empty where nothing follows.
pub open spec fn whisper_body(text: Seq<char>) -> Seq<char> {
    match after_space(text) {
        Some(rest) => match after_space(rest) {
            Some(body) => body,
            None => Seq::empty(),
        },
        None => Seq::empty(),
    }
}

/// The first space of a text lies at `i`, where no space comes before `i`
/// and `i` holds one or is the end.
pub proof fn lemma_first_space(s: Seq<char>, i: int)
    requires
        0 <= i <= s.len(),
        forall|k: int| 0 <= k < i ==> s[k] != ' ',
        i < s.len() ==> s[i] == ' ',
    ensures
        first_space(s) == i,
    decreases i,
{
    if i > 0 {
        let t = s.drop_first();
        assert forall|k: int| 0 <= k < i - 1 implies t[k] != ' ' by {
            assert(t[k] == s[k + 1]);
        }
        lemma_first_space(t, i - 1);
    }
}

/// Splits `s` at its first space: what stands before it, and what follows
/// it if there is one.
pub fn split_at_space(s: &str) -> (r: (String, Option<String>))
    ensures
        r.0@ == before_space(s@),
        match r.1 {
            Some(rest) => after_space(s@) == Some(rest@),
            None => after_space(s@).is_none(),
        },
{
    let v = chars_of(s);
    let n: usize = v.len();
    let mut i: usize = 0;
    while i < n && v[i] != ' '
        invariant
            i <= n,
            n == v.len(),
            v@ == s@,
            forall|k: int| 0 <= k < i ==> s@[k] != ' ',
        decreases n - i,
    {
        i += 1;
    }
    proof {
        lemma_first_space(s@, i as int);
    }
    let head = s.substring_char(0, i).to_owned();
    if i < n {
        let rest = s.substring_char(i + 1, n).to_owned();
        assert(rest@ =~= s@.skip(i + 1));
        (head, Some(rest))
    } else {
        (head, None)
    }
}

/// A plain text frame, read.
#[derive(Clone, Debug, PartialEq, Eq)]
pub enum Plain {
    /// For the session `target` alone, if the frame names one: `text`.
    Whisper { target: Option<u128>, text: String },
    /// For every session of the sender's room: the frame as it is.
    Broadcast,
}

/// A `Plain` as plain values.
pub enum PlainView {
    Whisper { target: Option<u128>, text: Seq<char> },
    Broadcast,
}

impl View for Plain {
    type V = PlainView;

    open spec fn view(&self) -> PlainView {
        match self {
            Plain::Whisper { target, text } => PlainView::Whisper { target: *target, text: text@ },
            Plain::Broadcast => PlainView::Broadcast,
        }
    }
}

/// What the plain text frame `text` is: a whisper where it begins with `\w`,
/// with the target and the body that it names, and else a broadcast.
pub open spec fn plain_of(text: Seq<char>) -> PlainView {
    if is_whisper(text) {
        PlainView::Whisper { target: whisper_target(text), text: whisper_body(text) }
    } else {
        PlainView::Broadcast
    }
}

impl Plain {
    /// Reads the plain text frame `text`.
    pub fn read(text: &str) -> (r: Plain)
        ensures
            r@ == plain_of(text@),
    {
        if !starts_with(text, "\\w") {
            return Plain::Broadcast;
        }
        let (_, rest) = split_at_space(text);
        match rest {
            None => Plain::Whisper { target: None, text: String::new() },
            Some(rest) => {
                let (word, body) = split_at_space(rest.as_str());
                let target = parse_uuid(word.as_str());
                match body {
                    Some(body) => Plain::Whisper { target, text: body },
                    None => Plain::Whisper { target, text: String::new() },
                }
            },
        }
    }
}

} // verus!
