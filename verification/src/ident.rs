//! Identifiers of sessions and rooms: 128-bit numbers, written as UUIDs.
//!
//! The `uuid` crate reads identifiers from text and draws new ones. Nothing
//! is proved of it: `parse_uuid` and `random_uuid` state what its source shows.

use vstd::prelude::*;
use vstd::string::StringExecFns;
use crate::text::digit_char;

verus! {

/// The character that writes the hexadecimal digit `d` (0 to 15), in lower
/// case.
pub open spec fn hex_char(d: int) -> char {
    if d < 10 {
        digit_char(d)
    } else if d == 10 {
        'a'
    } else if d == 11 {
        'b'
    } else if d == 12 {
        'c'
    } else if d == 13 {
        'd'
    } else if d == 14 {
        'e'
    } else {
        'f'
    }
}

/// The last `count` hexadecimal digits of `n`, the most significant first.
pub open spec fn hex_digits(n: nat, count: nat) -> Seq<char>
    decreases count,
{
    if count == 0 {
        Seq::empty()
    } else {
        hex_digits(n / 16, (count - 1) as nat).push(hex_char((n % 16) as int))
    }
}

/// The text of an identifier: its 32 hexadecimal digits in lower case, in
/// groups of 8, 4, 4, 4 and 12 with hyphens between them.
pub open spec fn id_text(id: u128) -> Seq<char> {
    let h = hex_digits(id as nat, 32);
    h.subrange(0, 8) + seq!['-'] + h.subrange(8, 12) + seq!['-'] + h.subrange(12, 16) + seq!['-']
        + h.subrange(16, 20) + seq!['-'] + h.subrange(20, 32)
}

/// What `uuid::Uuid::parse_str` makes of a text: the identifier that it
/// writes, in any of the forms that the crate reads, or `None`.
pub uninterp spec fn parsed_id(text: Seq<char>) -> Option<u128>;

/// `uuid::Uuid::parse_str`, with the identifier as a number
/// (`Uuid::as_u128`): `None` where the crate reports an error. What it
/// returns depends on `text` alone.
#[verifier::external_body]
pub(crate) fn parse_uuid(text: &str) -> (r: Option<u128>)
    ensures
        r == parsed_id(text@),
{
    match uuid::Uuid::parse_str(text) {
        Ok(id) => Some(id.as_u128()),
        Err(_) => None,
    }
}

/// `uuid::Uuid::new_v4`, as a number: a random identifier. Nothing is
/// stated of it.
#[verifier::external_body]
pub(crate) fn random_uuid() -> (r: u128) {
    uuid::Uuid::new_v4().as_u128()
}

/// The one-character text that writes the hexadecimal digit `d`.
fn hex_text(d: u128) -> (r: &'static str)
    requires
        d < 16,
    ensures
        r@ == seq![hex_char(d as int)],
{
    proof {
        reveal_strlit("0");
        reveal_strlit("1");
        reveal_strlit("2");
        reveal_strlit("3");
        reveal_strlit("4");
        reveal_strlit("5");
        reveal_strlit("6");
        reveal_strlit("7");
        reveal_strlit("8");
        reveal_strlit("9");
        reveal_strlit("a");
        reveal_strlit("b");
        reveal_strlit("c");
        reveal_strlit("d");
        reveal_strlit("e");
        reveal_strlit("f");
    }
    let r = if d == 0 {
        "0"
    } else if d == 1 {
        "1"
    } else if d == 2 {
        "2"
    } else if d == 3 {
        "3"
    } else if d == 4 {
        "4"
    } else if d == 5 {
        "5"
    } else if d == 6 {
        "6"
    } else if d == 7 {
        "7"
    } else if d == 8 {
        "8"
    } else if d == 9 {
        "9"
    } else if d == 10 {
        "a"
    } else if d == 11 {
        "b"
    } else if d == 12 {
        "c"
    } else if d == 13 {
        "d"
    } else if d == 14 {
        "e"
    } else {
        "f"
    };
    assert(r@ =~= seq![hex_char(d as int)]);
    r
}

/// Appends the last `count` hexadecimal digits of `n` to `out`.
fn push_hex(out: &mut String, n: u128, count: u32)
    ensures
        final(out)@ == old(out)@ + hex_digits(n as nat, count as nat),
    decreases count,
{
    if count > 0 {
        push_hex(out, n / 16, count - 1);
        out.append(hex_text(n % 16));
        assert(final(out)@ =~= old(out)@ + hex_digits(n as nat, count as nat));
    } else {
        assert(old(out)@ + hex_digits(n as nat, 0) =~= old(out)@);
    }
}

/// The digits of a number have the length asked for.
pub proof fn lemma_hex_digits_len(n: nat, count: nat)
    ensures
        hex_digits(n, count).len() == count,
    decreases count,
{
    if count > 0 {
        lemma_hex_digits_len(n / 16, (count - 1) as nat);
    }
}

/// The text of the identifier `id`.
pub fn id_to_text(id: u128) -> (r: String)
    ensures
        r@ == id_text(id),
{
    let mut digits = String::new();
    push_hex(&mut digits, id, 32);
    proof {
        lemma_hex_digits_len(id as nat, 32);
        assert(digits@ =~= hex_digits(id as nat, 32));
        reveal_strlit("-");
    }
    let h = digits.as_str();
    let mut r = h.substring_char(0, 8).to_owned();
    r.append("-");
    r.append(h.substring_char(8, 12));
    r.append("-");
    r.append(h.substring_char(12, 16));
    r.append("-");
    r.append(h.substring_char(16, 20));
    r.append("-");
    r.append(h.substring_char(20, 32));
    assert(r@ =~= id_text(id));
    r
}

} // verus!
