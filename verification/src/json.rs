//! JSON documents, read and written by `serde_json`.
//!
//! Nothing here is proved of `serde_json`: each item below states what the
//! crate's source shows of one of its functions, and the rest of the library
//! is proved from these statements.

use vstd::prelude::*;

verus! {

/// `serde_json::Value`, a parsed JSON document. Nothing inside it is visible
/// here; `strings_of` names what this library reads of it.
#[verifier::external_type_specification]
#[verifier::external_body]
pub struct ExValue(serde_json::Value);

/// The strings that a document holds, each under the path of object keys
/// that leads to it from the root: a document that is itself a string holds
/// it under the empty path, an object holds under `k` followed by `p` what
/// its member `k` holds under `p`, and any other document holds none.
pub uninterp spec fn strings_of(document: serde_json::Value) -> Map<Seq<Seq<char>>, Seq<char>>;

/// What `serde_json::from_str` makes of a text: `None` where it is not one
/// JSON document, else the strings that the document holds, as `strings_of`
/// gives them.
pub uninterp spec fn parsed_strings(text: Seq<char>) -> Option<Map<Seq<Seq<char>>, Seq<char>>>;

/// The text that `serde_json` writes for a JSON string holding `text`: the
/// characters between double quotes, escaped where JSON asks for it.
pub uninterp spec fn quoted(text: Seq<char>) -> Seq<char>;

/// The strings found under `key` in `strings`, each under the rest of its
/// path.
pub open spec fn below(strings: Map<Seq<Seq<char>>, Seq<char>>, key: Seq<char>) -> Map<
    Seq<Seq<char>>,
    Seq<char>,
> {
    Map::new(
        |path: Seq<Seq<char>>| strings.contains_key(seq![key] + path),
        |path: Seq<Seq<char>>| strings[seq![key] + path],
    )
}

/// The string found at the root of `strings`, if there is one.
pub open spec fn root_string(strings: Map<Seq<Seq<char>>, Seq<char>>) -> Option<Seq<char>> {
    if strings.contains_key(Seq::empty()) {
        Some(strings[Seq::empty()])
    } else {
        None
    }
}

/// `serde_json::from_str` at the type `Value`: the document that `text`
/// holds, or `None` where the crate reports an error. What it returns
/// depends on `text` alone.
#[verifier::external_body]
fn parse(text: &str) -> (r: Option<serde_json::Value>)
    ensures
        match r {
            Some(document) => parsed_strings(text@) == Some(strings_of(document)),
            None => parsed_strings(text@).is_none(),
        },
{
    serde_json::from_str::<serde_json::Value>(text).ok()
}

/// Indexing a `serde_json::Value` by a string key: the member of that name
/// where the document is an object that has one, else the null document,
/// which holds no string.
#[verifier::external_body]
fn member<'a>(document: &'a serde_json::Value, key: &str) -> (r: &'a serde_json::Value)
    ensures
        strings_of(*r) == below(strings_of(*document), key@),
{
    &document[key]
}

/// `serde_json::Value::as_str`: the string that the document is, where it is
/// one.
#[verifier::external_body]
fn as_text(document: &serde_json::Value) -> (r: Option<String>)
    ensures
        match r {
            Some(s) => root_string(strings_of(*document)) == Some(s@),
            None => root_string(strings_of(*document)).is_none(),
        },
{
    document.as_str().map(str::to_owned)
}

/// `to_string` of a `serde_json::Value` that is a string: the JSON text of
/// that string. What it returns depends on `text` alone.
#[verifier::external_body]
pub(crate) fn quote(text: &str) -> (r: String)
    ensures
        r@ == quoted(text@),
{
    serde_json::Value::from(text).to_string()
}

/// What a JSON text says where this library looks: the string under the key
/// `type`, and the string under `command` in the member `payload`. Each is
/// `None` where the text is no JSON document or holds no string there.
pub struct Fields {
    pub kind: Option<String>,
    pub command: Option<String>,
}

/// The string that `text` holds under the path `path`, read as a JSON
/// document.
pub open spec fn string_at(text: Seq<char>, path: Seq<Seq<char>>) -> Option<Seq<char>> {
    match parsed_strings(text) {
        Some(strings) => if strings.contains_key(path) {
            Some(strings[path])
        } else {
            None
        },
        None => None,
    }
}

/// The view of an optional text.
pub open spec fn text_of(s: Option<String>) -> Option<Seq<char>> {
    match s {
        Some(t) => Some(t@),
        None => None,
    }
}

/// Reads `text` as a JSON document and takes from it the two strings that
/// the envelope is told by.
pub fn read_fields(text: &str) -> (r: Fields)
    ensures
        text_of(r.kind) == string_at(text@, seq!["type"@]),
        text_of(r.command) == string_at(text@, seq!["payload"@, "command"@]),
{
    match parse(text) {
        None => Fields { kind: None, command: None },
        Some(document) => {
            let kind = as_text(member(&document, "type"));
            let command = as_text(member(member(&document, "payload"), "command"));
            proof {
                assert(seq!["type"@] + Seq::<Seq<char>>::empty() =~= seq!["type"@]);
                assert(seq!["payload"@] + (seq!["command"@] + Seq::<Seq<char>>::empty())
                    =~= seq!["payload"@, "command"@]);
            }
            Fields { kind, command }
        },
    }
}

} // verus!
