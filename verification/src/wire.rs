//! Reading the JSON of a streamed reply. The parsing is `serde_json`'s; this
//! module states what the decoder relies on and reads the two fields it needs.

use vstd::prelude::*;
use serde_json::Value;
use crate::model::{ChunkFields, ChunkView};

verus! {

/// `serde_json::Value`, a parsed JSON document. Nothing inside it is visible
/// to the proofs: what it holds is told by `json_strings` and `json_bools`.
#[verifier::external_type_specification]
#[verifier::external_body]
pub struct ExValue(serde_json::Value);

/// `serde_json::Error`, the reason why a text was refused. It is only carried.
#[verifier::external_type_specification]
#[verifier::external_body]
pub struct ExJsonError(serde_json::Error);

/// The strings that a JSON document holds, each under the path of object keys
/// that leads to it from the root. A document that is itself a string holds it
/// under the empty path; nothing inside an array is reached by such a path.
pub uninterp spec fn json_strings(doc: serde_json::Value) -> Map<Seq<Seq<char>>, Seq<char>>;

/// The booleans that a JSON document holds, by the same paths.
pub uninterp spec fn json_bools(doc: serde_json::Value) -> Map<Seq<Seq<char>>, bool>;

/// What `serde_json::from_str` makes of a text: `None` where it refuses the
/// text (one that is not a single JSON value, or that is nested deeper than
/// the parser goes), else the strings and the booleans of the document that
/// the text stands for.
pub uninterp spec fn json_document(text: Seq<char>) -> Option<
    (Map<Seq<Seq<char>>, Seq<char>>, Map<Seq<Seq<char>>, bool>),
>;

/// The part of `held` that lies under the object key `key`, by the paths that
/// lead on from there.
pub open spec fn under_key<V>(held: Map<Seq<Seq<char>>, V>, key: Seq<char>) -> Map<
    Seq<Seq<char>>,
    V,
> {
    Map::new(
        |path: Seq<Seq<char>>| held.contains_key(seq![key] + path),
        |path: Seq<Seq<char>>| held[seq![key] + path],
    )
}

/// Calls `serde_json::from_str` for a `Value`. The contract claims that the
/// outcome depends on the text alone: a text that is refused has no document,
/// and one that is accepted yields a value holding that text's document.
#[verifier::external_body]
fn parse_document(text: &str) -> (parsed: Result<Value, serde_json::Error>)
    ensures
        match parsed {
            Ok(doc) => json_document(text@) == Some((json_strings(doc), json_bools(doc))),
            Err(_) => json_document(text@) is None,
        },
{
    serde_json::from_str::<Value>(text)
}

/// Indexes a `Value` by a string key, as `doc[key]` does: the member under
/// `key` where `doc` is an object that has one, JSON null otherwise. The
/// contract claims that a path leads to a string or a boolean in the result
/// exactly when `key` followed by that path leads to it in `doc`.
#[verifier::external_body]
fn member<'a>(doc: &'a Value, key: &str) -> (found: &'a Value)
    ensures
        json_strings(*found) == under_key(json_strings(*doc), key@),
        json_bools(*found) == under_key(json_bools(*doc), key@),
{
    &doc[key]
}

/// `Value::as_str` gives the string where the value is one, and `None` for
/// every other kind of value.
pub assume_specification[ Value::as_str ](doc: &Value) -> (text: Option<&str>)
    ensures
        match text {
            Some(s) => json_strings(*doc).contains_key(Seq::empty()) && json_strings(
                *doc,
            )[Seq::empty()] == s@,
            None => !json_strings(*doc).contains_key(Seq::empty()),
        },
;

/// `Value::as_bool` gives the boolean where the value is one, and `None` for
/// every other kind of value.
pub assume_specification[ Value::as_bool ](doc: &Value) -> (flag: Option<bool>)
    ensures
        match flag {
            Some(b) => json_bools(*doc).contains_key(Seq::empty()) && json_bools(
                *doc,
            )[Seq::empty()] == b,
            None => !json_bools(*doc).contains_key(Seq::empty()),
        },
;

/// The path to the text of a chunk: `message`, then `content`.
pub open spec fn content_path() -> Seq<Seq<char>> {
    seq!["message"@, "content"@]
}

/// The path to the end-of-reply marker of a chunk.
pub open spec fn done_path() -> Seq<Seq<char>> {
    seq!["done"@]
}

/// The fields of a chunk whose document holds `strings` and `bools`: the text
/// is the string under `message.content`, absent where there is none; the
/// marker is the boolean under `done`, and counts as false where there is none.
pub open spec fn chunk_fields(
    strings: Map<Seq<Seq<char>>, Seq<char>>,
    bools: Map<Seq<Seq<char>>, bool>,
) -> ChunkView {
    ChunkView {
        content: if strings.contains_key(content_path()) {
            Some(strings[content_path()])
        } else {
            None
        },
        done: bools.contains_key(done_path()) && bools[done_path()],
    }
}

/// What a chunk's text says: `None` where the parser refuses it.
pub open spec fn parsed_chunk(text: Seq<char>) -> Option<ChunkView> {
    match json_document(text) {
        Some(doc) => Some(chunk_fields(doc.0, doc.1)),
        None => None,
    }
}

/// Reads the two fields of a chunk out of its parsed document.
fn read_fields(doc: &Value) -> (fields: ChunkFields)
    ensures
        fields@ == chunk_fields(json_strings(*doc), json_bools(*doc)),
{
    let message = member(doc, "message");
    let content = member(message, "content");
    let marker = member(doc, "done");
    assert(seq!["message"@] + (seq!["content"@] + Seq::empty()) =~= content_path());
    let text = match content.as_str() {
        Some(s) => Some(s.to_owned()),
        None => None,
    };
    let done = match marker.as_bool() {
        Some(flag) => flag,
        None => false,
    };
    ChunkFields { content: text, done }
}

/// Parses the text of one chunk and reads its fields. A text that the parser
/// refuses has none.
pub fn parse_chunk(text: &str) -> (fields: Option<ChunkFields>)
    ensures
        match fields {
            Some(f) => parsed_chunk(text@) == Some(f@),
            None => parsed_chunk(text@) is None,
        },
{
    match parse_document(text) {
        Ok(doc) => Some(read_fields(&doc)),
        Err(_) => None,
    }
}

} // verus!
