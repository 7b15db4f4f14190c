//! JSON documents as the clients read and write them.
//!
//! Parsing and quoting are `serde_json`'s work. A parsed document is kept as
//! a `serde_json::Value` and described here by the nodes it holds: a map
//! from paths to what stands at each path. The functions that walk a
//! document are verified against that description.

use vstd::prelude::*;

verus! {

/// Declares `serde_json::Value`, a parsed JSON document. Nothing inside it
/// is visible here; what it holds is told by [`json_nodes`].
#[verifier::external_type_specification]
#[verifier::external_body]
pub struct ExJsonValue(serde_json::Value);

/// Declares `serde_json::Error`, the reason why a text is no JSON document.
/// It is only told apart from success.
#[verifier::external_type_specification]
#[verifier::external_body]
pub struct ExJsonError(serde_json::Error);

/// One step down into a document: into the member of an object, or into
/// the item of an array.
pub enum JsonStep {
    Key(Seq<char>),
    Item(int),
}

/// What stands at one place of a document. `Natural` is a number that is
/// held as a non-negative integer; `Number` is any other number; `Array`
/// carries the count of its items.
pub enum JsonNode {
    Null,
    Bool(bool),
    Natural(u64),
    Number,
    Text(Seq<char>),
    Array(nat),
    Object,
}

/// The nodes of a document: for every path that leads to a value inside
/// it, what stands there. The empty path leads to the document itself.
pub uninterp spec fn json_nodes(v: serde_json::Value) -> Map<Seq<JsonStep>, JsonNode>;

/// The nodes of the document that `serde_json::from_str` reads from a text,
/// where it accepts the text.
pub uninterp spec fn json_document(text: Seq<char>) -> Option<Map<Seq<JsonStep>, JsonNode>>;

/// The JSON string literal that `serde_json::to_string` writes for a text:
/// the text between double quotes, with the escapes that JSON asks for.
pub uninterp spec fn json_quoted(text: Seq<char>) -> Seq<char>;

/// The part of a document below one step: its paths are those of `doc` that
/// begin with `step`, with that step removed.
pub open spec fn json_below(doc: Map<Seq<JsonStep>, JsonNode>, step: JsonStep) -> Map<
    Seq<JsonStep>,
    JsonNode,
> {
    Map::new(
        |p: Seq<JsonStep>| doc.contains_key(seq![step] + p),
        |p: Seq<JsonStep>| doc[seq![step] + p],
    )
}

/// What stands at the root of a document: at the empty path.
pub open spec fn root_node(doc: Map<Seq<JsonStep>, JsonNode>) -> JsonNode {
    doc[Seq::empty()]
}

/// A part of a document that holds nothing.
pub open spec fn no_nodes() -> Map<Seq<JsonStep>, JsonNode> {
    Map::empty()
}

/// The path that leads to a member of the document itself.
pub open spec fn member_path(key: Seq<char>) -> Seq<JsonStep> {
    seq![JsonStep::Key(key)]
}

/// The text at a path, where a text stands there.
pub open spec fn text_at(doc: Map<Seq<JsonStep>, JsonNode>, path: Seq<JsonStep>) -> Option<
    Seq<char>,
> {
    if doc.contains_key(path) {
        match doc[path] {
            JsonNode::Text(s) => Some(s),
            _ => None,
        }
    } else {
        None
    }
}

/// The natural number at a path, where one stands there.
pub open spec fn natural_at(doc: Map<Seq<JsonStep>, JsonNode>, path: Seq<JsonStep>) -> Option<
    u64,
> {
    if doc.contains_key(path) {
        match doc[path] {
            JsonNode::Natural(n) => Some(n),
            _ => None,
        }
    } else {
        None
    }
}

/// The number of items of the array at a path, where an array stands there.
pub open spec fn array_at(doc: Map<Seq<JsonStep>, JsonNode>, path: Seq<JsonStep>) -> Option<nat> {
    if doc.contains_key(path) {
        match doc[path] {
            JsonNode::Array(n) => Some(n),
            _ => None,
        }
    } else {
        None
    }
}

/// Calls `serde_json::from_str` for a `Value`. It returns the document that
/// the text denotes or an error; which of the two, and the nodes of the
/// document, depend on the text alone.
#[verifier::external_body]
pub(crate) fn json_parse(text: &str) -> (r: Result<serde_json::Value, serde_json::Error>)
    ensures
        r matches Ok(v) ==> json_document(text@) == Some(json_nodes(v)),
        r is Err ==> json_document(text@) is None,
{
    serde_json::from_str::<serde_json::Value>(text)
}

/// Calls `Value::get` with a key. It returns the member of that name where
/// the value is an object that has one, and `None` otherwise. The nodes of
/// the member are those of the value below the key; where there is no such
/// member, the value holds nothing below the key.
#[verifier::external_body]
pub(crate) fn json_member<'a>(v: &'a serde_json::Value, key: &str) -> (r: Option<
    &'a serde_json::Value,
>)
    ensures
        r matches Some(c) ==> json_nodes(*v).contains_key(member_path(key@)),
        r matches Some(c) ==> json_nodes(*c) == json_below(json_nodes(*v), JsonStep::Key(key@)),
        r is None ==> json_below(json_nodes(*v), JsonStep::Key(key@)) == no_nodes(),
{
    v.get(key)
}

/// Calls `Value::as_str`. It returns the text where the value is a string,
/// and `None` for every other value.
#[verifier::external_body]
pub(crate) fn json_text<'a>(v: &'a serde_json::Value) -> (r: Option<&'a str>)
    ensures
        r matches Some(s) ==> root_node(json_nodes(*v)) == JsonNode::Text(s@),
        r is None ==> !(root_node(json_nodes(*v)) is Text),
{
    v.as_str()
}

/// Calls `Value::as_u64`. It returns the number where the value is a number
/// held as a non-negative integer, and `None` for every other value.
#[verifier::external_body]
pub(crate) fn json_natural(v: &serde_json::Value) -> (r: Option<u64>)
    ensures
        r matches Some(n) ==> root_node(json_nodes(*v)) == JsonNode::Natural(n),
        r is None ==> !(root_node(json_nodes(*v)) is Natural),
{
    v.as_u64()
}

/// Calls `Value::as_array`. It returns the items where the value is an
/// array, and `None` for every other value; the nodes of item `i` are those
/// of the value below step `i`.
#[verifier::external_body]
pub(crate) fn json_items<'a>(v: &'a serde_json::Value) -> (r: Option<&'a Vec<serde_json::Value>>)
    ensures
        r matches Some(items) ==> root_node(json_nodes(*v)) == JsonNode::Array(items@.len()),
        r matches Some(items) ==> forall|i: int|
            0 <= i < items@.len() ==> #[trigger] json_nodes(items@[i]) == json_below(
                json_nodes(*v),
                JsonStep::Item(i),
            ),
        r is None ==> !(root_node(json_nodes(*v)) is Array),
{
    v.as_array()
}

/// Calls `serde_json::to_string` on a text, which writes a JSON string
/// literal into memory; writing a text into memory has no way to fail.
#[verifier::external_body]
pub(crate) fn json_quote(text: &str) -> (r: String)
    ensures
        r@ == json_quoted(text@),
{
    serde_json::to_string(text).unwrap_or_default()
}

/// Reading below a step and then along a path is reading along the longer
/// path.
pub proof fn lemma_below_path(doc: Map<Seq<JsonStep>, JsonNode>, step: JsonStep, path: Seq<JsonStep>)
    ensures
        text_at(json_below(doc, step), path) == text_at(doc, seq![step] + path),
        natural_at(json_below(doc, step), path) == natural_at(doc, seq![step] + path),
        array_at(json_below(doc, step), path) == array_at(doc, seq![step] + path),
        json_below(doc, step).contains_key(path) == doc.contains_key(seq![step] + path),
{
}

/// Where a document holds nothing below a step, no path through that step
/// leads anywhere.
pub proof fn lemma_nothing_below(
    doc: Map<Seq<JsonStep>, JsonNode>,
    step: JsonStep,
    path: Seq<JsonStep>,
)
    requires
        json_below(doc, step) == no_nodes(),
    ensures
        !doc.contains_key(seq![step] + path),
        text_at(doc, seq![step] + path) is None,
        natural_at(doc, seq![step] + path) is None,
        array_at(doc, seq![step] + path) is None,
{
    assert(!json_below(doc, step).contains_key(path));
}

/// The text of a member of the document, where the document is an object
/// and the member a string.
pub fn member_text(v: &serde_json::Value, key: &str) -> (r: Option<String>)
    ensures
        r.deep_view() == text_at(json_nodes(*v), member_path(key@)),
{
    match json_member(v, key) {
        Some(c) => {
            proof {
                lemma_below_path(json_nodes(*v), JsonStep::Key(key@), Seq::empty());
                assert(seq![JsonStep::Key(key@)] + Seq::<JsonStep>::empty() =~= member_path(key@));
            }
            match json_text(c) {
                Some(s) => Some(s.to_owned()),
                None => None,
            }
        },
        None => {
            proof {
                lemma_nothing_below(json_nodes(*v), JsonStep::Key(key@), Seq::empty());
                assert(seq![JsonStep::Key(key@)] + Seq::<JsonStep>::empty() =~= member_path(key@));
            }
            None
        },
    }
}

/// The natural number that a member of the document holds, where the
/// document is an object and the member such a number.
pub fn member_natural(v: &serde_json::Value, key: &str) -> (r: Option<u64>)
    ensures
        r == natural_at(json_nodes(*v), member_path(key@)),
{
    match json_member(v, key) {
        Some(c) => {
            proof {
                lemma_below_path(json_nodes(*v), JsonStep::Key(key@), Seq::empty());
                assert(seq![JsonStep::Key(key@)] + Seq::<JsonStep>::empty() =~= member_path(key@));
            }
            json_natural(c)
        },
        None => {
            proof {
                lemma_nothing_below(json_nodes(*v), JsonStep::Key(key@), Seq::empty());
                assert(seq![JsonStep::Key(key@)] + Seq::<JsonStep>::empty() =~= member_path(key@));
            }
            None
        },
    }
}

} // verus!
