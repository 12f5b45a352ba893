//! Reading JSON documents.
//!
//! Documents are parsed and walked by `serde_json`; this module says what is
//! taken on trust of it. A document is modelled by the texts it holds: for
//! each path of object keys and array positions that ends at a JSON string,
//! the characters of that string.

use vstd::prelude::*;

verus! {

/// One step from a JSON value into it.
pub enum JsonStep {
    /// To the member of an object under this key.
    Key(Seq<char>),
    /// To the element of an array at this position, counted from 0.
    Index(int),
}

/// The texts of a document: what each path to a JSON string ends at.
pub type Texts = Map<Seq<JsonStep>, Seq<char>>;

/// The text at `path`, if the document holds a string there.
pub open spec fn text_at(texts: Texts, path: Seq<JsonStep>) -> Option<Seq<char>> {
    if texts.contains_key(path) {
        Some(texts[path])
    } else {
        None
    }
}

/// The texts of a value that holds no JSON string anywhere.
pub open spec fn no_texts() -> Texts {
    Map::empty()
}

/// The texts of the value that `step` leads to: each path that begins with
/// `step`, named by the rest of it. Empty when `step` leads nowhere.
pub open spec fn below(texts: Texts, step: JsonStep) -> Texts {
    Map::new(
        |rest: Seq<JsonStep>| texts.contains_key(seq![step] + rest),
        |rest: Seq<JsonStep>| texts[seq![step] + rest],
    )
}

/// `serde_json::Value`: a parsed JSON document or a part of one. Nothing
/// inside it is seen from here; it is walked by the functions below.
#[verifier::external_type_specification]
#[verifier::external_body]
pub struct ExValue(serde_json::Value);

/// The texts that a parsed JSON value holds.
pub uninterp spec fn texts_of(value: serde_json::Value) -> Map<Seq<JsonStep>, Seq<char>>;

/// The texts of the document that `bytes` are, or `None` where `bytes` are
/// not one JSON document.
pub uninterp spec fn parsed_texts(bytes: Seq<u8>) -> Option<Map<Seq<JsonStep>, Seq<char>>>;

/// `serde_json::from_slice` to a `serde_json::Value`, its error dropped.
/// Trusted: whether it succeeds and which texts the value then holds depend
/// on the bytes alone.
#[verifier::external_body]
pub(crate) fn parse_document(bytes: &[u8]) -> (r: Option<serde_json::Value>)
    ensures
        match r {
            Some(value) => parsed_texts(bytes@) == Some(texts_of(value)),
            None => parsed_texts(bytes@) is None,
        },
{
    serde_json::from_slice::<serde_json::Value>(bytes).ok()
}

/// `serde_json::Value::get` with a key. Trusted: it finds the member of an
/// object under `key`, so the member holds what `value` holds below that
/// key; it finds nothing where `value` is no object or has no such member,
/// and then `value` holds nothing below that key.
#[verifier::external_body]
pub(crate) fn member<'a>(
    value: &'a serde_json::Value,
    key: &str,
) -> (r: Option<&'a serde_json::Value>)
    ensures
        match r {
            Some(found) => texts_of(*found) == below(texts_of(*value), JsonStep::Key(key@)),
            None => below(texts_of(*value), JsonStep::Key(key@)) == no_texts(),
        },
{
    value.get(key)
}

/// `serde_json::Value::get` with a position. Trusted: it finds the element of
/// an array at `index`, so the element holds what `value` holds below that
/// position; it finds nothing where `value` is no array or is too short, and
/// then `value` holds nothing below that position.
#[verifier::external_body]
pub(crate) fn element<'a>(
    value: &'a serde_json::Value,
    index: usize,
) -> (r: Option<&'a serde_json::Value>)
    ensures
        match r {
            Some(found) => texts_of(*found) == below(texts_of(*value), JsonStep::Index(index as int)),
            None => below(texts_of(*value), JsonStep::Index(index as int)) == no_texts(),
        },
{
    value.get(index)
}

/// `serde_json::Value::as_str`. Trusted: it hands out the characters of a
/// JSON string, which is the text that the value holds at the empty path,
/// and nothing for any other value, which holds no text there.
#[verifier::external_body]
pub(crate) fn as_text<'a>(value: &'a serde_json::Value) -> (r: Option<&'a str>)
    ensures
        match r {
            Some(text) => text_at(texts_of(*value), Seq::empty()) == Some(text@),
            None => text_at(texts_of(*value), Seq::empty()) is None,
        },
{
    value.as_str()
}

/// Nothing is found along a path whose first step leads nowhere.
pub proof fn lemma_below_nothing(texts: Texts, step: JsonStep, rest: Seq<JsonStep>)
    requires
        below(texts, step) == no_texts(),
    ensures
        text_at(texts, seq![step] + rest) is None,
{
    assert(!below(texts, step).contains_key(rest));
}

} // verus!
