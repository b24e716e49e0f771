//! Event bodies and contexts from JSON documents.

use crate::message::{Event, EventKind};
use vstd::prelude::*;

verus! {

/// `serde_json::Value`, a JSON document. Nothing here looks inside it.
#[verifier::external_type_specification]
#[verifier::external_body]
pub struct ExJsonValue(serde_json::Value);

/// What `serde_json::to_vec` gives for a document: its compact JSON text,
/// or nothing where the call fails. Both depend on the document alone.
pub uninterp spec fn json_text(value: serde_json::Value) -> Option<Seq<u8>>;

/// `serde_json::to_vec` on a document. The call writes into memory and
/// reads nothing but the document, so that what it gives is `json_text` of
/// the document: the bytes where it succeeds, nothing where it fails. On
/// which documents it succeeds is not claimed, and the JSON library's error
/// is not kept.
#[verifier::external_body]
fn to_vec(value: &serde_json::Value) -> (result: Option<Vec<u8>>)
    ensures
        match json_text(*value) {
            Some(text) => result matches Some(bytes) && bytes@ == text,
            None => result is None,
        },
{
    serde_json::to_vec(value).ok()
}

impl Event {
    /// Makes an event of the given kind whose body is the text of `value`.
    /// There is an event exactly where the JSON library writes the
    /// document.
    pub fn from_json(kind: EventKind, value: &serde_json::Value) -> (event: Option<Event>)
        ensures
            match json_text(*value) {
                Some(text) => event matches Some(made) && made@.kind == kind && made@.body == text,
                None => event is None,
            },
    {
        match to_vec(value) {
            Some(bytes) => Some(Event::new(kind, bytes)),
            None => None,
        }
    }
}

/// The text of `value` as the context of a batch. There is a context
/// exactly where the JSON library writes the document.
pub fn context_from_json(value: &serde_json::Value) -> (context: Option<Vec<u8>>)
    ensures
        match json_text(*value) {
            Some(text) => context matches Some(bytes) && bytes@ == text,
            None => context is None,
        },
{
    to_vec(value)
}

} // verus!
