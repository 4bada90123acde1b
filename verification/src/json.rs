//! The boundary to `serde_json`.
//!
//! The protocol's frames are JSON texts. Reading one is left to `serde_json`;
//! a document that it has read is opaque here and is questioned one member at
//! a time. Each wrapper states what the `serde_json` function that it calls is
//! trusted to do, and the rest of the library is proved from those statements.

use vstd::prelude::*;

verus! {

#[verifier::external_type_specification]
#[verifier::external_body]
pub struct ExValue(serde_json::Value);

#[verifier::external_type_specification]
#[verifier::external_body]
pub struct ExJsonError(serde_json::Error);

/// The document that `serde_json::from_str` reads from a text, or `None` where
/// it rejects the text.
pub uninterp spec fn document_of(text: Seq<char>) -> Option<serde_json::Value>;

/// The member that `serde_json::Value::get` finds under a key: `None` where
/// the document is no object or has no such member.
pub uninterp spec fn member_of(doc: serde_json::Value, key: Seq<char>) -> Option<
    serde_json::Value,
>;

/// The characters that `serde_json::Value::as_str` finds in a document that
/// is a string, or `None` for any other document.
pub uninterp spec fn text_of(doc: serde_json::Value) -> Option<Seq<char>>;

/// The truth value that `serde_json::Value::as_bool` finds in a document that
/// is a boolean, or `None` for any other document.
pub uninterp spec fn flag_of(doc: serde_json::Value) -> Option<bool>;

/// Whether `serde_json::Value::is_null` holds of a document.
pub uninterp spec fn null_doc(doc: serde_json::Value) -> bool;

/// The JSON string literal that `serde_json::to_string` writes for a text:
/// the text between double quotes, with the escapes that JSON asks for.
pub uninterp spec fn quoted(text: Seq<char>) -> Seq<char>;

/// Calls `serde_json::from_str` for a `serde_json::Value`. Trusted: the
/// outcome depends on the text alone, so it is the one that `document_of`
/// names.
#[verifier::external_body]
pub(crate) fn parse_document(text: &str) -> (r: Result<serde_json::Value, serde_json::Error>)
    ensures
        match r {
            Ok(doc) => document_of(text@) == Some(doc),
            Err(_) => document_of(text@) is None,
        },
{
    serde_json::from_str::<serde_json::Value>(text)
}

/// Calls `serde_json::Value::get` with a string key. Trusted: the member that
/// comes back is the one that `member_of` names for this document and key.
#[verifier::external_body]
pub(crate) fn member<'a>(doc: &'a serde_json::Value, key: &str) -> (r: Option<
    &'a serde_json::Value,
>)
    ensures
        match r {
            Some(found) => member_of(*doc, key@) == Some(*found),
            None => member_of(*doc, key@) is None,
        },
{
    doc.get(key)
}

/// Calls `serde_json::Value::as_str`. Trusted: the characters that come back
/// are those that `text_of` names for this document.
#[verifier::external_body]
pub(crate) fn text<'a>(doc: &'a serde_json::Value) -> (r: Option<&'a str>)
    ensures
        match r {
            Some(s) => text_of(*doc) == Some(s@),
            None => text_of(*doc) is None,
        },
{
    doc.as_str()
}

/// Calls `serde_json::Value::as_bool`. Trusted: the result is the one that
/// `flag_of` names for this document.
#[verifier::external_body]
pub(crate) fn flag(doc: &serde_json::Value) -> (r: Option<bool>)
    ensures
        r == flag_of(*doc),
{
    doc.as_bool()
}

/// Calls `serde_json::Value::is_null`. Trusted: the result is the one that
/// `null_doc` names for this document.
#[verifier::external_body]
pub(crate) fn is_null(doc: &serde_json::Value) -> (r: bool)
    ensures
        r == null_doc(*doc),
{
    doc.is_null()
}

/// Calls `serde_json::to_string` on a string slice. Trusted: the literal that
/// comes back depends on the text alone, and is the one that `quoted` names.
/// `serde_json` documents two causes of failure, a `Serialize` impl that gives
/// up and a map with keys that are no strings; a string slice has neither, so
/// the empty text of the second arm is never handed out.
#[verifier::external_body]
pub(crate) fn quote(text: &str) -> (r: String)
    ensures
        r@ == quoted(text@),
{
    match serde_json::to_string(text) {
        Ok(literal) => literal,
        Err(_) => String::new(),
    }
}

/// The characters of a string that may be absent.
pub open spec fn text_view(s: Option<String>) -> Option<Seq<char>> {
    match s {
        Some(s) => Some(s@),
        None => None,
    }
}

/// The characters of the member under `key`, where the document is an object
/// that holds a string there.
pub open spec fn text_at(doc: serde_json::Value, key: Seq<char>) -> Option<Seq<char>> {
    match member_of(doc, key) {
        Some(found) => text_of(found),
        None => None,
    }
}

/// Reads the string member under `key`, if the document has one.
pub fn text_member(doc: &serde_json::Value, key: &str) -> (r: Option<String>)
    ensures
        r is Some == text_at(*doc, key@) is Some,
        r matches Some(s) ==> text_at(*doc, key@) == Some(s@),
{
    match member(doc, key) {
        Some(found) => match text(found) {
            Some(s) => Some(s.to_owned()),
            None => None,
        },
        None => None,
    }
}

} // verus!
