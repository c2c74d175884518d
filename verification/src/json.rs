//! Trusted boundary to the JSON codec.
//!
//! Message bodies are decoded by `serde_json`, and the decoded document is
//! carried through the pipeline as an opaque `serde_json::Value`: the mapper
//! attaches identity and labels around it but never inspects or rewrites the
//! document itself. The two uninterpreted names below tie the opaque document
//! to the bytes it was decoded from, so that contracts can state that the
//! document is handed on exactly as decoded.

use vstd::prelude::*;

verus! {

#[verifier::external_type_specification]
#[verifier::external_body]
pub struct ExValue(serde_json::Value);

#[verifier::external_type_specification]
#[verifier::external_body]
pub struct ExJsonError(serde_json::Error);

/// What `serde_json::from_slice` makes of a byte sequence: `None` when the
/// bytes are not a well-formed JSON document, otherwise the decoded document,
/// abstracted as its canonical text. Decoding depends on the bytes alone.
pub uninterp spec fn json_parse(bytes: Seq<u8>) -> Option<Seq<char>>;

/// The document a `serde_json::Value` holds, abstracted as its canonical
/// text; two values hold the same document exactly when their contents agree.
pub uninterp spec fn doc_of(v: serde_json::Value) -> Seq<char>;

/// Relies on `serde_json::from_slice::<Value>`: strict decoding of a byte
/// slice as one JSON document; it succeeds exactly on well-formed input, and
/// the decoded document is a function of the bytes alone.
#[verifier::external_body]
pub(crate) fn decode_json(payload: &[u8]) -> (r: Result<serde_json::Value, serde_json::Error>)
    ensures
        r is Ok <==> json_parse(payload@) is Some,
        r matches Ok(v) ==> doc_of(v) == json_parse(payload@).unwrap(),
{
    serde_json::from_slice(payload)
}

/// Relies on `serde_json::Error`'s `Display` implementation for a
/// human-readable description of a decode failure; nothing is assumed of the
/// text.
#[verifier::external_body]
pub(crate) fn decode_error_text(e: &serde_json::Error) -> String {
    e.to_string()
}

} // verus!
