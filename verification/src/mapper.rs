//! Payload mapper: decodes a message body and merges it with routing
//! metadata into a normalized graph-change record.
//!
//! Decoding is strict: a malformed body is the mapper's one failure mode,
//! reported as [`MappingError::DecodeFailed`] with the offending topic and a
//! truncated diagnostic of the payload. Routing itself never fails, and on a
//! decode failure no record is constructed, even partially.

use vstd::prelude::*;
use crate::json::decode_error_text;
use crate::json::decode_json;
use crate::json::doc_of;
use crate::json::json_parse;
use crate::router::entity_id_spec;
use crate::router::labels_spec;
use crate::router::route;

verus! {

/// The topic pattern the connector subscribes with; the router's label table
/// is keyed by it.
pub const TOPIC_PATTERN: &'static str = "lfx/drasi/sensors/#";

/// How many payload bytes a decode-failure diagnostic retains at most.
pub const DIAGNOSTIC_LIMIT: usize = 64;

/// One normalized entity observation, handed to the emission sink and owned
/// by the downstream change-processing pipeline from then on.
#[derive(Debug)]
pub struct GraphChangeRecord {
    /// Logical identity of the observed entity.
    pub id: String,
    /// Labels of the entity, in insertion order, duplicates permitted.
    pub labels: Vec<String>,
    /// The decoded message body, exactly as decoded; the mapper never
    /// inspects or rewrites it.
    pub properties: serde_json::Value,
}

/// Mathematical model of [`GraphChangeRecord`]; the properties document is
/// abstracted as its canonical text.
pub struct RecordView {
    pub id: Seq<char>,
    pub labels: Seq<Seq<char>>,
    pub properties: Seq<char>,
}

impl View for GraphChangeRecord {
    type V = RecordView;

    open spec fn view(&self) -> RecordView {
        RecordView {
            id: self.id@,
            labels: self.labels.deep_view(),
            properties: doc_of(self.properties),
        }
    }
}

/// The mapper's one failure mode: the message body is not a well-formed JSON
/// document. It carries the offending topic and a truncated diagnostic of the
/// payload; the message itself is dropped and never partially emitted.
#[derive(Debug)]
pub enum MappingError {
    DecodeFailed { topic: String, payload_prefix: Vec<u8>, cause: String },
}

/// The payload bytes a decode-failure diagnostic retains: the whole payload,
/// truncated to [`DIAGNOSTIC_LIMIT`] bytes.
pub open spec fn diagnostic_prefix(payload: Seq<u8>) -> Seq<u8> {
    if payload.len() <= DIAGNOSTIC_LIMIT {
        payload
    } else {
        payload.take(DIAGNOSTIC_LIMIT as int)
    }
}

/// The record mapping yields for a topic and a payload whose bytes decode:
/// identity and labels from the router, properties exactly the decoded
/// document.
pub open spec fn record_spec(topic: Seq<char>, payload: Seq<u8>) -> RecordView {
    RecordView {
        id: entity_id_spec(topic),
        labels: labels_spec(),
        properties: json_parse(payload).unwrap(),
    }
}

/// Mapping preserves the decoded document exactly: for any payload that
/// decodes as a well-formed document, the mapped record carries that document
/// as its properties — no field added, removed, or coerced — beside the
/// identity and labels the router derives from the topic.
pub proof fn lemma_mapping_preserves_document(topic: Seq<char>, payload: Seq<u8>)
    requires
        json_parse(payload) is Some,
    ensures
        record_spec(topic, payload).properties == json_parse(payload).unwrap(),
        record_spec(topic, payload).id == entity_id_spec(topic),
        record_spec(topic, payload).labels == labels_spec(),
{
}

/// Copy the first at-most-[`DIAGNOSTIC_LIMIT`] bytes of `payload`.
fn prefix_bytes(payload: &[u8]) -> (r: Vec<u8>)
    ensures
        r@ == diagnostic_prefix(payload@),
{
    let limit: usize = if payload.len() <= DIAGNOSTIC_LIMIT {
        payload.len()
    } else {
        DIAGNOSTIC_LIMIT
    };
    let mut out: Vec<u8> = Vec::new();
    let mut i: usize = 0;
    while i < limit
        invariant
            0 <= i <= limit <= payload@.len(),
            out@ == payload@.take(i as int),
        decreases limit - i,
    {
        out.push(payload[i]);
        proof {
            assert(out@ =~= payload@.take(i + 1));
        }
        i = i + 1;
    }
    proof {
        assert(out@ =~= diagnostic_prefix(payload@));
    }
    out
}

/// Map one message to a graph-change record: decode `payload` strictly as a
/// JSON document, route `topic` for identity and labels, and combine the two.
/// Succeeds exactly when the payload is a well-formed document; on failure
/// the error carries the topic and a truncated payload diagnostic, and no
/// record is constructed.
pub fn map_message(topic: &str, payload: &[u8]) -> (r: Result<GraphChangeRecord, MappingError>)
    ensures
        r is Ok <==> json_parse(payload@) is Some,
        r matches Ok(rec) ==> rec@ == record_spec(topic@, payload@),
        r matches Err(e) ==> (e matches MappingError::DecodeFailed {
            topic: t,
            payload_prefix: p,
            cause: _,
        } && t@ == topic@ && p@ == diagnostic_prefix(payload@)),
{
    match decode_json(payload) {
        Ok(doc) => {
            let meta = route(topic, TOPIC_PATTERN);
            Ok(
                GraphChangeRecord {
                    id: meta.entity_id,
                    labels: meta.labels,
                    properties: doc,
                },
            )
        },
        Err(e) => {
            let cause = decode_error_text(&e);
            Err(
                MappingError::DecodeFailed {
                    topic: topic.to_owned(),
                    payload_prefix: prefix_bytes(payload),
                    cause,
                },
            )
        },
    }
}

} // verus!
