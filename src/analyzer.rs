//! The analyzer's decisions for each event it receives: whether to ask for
//! enrichment, how the answer changes the event, and the row handed to the
//! store.
use vstd::prelude::*;
use crate::event::{Event, severity_label};
use crate::json::{encode, json_encoding};
use crate::sampler::Severity;
use crate::timestamp::{epoch_seconds, rfc3339_seconds};

verus! {

/// Service recorded with every event the agent stores itself.
pub const SYSTEM_SERVICE: &'static str = "system";

/// One row for the store. `snapshot` is the entity's encoding, followed by
/// the evidence's and, when there is one, the suggestion's.
#[derive(Debug)]
pub struct StorageRow {
    pub event_id: String,
    pub ts: i64,
    pub severity: String,
    pub type_: String,
    pub service_id: String,
    pub snapshot: Vec<u8>,
}

/// The stored snapshot: the encodings laid end to end.
pub open spec fn framed(entity: Seq<u8>, evidence: Seq<u8>, suggestion: Option<Seq<u8>>) -> Seq<
    u8,
> {
    entity + evidence + match suggestion {
        Some(s) => s,
        None => Seq::empty(),
    }
}

/// The bytes held, when there are some.
pub open spec fn view_of(o: Option<Vec<u8>>) -> Option<Seq<u8>> {
    match o {
        Some(v) => Some(v@),
        None => None,
    }
}

/// Enrichment is asked for critical events only, and only when an
/// enrichment service is configured.
pub fn needs_enrichment(event: &Event, configured: bool) -> (r: bool)
    ensures
        r == (event.severity == Severity::Critical && configured),
{
    configured && event.severity == Severity::Critical
}

/// Takes the enrichment answer into the event; after a failed call the
/// event is unchanged.
pub fn apply_enrichment(event: &mut Event, outcome: Result<serde_json::Value, String>)
    ensures
        final(event).event_id == old(event).event_id,
        final(event).ts == old(event).ts,
        final(event).severity == old(event).severity,
        final(event).type_ == old(event).type_,
        final(event).entity == old(event).entity,
        final(event).evidence == old(event).evidence,
        final(event).status == old(event).status,
        final(event).suggestion == match outcome {
            Ok(v) => Some(v),
            Err(_) => old(event).suggestion,
        },
{
    if let Ok(v) = outcome {
        event.suggestion = Some(v);
    }
}

/// Lays the encodings end to end, as the store keeps them.
pub fn frame_snapshot(entity: Vec<u8>, evidence: Vec<u8>, suggestion: Option<Vec<u8>>) -> (r: Vec<
    u8,
>)
    ensures
        r@ == framed(entity@, evidence@, view_of(suggestion)),
{
    let mut out = entity;
    let mut ev = evidence;
    out.append(&mut ev);
    match suggestion {
        Some(s) => {
            let mut s = s;
            out.append(&mut s);
        },
        None => {},
    }
    out
}

/// The row for an event whose time is `ts` epoch seconds and whose payloads
/// are already encoded.
pub fn row_from_parts(
    event: &Event,
    ts: i64,
    entity: Vec<u8>,
    evidence: Vec<u8>,
    suggestion: Option<Vec<u8>>,
) -> (r: StorageRow)
    ensures
        r.event_id@ == event.event_id@,
        r.ts == ts,
        r.severity@ == severity_label(event.severity),
        r.type_@ == event.type_@,
        r.service_id@ == SYSTEM_SERVICE@,
        r.snapshot@ == framed(entity@, evidence@, view_of(suggestion)),
{
    StorageRow {
        event_id: event.event_id.clone(),
        ts,
        severity: event.severity.label(),
        type_: event.type_.clone(),
        service_id: SYSTEM_SERVICE.to_string(),
        snapshot: frame_snapshot(entity, evidence, suggestion),
    }
}

/// The encoding of the suggestion, when there is one: `Some(None)` means a
/// suggestion that could not be encoded.
pub open spec fn suggestion_encoding(s: Option<serde_json::Value>) -> Option<Option<Seq<u8>>> {
    match s {
        Some(v) => Some(json_encoding(v)),
        None => None,
    }
}

/// Whether an event can be stored: its time parses and its payloads encode.
pub open spec fn storable(event: &Event) -> bool {
    &&& rfc3339_seconds(event.ts@).is_some()
    &&& json_encoding(event.entity).is_some()
    &&& json_encoding(event.evidence).is_some()
    &&& suggestion_encoding(event.suggestion) != Some(None::<Seq<u8>>)
}

/// `row` is the row stored for `event`.
pub open spec fn row_for(event: Event, row: StorageRow) -> bool {
    &&& row.event_id@ == event.event_id@
    &&& Some(row.ts) == rfc3339_seconds(event.ts@)
    &&& row.severity@ == severity_label(event.severity)
    &&& row.type_@ == event.type_@
    &&& row.service_id@ == SYSTEM_SERVICE@
    &&& row.snapshot@ == stored_snapshot(event)
}

/// The snapshot bytes stored for an event whose payloads all encode.
pub open spec fn stored_snapshot(event: Event) -> Seq<u8> {
    framed(
        json_encoding(event.entity).unwrap(),
        json_encoding(event.evidence).unwrap(),
        match event.suggestion {
            Some(v) => json_encoding(v),
            None => None,
        },
    )
}

/// The row to store for an event, or `None` when its time does not parse as
/// RFC 3339 or a payload cannot be encoded.
pub fn storage_row(event: &Event) -> (r: Option<StorageRow>)
    ensures
        r.is_some() == storable(event),
        r matches Some(row) ==> row_for(*event, row),
{
    let ts = match epoch_seconds(event.ts.as_str()) {
        Some(t) => t,
        None => return None,
    };
    let entity = match encode(&event.entity) {
        Some(b) => b,
        None => return None,
    };
    let evidence = match encode(&event.evidence) {
        Some(b) => b,
        None => return None,
    };
    let suggestion = match &event.suggestion {
        Some(v) => match encode(v) {
            Some(b) => Some(b),
            None => return None,
        },
        None => None,
    };
    Some(row_from_parts(event, ts, entity, evidence, suggestion))
}

} // verus!
