//! Control-plane requests and the responses built for them. The handlers
//! take what the store and the enrichment service returned as arguments, so
//! each response is decided here for every outcome of those calls.
use vstd::prelude::*;
use crate::availability::AvailabilityCache;
use crate::config::ThresholdsConfig;
use crate::event::StoredEvent;
use crate::json::{
    decode, decode_text, is_object, json_document, json_is_object, json_member, json_text_document,
    member,
};
use crate::metrics::SystemMetrics;

verus! {

/// Number of events `list` returns when the request names no limit.
pub const DEFAULT_LIST_LIMIT: i32 = 20;

/// Text of the `analyze` failure when no enrichment service is configured.
pub const NO_ENRICHMENT: &'static str =
    "LLM client not available. Make sure Ollama is running and configured.";

/// One client request.
#[derive(Debug, Clone)]
pub enum Request {
    Status,
    List { limit: Option<i32> },
    Show { event_id: String },
    Analyze { event_id: String },
}

/// Where the enrichment service is reached, and which model it runs.
#[derive(Debug, Clone)]
pub struct LlmEndpoint {
    pub base_url: String,
    pub model: String,
}

/// State fixed when the process starts.
#[derive(Debug, Clone, Copy, PartialEq, Eq, Structural)]
pub struct ProcessContext {
    pub start_secs: u64,
}

/// Open events per severity.
#[derive(Debug, Clone, Copy, PartialEq, Eq, Structural)]
pub struct EventCounts {
    pub critical: i64,
    pub warning: i64,
    pub info: i64,
}

/// Enrichment as `status` reports it.
#[derive(Debug, Clone)]
pub struct LlmStatus {
    pub available: bool,
    pub model: Option<String>,
    pub url: Option<String>,
}

/// The data of a `status` answer.
#[derive(Debug, Clone)]
pub struct StatusReport {
    pub uptime_seconds: u64,
    pub metrics: SystemMetrics,
    pub events: EventCounts,
    pub llm: LlmStatus,
    pub thresholds: ThresholdsConfig,
}

/// One line of a `list` answer.
#[derive(Debug, Clone)]
pub struct EventSummary {
    pub event_id: String,
    pub ts: i64,
    pub severity: String,
    pub type_: String,
    pub status: String,
}

/// A stored snapshot read back: the one document it holds, or the empty
/// object when it does not hold exactly one.
#[derive(Debug)]
pub enum Snapshot {
    Document(serde_json::Value),
    Empty,
}

/// The data of a `show` answer.
#[derive(Debug)]
pub struct EventDetail {
    pub event_id: String,
    pub ts: i64,
    pub severity: String,
    pub type_: String,
    pub service_id: String,
    pub status: String,
    pub snapshot: Snapshot,
}

/// A payload rebuilt for an on-demand analysis.
#[derive(Debug)]
pub enum Payload {
    Document(serde_json::Value),
    /// The empty object.
    Empty,
    /// Evidence that was not found: the event time, with an unknown threshold.
    UnknownThreshold { timestamp: i64 },
}

/// What is sent for analysis when a client asks for one.
#[derive(Debug)]
pub struct AnalysisInput {
    pub event_id: String,
    pub ts: i64,
    pub severity: String,
    pub type_: String,
    pub status: String,
    pub entity: Payload,
    pub evidence: Payload,
}

#[derive(Debug)]
pub enum ResponseData {
    Status(StatusReport),
    Events(Vec<EventSummary>),
    Detail(EventDetail),
    Analysis { event_id: String, suggestion: serde_json::Value },
    Error(String),
}

/// The one answer to a request.
#[derive(Debug)]
pub struct Response {
    pub success: bool,
    pub data: ResponseData,
}

/// A failure answer whose error text is `msg`.
pub open spec fn fails_with(r: Response, msg: Seq<char>) -> bool {
    !r.success && match r.data {
        ResponseData::Error(m) => m@ == msg,
        _ => false,
    }
}

/// The error text of an answer; empty when it is not a failure.
pub open spec fn error_text(r: Response) -> Seq<char> {
    match r.data {
        ResponseData::Error(m) => m@,
        _ => Seq::empty(),
    }
}

pub open spec fn not_found_message(id: Seq<char>) -> Seq<char> {
    "Event "@ + id + " not found"@
}

pub open spec fn database_message(e: Seq<char>) -> Seq<char> {
    "Database error: "@ + e
}

pub open spec fn fetch_message(e: Seq<char>) -> Seq<char> {
    "Failed to fetch events: "@ + e
}

pub open spec fn analysis_failed_message(e: Seq<char>) -> Seq<char> {
    "LLM analysis failed: "@ + e
}

pub open spec fn invalid_request_message(e: Seq<char>) -> Seq<char> {
    "Invalid request: "@ + e
}

/// A snapshot read back from stored bytes.
pub open spec fn snapshot_of(b: Seq<u8>) -> Snapshot {
    match json_document(b) {
        Some(v) => Snapshot::Document(v),
        None => Snapshot::Empty,
    }
}

/// A stored snapshot read back as text, invalid UTF-8 replaced: the single
/// document that text holds, or the empty object.
pub open spec fn text_snapshot_of(b: Seq<u8>) -> Snapshot {
    match json_text_document(b) {
        Some(v) => Snapshot::Document(v),
        None => Snapshot::Empty,
    }
}

/// `s` summarises `e`.
pub open spec fn summarises(s: EventSummary, e: StoredEvent) -> bool {
    &&& s.event_id@ == e.event_id@
    &&& s.ts == e.ts
    &&& s.severity@ == e.severity@
    &&& s.type_@ == e.type_@
    &&& s.status@ == e.status@
}

/// `d` shows `e` in full.
pub open spec fn details(d: EventDetail, e: StoredEvent) -> bool {
    &&& d.event_id@ == e.event_id@
    &&& d.ts == e.ts
    &&& d.severity@ == e.severity@
    &&& d.type_@ == e.type_@
    &&& d.service_id@ == e.service_id@
    &&& d.status@ == e.status@
    &&& d.snapshot == snapshot_of(e.snapshot@)
}

/// `r` is the `show` answer for `id` when the store returned `lookup`.
pub open spec fn shows(id: Seq<char>, lookup: Result<Option<StoredEvent>, String>, r: Response) -> bool {
    match lookup {
        Ok(Some(e)) => r.success && match r.data {
            ResponseData::Detail(d) => details(d, e),
            _ => false,
        },
        Ok(None) => fails_with(r, not_found_message(id)),
        Err(e) => fails_with(r, database_message(e@)),
    }
}

/// The limit a `list` request asks for.
pub fn list_limit(limit: Option<i32>) -> (r: i32)
    ensures
        r == match limit {
            Some(n) => n,
            None => DEFAULT_LIST_LIMIT,
        },
{
    match limit {
        Some(n) => n,
        None => DEFAULT_LIST_LIMIT,
    }
}

impl ProcessContext {
    pub fn new(start_secs: u64) -> (r: ProcessContext)
        ensures
            r.start_secs == start_secs,
    {
        ProcessContext { start_secs }
    }

    /// Seconds since the start; zero if the clock reads earlier than the start.
    pub fn uptime(&self, now_secs: u64) -> (r: u64)
        ensures
            r == if now_secs >= self.start_secs {
                (now_secs - self.start_secs) as u64
            } else {
                0u64
            },
    {
        now_secs.saturating_sub(self.start_secs)
    }
}

/// The failure answer for a request that could not be read.
pub fn invalid_request_response(reason: &str) -> (r: Response)
    ensures
        fails_with(r, invalid_request_message(reason@)),
{
    Response {
        success: false,
        data: ResponseData::Error(String::from_str("Invalid request: ").concat(reason)),
    }
}

/// The `status` answer. Counts the store could not give read as zero; the
/// availability comes from the cache, never from a live probe.
pub fn status_response(
    ctx: &ProcessContext,
    now_secs: u64,
    metrics: SystemMetrics,
    counts: Result<(i64, i64, i64), String>,
    llm: Option<&LlmEndpoint>,
    cache: &AvailabilityCache,
    thresholds: ThresholdsConfig,
) -> (r: Response)
    ensures
        r.success,
        match r.data {
            ResponseData::Status(s) => {
                &&& s.uptime_seconds == if now_secs >= ctx.start_secs {
                    (now_secs - ctx.start_secs) as u64
                } else {
                    0u64
                }
                &&& s.metrics == metrics
                &&& s.thresholds == thresholds
                &&& s.events == match counts {
                    Ok((c, w, i)) => EventCounts { critical: c, warning: w, info: i },
                    Err(_) => EventCounts { critical: 0, warning: 0, info: 0 },
                }
                &&& match llm {
                    Some(e) => {
                        &&& s.llm.available == cache.available
                        &&& s.llm.model matches Some(m) && m@ == e.model@
                        &&& s.llm.url matches Some(u) && u@ == e.base_url@
                    },
                    None => !s.llm.available && s.llm.model.is_none() && s.llm.url.is_none(),
                }
            },
            _ => false,
        },
{
    let events = match counts {
        Ok((c, w, i)) => EventCounts { critical: c, warning: w, info: i },
        Err(_) => EventCounts { critical: 0, warning: 0, info: 0 },
    };
    let llm_status = match llm {
        Some(e) => LlmStatus {
            available: cache.is_available(),
            model: Some(e.model.clone()),
            url: Some(e.base_url.clone()),
        },
        None => LlmStatus { available: false, model: None, url: None },
    };
    Response {
        success: true,
        data: ResponseData::Status(
            StatusReport {
                uptime_seconds: ctx.uptime(now_secs),
                metrics,
                events,
                llm: llm_status,
                thresholds,
            },
        ),
    }
}

/// The summary line of a stored event.
pub fn summary_of(e: &StoredEvent) -> (r: EventSummary)
    ensures
        summarises(r, *e),
{
    EventSummary {
        event_id: e.event_id.clone(),
        ts: e.ts,
        severity: e.severity.clone(),
        type_: e.type_.clone(),
        status: e.status.clone(),
    }
}

/// The `list` answer for what the store returned: one summary per row, in
/// the store's order (newest first).
pub fn list_response(rows: Result<Vec<StoredEvent>, String>) -> (r: Response)
    ensures
        match rows {
            Ok(v) => r.success && match r.data {
                ResponseData::Events(s) => s@.len() == v@.len() && forall|j: int|
                    0 <= j < v@.len() ==> summarises(#[trigger] s@[j], v@[j]),
                _ => false,
            },
            Err(e) => fails_with(r, fetch_message(e@)),
        },
{
    match rows {
        Ok(v) => {
            let mut out: Vec<EventSummary> = Vec::new();
            let mut i: usize = 0;
            while i < v.len()
                invariant
                    i <= v@.len(),
                    out@.len() == i,
                    forall|j: int| 0 <= j < i ==> summarises(#[trigger] out@[j], v@[j]),
                decreases v@.len() - i,
            {
                out.push(summary_of(&v[i]));
                i = i + 1;
            }
            Response { success: true, data: ResponseData::Events(out) }
        },
        Err(e) => Response {
            success: false,
            data: ResponseData::Error(String::from_str("Failed to fetch events: ").concat(e.as_str())),
        },
    }
}

/// Reads a stored snapshot back: the single document it holds, else the
/// empty object.
pub fn decode_snapshot(bytes: &[u8]) -> (r: Snapshot)
    ensures
        r == snapshot_of(bytes@),
{
    match decode(bytes) {
        Some(v) => Snapshot::Document(v),
        None => Snapshot::Empty,
    }
}

/// Reads a stored snapshot back through its text, as `analyze` does.
pub fn decode_snapshot_text(bytes: &[u8]) -> (r: Snapshot)
    ensures
        r == text_snapshot_of(bytes@),
{
    match decode_text(bytes) {
        Some(v) => Snapshot::Document(v),
        None => Snapshot::Empty,
    }
}

/// The full answer for a stored event.
pub fn detail_of(e: StoredEvent) -> (r: EventDetail)
    ensures
        details(r, e),
{
    let snapshot = decode_snapshot(e.snapshot.as_slice());
    EventDetail {
        event_id: e.event_id,
        ts: e.ts,
        severity: e.severity,
        type_: e.type_,
        service_id: e.service_id,
        status: e.status,
        snapshot,
    }
}

/// The `show` answer for what the store returned for `event_id`. An unknown
/// identity is a failure answer with a non-empty error text.
pub fn show_response(event_id: &str, lookup: Result<Option<StoredEvent>, String>) -> (r: Response)
    ensures
        shows(event_id@, lookup, r),
        lookup matches Ok(None) ==> !r.success && error_text(r).len() > 0,
{
    match lookup {
        Ok(Some(e)) => Response { success: true, data: ResponseData::Detail(detail_of(e)) },
        Ok(None) => {
            let msg = String::from_str("Event ").concat(event_id).concat(" not found");
            proof {
                reveal_strlit("Event ");
            }
            assert(msg@.len() > 0);
            Response { success: false, data: ResponseData::Error(msg) }
        },
        Err(e) => Response {
            success: false,
            data: ResponseData::Error(String::from_str("Database error: ").concat(e.as_str())),
        },
    }
}

/// True when an object document carries one of the markers of a resource
/// reading at its top level.
pub open spec fn has_reading_marker(v: serde_json::Value) -> bool {
    json_member(v, "cpu_usage"@).is_some() || json_member(v, "memory_percent"@).is_some()
        || json_member(v, "type"@).is_some()
}

/// The entity rebuilt from a snapshot: its `entity` member; else the
/// snapshot itself when it is an object that looks like a resource reading;
/// else the empty object.
pub open spec fn entity_of(s: Snapshot) -> Payload {
    match s {
        Snapshot::Document(v) => match json_member(v, "entity"@) {
            Some(e) => Payload::Document(e),
            None => if json_is_object(v) && has_reading_marker(v) {
                Payload::Document(v)
            } else {
                Payload::Empty
            },
        },
        Snapshot::Empty => Payload::Empty,
    }
}

/// The evidence rebuilt from a snapshot: its `evidence` member, else the
/// event time with an unknown threshold.
pub open spec fn evidence_of(s: Snapshot, ts: i64) -> Payload {
    match s {
        Snapshot::Document(v) => match json_member(v, "evidence"@) {
            Some(e) => Payload::Document(e),
            None => Payload::UnknownThreshold { timestamp: ts },
        },
        Snapshot::Empty => Payload::UnknownThreshold { timestamp: ts },
    }
}

/// Rebuilds the entity and the evidence of a stored event from its snapshot.
pub fn analysis_payloads(snapshot: Snapshot, ts: i64) -> (r: (Payload, Payload))
    ensures
        r.0 == entity_of(snapshot),
        r.1 == evidence_of(snapshot, ts),
{
    match snapshot {
        Snapshot::Document(v) => {
            let evidence = match member(&v, "evidence") {
                Some(e) => Payload::Document(e),
                None => Payload::UnknownThreshold { timestamp: ts },
            };
            let entity = match member(&v, "entity") {
                Some(e) => Payload::Document(e),
                None => {
                    let marked = member(&v, "cpu_usage").is_some() || member(
                        &v,
                        "memory_percent",
                    ).is_some() || member(&v, "type").is_some();
                    if is_object(&v) && marked {
                        Payload::Document(v)
                    } else {
                        Payload::Empty
                    }
                },
            };
            (entity, evidence)
        },
        Snapshot::Empty => (Payload::Empty, Payload::UnknownThreshold { timestamp: ts }),
    }
}

/// The answer to `analyze` when no enrichment service is configured: always
/// the same failure, whatever the event.
pub fn unconfigured_analysis_response() -> (r: Response)
    ensures
        fails_with(r, NO_ENRICHMENT@),
{
    Response { success: false, data: ResponseData::Error(NO_ENRICHMENT.to_string()) }
}

/// The first half of `analyze`: from whether an enrichment service is
/// configured and what the store returned for `event_id`, either the input to
/// send for analysis or the failure answer. Without a configured service the
/// answer is the fixed failure whatever the lookup gave; the availability
/// cache plays no part.
pub fn analysis_input(
    event_id: &str,
    lookup: Result<Option<StoredEvent>, String>,
    configured: bool,
) -> (r: Result<AnalysisInput, Response>)
    ensures
        !configured ==> (r matches Err(resp) && fails_with(resp, NO_ENRICHMENT@)),
        configured ==> match lookup {
            Ok(Some(e)) => match r {
                Ok(a) => {
                    &&& a.event_id@ == e.event_id@
                    &&& a.ts == e.ts
                    &&& a.severity@ == e.severity@
                    &&& a.type_@ == e.type_@
                    &&& a.status@ == e.status@
                    &&& a.entity == entity_of(text_snapshot_of(e.snapshot@))
                    &&& a.evidence == evidence_of(text_snapshot_of(e.snapshot@), e.ts)
                },
                Err(_) => false,
            },
            Ok(None) => r matches Err(resp) && fails_with(resp, not_found_message(event_id@)),
            Err(e) => r matches Err(resp) && fails_with(resp, database_message(e@)),
        },
{
    if !configured {
        return Err(unconfigured_analysis_response());
    }
    let e = match lookup {
        Ok(Some(e)) => e,
        Ok(None) => {
            return Err(
                Response {
                    success: false,
                    data: ResponseData::Error(
                        String::from_str("Event ").concat(event_id).concat(" not found"),
                    ),
                },
            );
        },
        Err(msg) => {
            return Err(
                Response {
                    success: false,
                    data: ResponseData::Error(
                        String::from_str("Database error: ").concat(msg.as_str()),
                    ),
                },
            );
        },
    };
    let snapshot = decode_snapshot_text(e.snapshot.as_slice());
    let (entity, evidence) = analysis_payloads(snapshot, e.ts);
    Ok(
        AnalysisInput {
            event_id: e.event_id,
            ts: e.ts,
            severity: e.severity,
            type_: e.type_,
            status: e.status,
            entity,
            evidence,
        },
    )
}

/// The second half of `analyze`: the answer for what the enrichment service
/// returned.
pub fn analysis_response(input: &AnalysisInput, outcome: Result<serde_json::Value, String>) -> (r:
    Response)
    ensures
        match outcome {
            Ok(v) => r.success && match r.data {
                ResponseData::Analysis { event_id, suggestion } => event_id@ == input.event_id@
                    && suggestion == v,
                _ => false,
            },
            Err(e) => fails_with(r, analysis_failed_message(e@)),
        },
{
    match outcome {
        Ok(v) => Response {
            success: true,
            data: ResponseData::Analysis { event_id: input.event_id.clone(), suggestion: v },
        },
        Err(e) => Response {
            success: false,
            data: ResponseData::Error(String::from_str("LLM analysis failed: ").concat(e.as_str())),
        },
    }
}

} // verus!
