use sia::analyzer::{apply_enrichment, frame_snapshot, needs_enrichment, storage_row};
use sia::availability::AvailabilityCache;
use sia::config::default_thresholds;
use sia::control::{
    analysis_input, analysis_payloads, analysis_response, decode_snapshot, invalid_request_response,
    list_limit, list_response, show_response, status_response, unconfigured_analysis_response,
    LlmEndpoint, Payload, ProcessContext,
    Response, ResponseData, Snapshot,
};
use sia::event::{Event, Resource, StoredEvent};
use sia::metrics::SystemMetrics;
use sia::sampler::Severity;
use serde_json::Value;

fn doc(text: &str) -> Value {
    serde_json::from_str::<Value>(text).unwrap()
}

fn stored(id: &str, ts: i64, snapshot: &[u8]) -> StoredEvent {
    StoredEvent {
        event_id: id.to_string(),
        ts,
        severity: "CRITICAL".to_string(),
        type_: "cpu_high".to_string(),
        service_id: "system".to_string(),
        snapshot: snapshot.to_vec(),
        status: "open".to_string(),
    }
}

fn error_of(r: &Response) -> String {
    match &r.data {
        ResponseData::Error(m) => m.clone(),
        _ => panic!("not an error answer"),
    }
}

fn cpu_event(severity: Severity, ts: &str) -> Event {
    Event::new(
        Resource::Cpu,
        severity,
        1700000000123,
        ts.to_string(),
        doc(r#"{"cpu_usage":97.0,"type":"system_cpu"}"#),
        doc(r#"{"threshold":95.0,"sustained":false}"#),
    )
}

#[test]
fn event_identity_and_defaults() {
    let e = cpu_event(Severity::Critical, "2024-01-01T00:00:00+00:00");
    assert_eq!(e.event_id, "cpu_1700000000123");
    assert_eq!(e.type_, "cpu_high");
    assert_eq!(e.status, "open");
    assert!(e.suggestion.is_none());
    let m = Event::new(Resource::Memory, Severity::Warning, -5, "t".to_string(), Value::Null, Value::Null);
    assert_eq!(m.event_id, "mem_-5");
    assert_eq!(m.type_, "memory_high");
}

#[test]
fn severity_labels() {
    assert_eq!(Severity::Info.label(), "INFO");
    assert_eq!(Severity::Warning.label(), "WARNING");
    assert_eq!(Severity::Critical.label(), "CRITICAL");
}

#[test]
fn enrichment_only_for_configured_critical() {
    let c = cpu_event(Severity::Critical, "2024-01-01T00:00:00Z");
    let w = cpu_event(Severity::Warning, "2024-01-01T00:00:00Z");
    assert!(needs_enrichment(&c, true));
    assert!(!needs_enrichment(&c, false));
    assert!(!needs_enrichment(&w, true));
}

#[test]
fn enrichment_outcome_applied() {
    let mut e = cpu_event(Severity::Critical, "2024-01-01T00:00:00Z");
    apply_enrichment(&mut e, Err("timeout".to_string()));
    assert!(e.suggestion.is_none());
    apply_enrichment(&mut e, Ok(doc(r#"{"analysis":"x"}"#)));
    assert_eq!(e.suggestion, Some(doc(r#"{"analysis":"x"}"#)));
}

#[test]
fn snapshot_is_concatenation() {
    let r = frame_snapshot(b"{\"a\":1}".to_vec(), b"{\"b\":2}".to_vec(), None);
    assert_eq!(r, b"{\"a\":1}{\"b\":2}".to_vec());
    let r = frame_snapshot(b"1".to_vec(), b"2".to_vec(), Some(b"3".to_vec()));
    assert_eq!(r, b"123".to_vec());
    assert_eq!(frame_snapshot(vec![], vec![], None), Vec::<u8>::new());
}

#[test]
fn storage_row_from_event() {
    let mut e = cpu_event(Severity::Critical, "2024-01-01T00:00:00+00:00");
    let row = storage_row(&e).unwrap();
    assert_eq!(row.event_id, "cpu_1700000000123");
    assert_eq!(row.ts, 1704067200);
    assert_eq!(row.severity, "CRITICAL");
    assert_eq!(row.type_, "cpu_high");
    assert_eq!(row.service_id, "system");
    assert_eq!(row.snapshot, b"{\"cpu_usage\":97.0,\"type\":\"system_cpu\"}{\"sustained\":false,\"threshold\":95.0}".to_vec());
    apply_enrichment(&mut e, Ok(doc(r#"{"analysis":"ok"}"#)));
    let row = storage_row(&e).unwrap();
    assert!(row.snapshot.ends_with(b"{\"analysis\":\"ok\"}"));
    let shifted = cpu_event(Severity::Warning, "2024-01-01T02:00:00+02:00");
    assert_eq!(storage_row(&shifted).unwrap().ts, 1704067200);
}

#[test]
fn storage_row_refuses_bad_time() {
    let e = cpu_event(Severity::Critical, "yesterday");
    assert!(storage_row(&e).is_none());
}

#[test]
fn show_unknown_event_fails() {
    let r = show_response("nope", Ok(None));
    assert!(!r.success);
    assert_eq!(error_of(&r), "Event nope not found");
    let r = show_response("", Ok(None));
    assert!(!r.success);
    assert!(!error_of(&r).is_empty());
}

#[test]
fn show_database_error() {
    let r = show_response("x", Err("locked".to_string()));
    assert!(!r.success);
    assert_eq!(error_of(&r), "Database error: locked");
}

#[test]
fn show_known_event() {
    let r = show_response("cpu_1", Ok(Some(stored("cpu_1", 10, b"{\"k\":1}"))));
    assert!(r.success);
    match r.data {
        ResponseData::Detail(d) => {
            assert_eq!(d.event_id, "cpu_1");
            assert_eq!(d.ts, 10);
            assert_eq!(d.severity, "CRITICAL");
            assert_eq!(d.type_, "cpu_high");
            assert_eq!(d.service_id, "system");
            assert_eq!(d.status, "open");
            match d.snapshot {
                Snapshot::Document(v) => assert_eq!(v, doc(r#"{"k":1}"#)),
                Snapshot::Empty => panic!("expected a document"),
            }
        }
        _ => panic!("expected detail"),
    }
}

#[test]
fn decode_snapshot_falls_back_to_empty() {
    assert!(matches!(decode_snapshot(b"{\"a\":1}{\"b\":2}"), Snapshot::Empty));
    assert!(matches!(decode_snapshot(b"not json"), Snapshot::Empty));
    assert!(matches!(decode_snapshot(b""), Snapshot::Empty));
    match decode_snapshot(b" {\"a\":1} ") {
        Snapshot::Document(v) => assert_eq!(v, doc(r#"{"a":1}"#)),
        Snapshot::Empty => panic!("expected a document"),
    }
}

#[test]
fn list_maps_rows_in_order() {
    let rows = vec![stored("b", 20, b""), stored("a", 10, b"")];
    let r = list_response(Ok(rows));
    assert!(r.success);
    match r.data {
        ResponseData::Events(s) => {
            assert_eq!(s.len(), 2);
            assert_eq!(s[0].event_id, "b");
            assert_eq!(s[0].ts, 20);
            assert_eq!(s[1].event_id, "a");
            assert_eq!(s[1].severity, "CRITICAL");
            assert_eq!(s[1].type_, "cpu_high");
            assert_eq!(s[1].status, "open");
        }
        _ => panic!("expected events"),
    }
    let r = list_response(Err("gone".to_string()));
    assert!(!r.success);
    assert_eq!(error_of(&r), "Failed to fetch events: gone");
    assert!(list_response(Ok(vec![])).success);
}

#[test]
fn list_limit_default() {
    assert_eq!(list_limit(None), 20);
    assert_eq!(list_limit(Some(2)), 2);
}

#[test]
fn analyze_without_enrichment_fails() {
    let found = analysis_input("cpu_1", Ok(Some(stored("cpu_1", 10, b"{}"))), false);
    let r = found.err().unwrap();
    assert!(!r.success);
    assert_eq!(error_of(&r), "LLM client not available. Make sure Ollama is running and configured.");
    let r = analysis_input("zz", Ok(None), false).err().unwrap();
    assert!(!r.success);
    assert_eq!(error_of(&r), "LLM client not available. Make sure Ollama is running and configured.");
    let r = analysis_input("zz", Err("io".to_string()), false).err().unwrap();
    assert!(!r.success);
    assert_eq!(error_of(&r), "LLM client not available. Make sure Ollama is running and configured.");
    let r = unconfigured_analysis_response();
    assert!(!r.success);
    assert_eq!(error_of(&r), "LLM client not available. Make sure Ollama is running and configured.");
}

#[test]
fn analyze_lookup_failures_when_configured() {
    let r = analysis_input("zz", Ok(None), true).err().unwrap();
    assert!(!r.success);
    assert_eq!(error_of(&r), "Event zz not found");
    let r = analysis_input("zz", Err("io".to_string()), true).err().unwrap();
    assert!(!r.success);
    assert_eq!(error_of(&r), "Database error: io");
}

#[test]
fn analyze_reads_snapshot_text_lossily() {
    let snap: &[u8] = b"{\"entity\":\"\xff\"}";
    assert!(matches!(decode_snapshot(snap), Snapshot::Empty));
    let a = analysis_input("m", Ok(Some(stored("m", 1, snap))), true).ok().unwrap();
    match a.entity {
        Payload::Document(v) => assert_eq!(v, Value::from("\u{fffd}")),
        _ => panic!("expected the entity member"),
    }
}

#[test]
fn analyze_input_from_snapshot() {
    let snap = b"{\"entity\":{\"cpu_usage\":99},\"evidence\":{\"threshold\":95}}";
    let a = analysis_input("cpu_1", Ok(Some(stored("cpu_1", 10, snap))), true).ok().unwrap();
    assert_eq!(a.event_id, "cpu_1");
    assert_eq!(a.ts, 10);
    assert_eq!(a.severity, "CRITICAL");
    match (a.entity, a.evidence) {
        (Payload::Document(e), Payload::Document(v)) => {
            assert_eq!(e, doc(r#"{"cpu_usage":99}"#));
            assert_eq!(v, doc(r#"{"threshold":95}"#));
        }
        _ => panic!("expected documents"),
    }
}

#[test]
fn analysis_payload_fallbacks() {
    let flat = doc(r#"{"cpu_usage":97.0,"type":"system_cpu"}"#);
    match analysis_payloads(Snapshot::Document(flat.clone()), 7) {
        (Payload::Document(e), Payload::UnknownThreshold { timestamp }) => {
            assert_eq!(e, flat);
            assert_eq!(timestamp, 7);
        }
        _ => panic!("expected the flat snapshot as entity"),
    }
    match analysis_payloads(Snapshot::Document(doc(r#"{"other":1}"#)), 3) {
        (Payload::Empty, Payload::UnknownThreshold { timestamp: 3 }) => {}
        _ => panic!("expected empty entity"),
    }
    match analysis_payloads(Snapshot::Document(doc(r#"[1,2]"#)), 3) {
        (Payload::Empty, Payload::UnknownThreshold { timestamp: 3 }) => {}
        _ => panic!("expected empty entity"),
    }
    match analysis_payloads(Snapshot::Empty, 4) {
        (Payload::Empty, Payload::UnknownThreshold { timestamp: 4 }) => {}
        _ => panic!("expected fallbacks"),
    }
}

#[test]
fn analysis_answer() {
    let a = analysis_input("cpu_1", Ok(Some(stored("cpu_1", 10, b"{}"))), true).ok().unwrap();
    let r = analysis_response(&a, Ok(doc(r#"{"analysis":"restart"}"#)));
    assert!(r.success);
    match r.data {
        ResponseData::Analysis { event_id, suggestion } => {
            assert_eq!(event_id, "cpu_1");
            assert_eq!(suggestion, doc(r#"{"analysis":"restart"}"#));
        }
        _ => panic!("expected analysis"),
    }
    let r = analysis_response(&a, Err("status 500".to_string()));
    assert!(!r.success);
    assert_eq!(error_of(&r), "LLM analysis failed: status 500");
}

#[test]
fn invalid_request_text() {
    let r = invalid_request_response("missing field");
    assert!(!r.success);
    assert_eq!(error_of(&r), "Invalid request: missing field");
}

#[test]
fn status_reads_cache_and_counts() {
    let ctx = ProcessContext::new(100);
    let mut metrics = SystemMetrics::new();
    metrics.record_cpu(Some(4200));
    let mut cache = AvailabilityCache::new();
    cache.record_probe(Ok(true), 150);
    let endpoint = LlmEndpoint { base_url: "http://localhost:11434".to_string(), model: "llama3".to_string() };
    let r = status_response(&ctx, 160, metrics, Ok((3, 2, 1)), Some(&endpoint), &cache, default_thresholds());
    assert!(r.success);
    match r.data {
        ResponseData::Status(s) => {
            assert_eq!(s.uptime_seconds, 60);
            assert_eq!(s.metrics.cpu_usage, 4200);
            assert_eq!((s.events.critical, s.events.warning, s.events.info), (3, 2, 1));
            assert!(s.llm.available);
            assert_eq!(s.llm.model, Some("llama3".to_string()));
            assert_eq!(s.llm.url, Some("http://localhost:11434".to_string()));
            assert_eq!(s.thresholds, default_thresholds());
        }
        _ => panic!("expected status"),
    }
    let r = status_response(&ctx, 50, metrics, Err("db".to_string()), None, &cache, default_thresholds());
    match r.data {
        ResponseData::Status(s) => {
            assert_eq!(s.uptime_seconds, 0);
            assert_eq!((s.events.critical, s.events.warning, s.events.info), (0, 0, 0));
            assert!(!s.llm.available);
            assert!(s.llm.model.is_none());
        }
        _ => panic!("expected status"),
    }
}

#[test]
fn availability_cache_scenario() {
    let mut cache = AvailabilityCache::new();
    assert!(!cache.is_available());
    assert_eq!(cache.probed_at, None);
    cache.record_probe(Ok(true), 1000);
    assert!(cache.is_available());
    assert_eq!(cache.probed_at, Some(1000));
    cache.record_probe(Err("refused".to_string()), 1030);
    assert!(!cache.is_available());
    cache.record_probe(Ok(false), 1060);
    assert!(!cache.is_available());
}
