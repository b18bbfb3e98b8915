//! Events, as produced by the samplers and as kept by the store.
use vstd::prelude::*;
use crate::sampler::{Severity, ThresholdRule};
use crate::text::{decimal, decimal_i64};

verus! {

/// The text of a severity, as stored and shown.
pub open spec fn severity_label(s: Severity) -> Seq<char> {
    match s {
        Severity::Info => "INFO"@,
        Severity::Warning => "WARNING"@,
        Severity::Critical => "CRITICAL"@,
    }
}

impl Severity {
    /// The stored text of this severity.
    pub fn label(&self) -> (r: String)
        ensures
            r@ == severity_label(*self),
    {
        match self {
            Severity::Info => "INFO".to_string(),
            Severity::Warning => "WARNING".to_string(),
            Severity::Critical => "CRITICAL".to_string(),
        }
    }
}

/// The monitored resource an event is about.
#[derive(Debug, Clone, Copy, PartialEq, Eq, Structural)]
pub enum Resource {
    Cpu,
    Memory,
}

/// Prefix of the identities of a resource's events.
pub open spec fn id_prefix(r: Resource) -> Seq<char> {
    match r {
        Resource::Cpu => "cpu_"@,
        Resource::Memory => "mem_"@,
    }
}

/// Category of a resource's events.
pub open spec fn event_kind(r: Resource) -> Seq<char> {
    match r {
        Resource::Cpu => "cpu_high"@,
        Resource::Memory => "memory_high"@,
    }
}

/// A threshold crossing. `entity` describes the measured subject, `evidence`
/// why the event fired, and `suggestion` is filled in by enrichment only.
#[derive(Debug)]
pub struct Event {
    pub event_id: String,
    pub ts: String,
    pub severity: Severity,
    pub type_: String,
    pub entity: serde_json::Value,
    pub evidence: serde_json::Value,
    pub suggestion: Option<serde_json::Value>,
    pub status: String,
}

impl Event {
    /// A new open event about `resource`, created at `millis` (milliseconds
    /// since the epoch, also written as `ts`). Its identity is the resource's
    /// prefix followed by `millis` in decimal.
    pub fn new(
        resource: Resource,
        severity: Severity,
        millis: i64,
        ts: String,
        entity: serde_json::Value,
        evidence: serde_json::Value,
    ) -> (r: Event)
        ensures
            r.event_id@ == id_prefix(resource) + decimal(millis as int),
            r.ts@ == ts@,
            r.severity == severity,
            r.type_@ == event_kind(resource),
            r.entity == entity,
            r.evidence == evidence,
            r.suggestion.is_none(),
            r.status@ == "open"@,
    {
        let digits = decimal_i64(millis);
        let (prefix, kind) = match resource {
            Resource::Cpu => (String::from_str("cpu_"), String::from_str("cpu_high")),
            Resource::Memory => (String::from_str("mem_"), String::from_str("memory_high")),
        };
        Event {
            event_id: prefix.concat(digits.as_str()),
            ts,
            severity,
            type_: kind,
            entity,
            evidence,
            suggestion: None,
            status: String::from_str("open"),
        }
    }
}

/// An event as the store returns it: time in epoch seconds, payload as the
/// stored snapshot bytes.
#[derive(Debug)]
pub struct StoredEvent {
    pub event_id: String,
    pub ts: i64,
    pub severity: String,
    pub type_: String,
    pub service_id: String,
    pub snapshot: Vec<u8>,
    pub status: String,
}

/// A discovered service.
#[derive(Debug)]
pub struct Service {
    pub id: String,
    pub name: String,
    pub discovery: Option<serde_json::Value>,
    pub default_scopes: Vec<String>,
    pub requested_scopes: Vec<String>,
}

/// Scopes granted to a service.
#[derive(Debug, Clone)]
pub struct Grant {
    pub id: String,
    pub service_id: String,
    pub scopes: Vec<String>,
    pub expires_at: String,
    pub token: String,
}

/// The facts an event's evidence records: the level that was crossed, and,
/// for the CPU, whether a sustained run was needed.
#[derive(Debug, Clone, Copy, PartialEq, Eq, Structural)]
pub struct EvidenceFacts {
    pub threshold: u32,
    pub sustained: Option<bool>,
}

/// The evidence facts of an event of `severity` about `resource` under `rule`:
/// the critical level for a critical event, the warning level otherwise.
pub fn evidence_facts(resource: Resource, severity: Severity, rule: &ThresholdRule) -> (r:
    EvidenceFacts)
    ensures
        r.threshold == if severity == Severity::Critical {
            rule.critical
        } else {
            rule.warning
        },
        r.sustained == match resource {
            Resource::Cpu => Some(severity == Severity::Warning),
            Resource::Memory => None::<bool>,
        },
{
    let threshold = match severity {
        Severity::Critical => rule.critical,
        _ => rule.warning,
    };
    let sustained = match resource {
        Resource::Cpu => Some(
            match severity {
                Severity::Warning => true,
                _ => false,
            },
        ),
        Resource::Memory => None,
    };
    EvidenceFacts { threshold, sustained }
}

} // verus!
