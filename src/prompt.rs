//! The request text sent to the enrichment service.
use vstd::prelude::*;
use crate::json::{json_pretty_text, pretty};

verus! {

pub const PROMPT_HEAD: &'static str =
    "You are a system administrator AI assistant analyzing a system event.\n\nEvent Details:\n- Type: ";

pub const PROMPT_SEVERITY: &'static str = "\n- Severity: ";

pub const PROMPT_TIME: &'static str = "\n- Timestamp: ";

pub const PROMPT_DATA: &'static str = "\n- Data: ";

pub const PROMPT_EVIDENCE: &'static str = "\n- Evidence: ";

pub const PROMPT_TAIL: &'static str =
    "\n\nPlease provide:\n1. Brief analysis of what caused this issue\n2. Immediate recommended actions (2-3 steps)\n3. Preventive measures for the future\n\nKeep your response concise and actionable (max 200 words).";

/// The indented text of a payload; empty when it cannot be written.
pub open spec fn shown(v: serde_json::Value) -> Seq<char> {
    match json_pretty_text(v) {
        Some(t) => t,
        None => Seq::empty(),
    }
}

/// The prompt for an event of category `kind`.
pub open spec fn prompt_text(
    kind: Seq<char>,
    severity: Seq<char>,
    ts: Seq<char>,
    entity: serde_json::Value,
    evidence: serde_json::Value,
) -> Seq<char> {
    PROMPT_HEAD@ + kind + PROMPT_SEVERITY@ + severity + PROMPT_TIME@ + ts + PROMPT_DATA@ + shown(
        entity,
    ) + PROMPT_EVIDENCE@ + shown(evidence) + PROMPT_TAIL@
}

fn shown_text(v: &serde_json::Value) -> (r: String)
    ensures
        r@ == shown(*v),
{
    match pretty(v) {
        Some(t) => t,
        None => String::new(),
    }
}

/// Builds the prompt that asks for an analysis of an event.
pub fn create_prompt(
    kind: &str,
    severity: &str,
    ts: &str,
    entity: &serde_json::Value,
    evidence: &serde_json::Value,
) -> (r: String)
    ensures
        r@ == prompt_text(kind@, severity@, ts@, *entity, *evidence),
{
    let data = shown_text(entity);
    let evidence_text = shown_text(evidence);
    String::from_str(PROMPT_HEAD).concat(kind).concat(PROMPT_SEVERITY).concat(severity).concat(
        PROMPT_TIME,
    ).concat(ts).concat(PROMPT_DATA).concat(data.as_str()).concat(PROMPT_EVIDENCE).concat(
        evidence_text.as_str(),
    ).concat(PROMPT_TAIL)
}

} // verus!
