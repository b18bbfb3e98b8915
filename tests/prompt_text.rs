use sia::prompt::create_prompt;
use serde_json::Value;

#[test]
fn prompt_lists_event_details() {
    let entity = serde_json::from_str::<Value>(r#"{"cpu_usage":97.5}"#).unwrap();
    let evidence = serde_json::from_str::<Value>(r#"{"threshold":95}"#).unwrap();
    let p = create_prompt("cpu_high", "CRITICAL", "1700000000", &entity, &evidence);
    let expected = "You are a system administrator AI assistant analyzing a system event.\n\nEvent Details:\n- Type: cpu_high\n- Severity: CRITICAL\n- Timestamp: 1700000000\n- Data: {\n  \"cpu_usage\": 97.5\n}\n- Evidence: {\n  \"threshold\": 95\n}\n\nPlease provide:\n1. Brief analysis of what caused this issue\n2. Immediate recommended actions (2-3 steps)\n3. Preventive measures for the future\n\nKeep your response concise and actionable (max 200 words).";
    assert_eq!(p, expected);
}

#[test]
fn prompt_with_empty_payloads() {
    let empty = serde_json::from_str::<Value>("{}").unwrap();
    let p = create_prompt("memory_high", "WARNING", "5", &empty, &Value::Null);
    assert!(p.contains("- Data: {}\n- Evidence: null\n"));
}
