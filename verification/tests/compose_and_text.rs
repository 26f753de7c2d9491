use capcom::compose::{
    assistant_system_prompt, compose_fallback, compose_response, intent_from_label,
    proposal_from_assistant_output, proposal_from_reply, ComposeRequest, ReplyFields,
};
use capcom::protocol::ProposalIntent;
use capcom::text::{contains_text, extract_json_object, json_quote, take_chars, to_lowercase};

fn req(instruction: &str) -> ComposeRequest {
    ComposeRequest {
        instruction: instruction.to_string(),
        to_peer_id: "agent-b".to_string(),
        from_agent: "agent-a".to_string(),
        to_agent: "agent-b".to_string(),
    }
}

#[test]
fn extract_json_object_from_prose() {
    assert_eq!(
        extract_json_object("Sure! ```json\n{\"a\":{\"b\":1}}\n``` done"),
        Some("{\"a\":{\"b\":1}}")
    );
    assert_eq!(extract_json_object("no json here"), None);
    assert_eq!(extract_json_object("} backwards {"), None);
    assert_eq!(extract_json_object("{"), None);
    assert_eq!(extract_json_object("{}"), Some("{}"));
    assert_eq!(extract_json_object("é{ü}ö"), Some("{ü}"));
    assert_eq!(extract_json_object("{\"k\":1} or {\"k\":2}"), Some("{\"k\":1}"));
    assert_eq!(extract_json_object("{a}} trailing"), Some("{a}"));
    // A block that never closes: from the first `{` to the last `}`.
    assert_eq!(extract_json_object("x { { y }"), Some("{ { y }"));
    assert_eq!(extract_json_object("{{}"), Some("{{}"));
    // Braces inside string literals are not counted.
    assert_eq!(extract_json_object("ok: {\"m\":\"a } b\"} done"), Some("{\"m\":\"a } b\"}"));
    assert_eq!(extract_json_object("{\"m\":\"q\\\"}\"} x}"), Some("{\"m\":\"q\\\"}\"}"));
}

#[test]
fn assistant_output_becomes_proposal() {
    let parse = |obj: &str| -> Option<ReplyFields> {
        let v: serde_json::Value = serde_json::from_str(obj).ok()?;
        Some(ReplyFields {
            intent: v.get("intent")?.as_str()?.to_string(),
            subject: v.get("subject")?.as_str()?.to_string(),
            terms: serde_json::to_string(v.get("terms")?).ok()?,
            message: v.get("message")?.as_str()?.to_string(),
        })
    };
    let out = "Here you go:\n{\"intent\":\"meeting\",\"subject\":\"Intro\",\"terms\":{\"when\":\"fri\"},\"message\":\"Hi\"}\nthanks {x}";
    let p = proposal_from_assistant_output(&req("x"), "pid-3", out, parse).expect("parsed");
    assert_eq!(p.proposal_id, "pid-3");
    assert_eq!(p.intent, ProposalIntent::Meeting);
    assert_eq!(p.subject, "Intro");
    assert_eq!(p.terms, "{\"when\":\"fri\"}");
    assert_eq!(p.message, "Hi");
    assert!(proposal_from_assistant_output(&req("x"), "p", "no object", parse).is_none());
    assert!(proposal_from_assistant_output(&req("x"), "p", "{not json}", parse).is_none());
}

#[test]
fn contains_text_cases() {
    assert!(contains_text("please review the contract", "review"));
    assert!(contains_text("abc", ""));
    assert!(!contains_text("ab", "abc"));
    assert!(!contains_text("meeting", "meat"));
    assert!(contains_text("intro call", "intro"));
}

#[test]
fn take_chars_counts_characters() {
    assert_eq!(take_chars("héllo", 2), "hé");
    assert_eq!(take_chars("hi", 60), "hi");
    let long: String = "x".repeat(70);
    assert_eq!(take_chars(&long, 60).chars().count(), 60);
}

#[test]
fn lowercase_and_quote_wrappers() {
    assert_eq!(to_lowercase("HeLLo ÀÉ"), "hello àé");
    assert_eq!(json_quote("a\"b\\c\n"), "\"a\\\"b\\\\c\\n\"");
    assert_eq!(json_quote(""), "\"\"");
    assert_eq!(json_quote("\u{1}\u{8}\t\u{c}\r\u{1f}é/"), "\"\\u0001\\b\\t\\f\\r\\u001fé/\"");
}

#[test]
fn fallback_intents() {
    assert_eq!(compose_fallback(&req("Share my SKILL list"), "p").intent, ProposalIntent::Other);
    assert_eq!(compose_fallback(&req("Please Review this"), "p").intent, ProposalIntent::DataShare);
    assert_eq!(compose_fallback(&req("the contract draft"), "p").intent, ProposalIntent::DataShare);
    assert_eq!(compose_fallback(&req("Let's MEET on Friday"), "p").intent, ProposalIntent::Meeting);
    assert_eq!(compose_fallback(&req("quick intro to Bob"), "p").intent, ProposalIntent::Meeting);
    assert_eq!(compose_fallback(&req("Hand off Acme lead"), "p").intent, ProposalIntent::LeadHandoff);
    // "skill" wins over the other keywords.
    assert_eq!(compose_fallback(&req("review my skill at the meeting"), "p").intent, ProposalIntent::Other);
}

#[test]
fn fallback_fields() {
    let instruction = "Warm lead \"Acme\": replied twice. ".repeat(3);
    let p = compose_fallback(&req(&instruction), "pid-1");
    assert_eq!(p.proposal_id, "pid-1");
    assert_eq!(p.from_agent, "agent-a");
    assert_eq!(p.to_agent, "agent-b");
    assert_eq!(p.subject, instruction.chars().take(60).collect::<String>());
    assert_eq!(p.message, instruction);
    assert!(p.requires_approval);
    let terms: serde_json::Value = serde_json::from_str(&p.terms).unwrap();
    assert_eq!(terms, serde_json::Value::Object({
        let mut m = serde_json::Map::new();
        m.insert("instruction".to_string(), serde_json::Value::String(instruction.clone()));
        m
    }));
    assert_eq!(compose_fallback(&req("hi"), "q").terms, "{\"instruction\":\"hi\"}");
}

#[test]
fn labels_map_to_intents() {
    assert_eq!(intent_from_label("lead_handoff"), ProposalIntent::LeadHandoff);
    assert_eq!(intent_from_label("meeting"), ProposalIntent::Meeting);
    assert_eq!(intent_from_label("data_share"), ProposalIntent::DataShare);
    assert_eq!(intent_from_label("other"), ProposalIntent::Other);
    assert_eq!(intent_from_label("Meeting"), ProposalIntent::Other);
}

#[test]
fn reply_becomes_proposal() {
    let p = proposal_from_reply(
        &req("x"),
        "pid-9",
        "data_share",
        "Contract review".to_string(),
        "{\"doc\":\"nda\"}".to_string(),
        "Can you review?".to_string(),
    );
    assert_eq!(p.proposal_id, "pid-9");
    assert_eq!(p.intent, ProposalIntent::DataShare);
    assert_eq!(p.subject, "Contract review");
    assert_eq!(p.terms, "{\"doc\":\"nda\"}");
    assert!(p.requires_approval);
}

#[test]
fn compose_response_reports_source() {
    let r = compose_response(&req("meet up"), "pid", None);
    assert_eq!(r.source, "fallback");
    assert_eq!(r.proposal.intent, ProposalIntent::Meeting);
    let reply = proposal_from_reply(&req("x"), "pid", "other", "s".to_string(), "{}".to_string(), "m".to_string());
    let r = compose_response(&req("meet up"), "pid", Some(reply));
    assert_eq!(r.source, "assistant");
    assert_eq!(r.proposal.intent, ProposalIntent::Other);
}

#[test]
fn system_prompt_names_both_agents() {
    let s = assistant_system_prompt("agent-a", "agent-b");
    assert!(s.starts_with("You convert a user instruction into a CAPCOM proposal for agent-to-agent negotiation. Output ONLY minified JSON, no prose, matching exactly: {\"intent\":\"lead_handoff|data_share|meeting|other\""));
    assert!(s.ends_with("\"message\":\"one sentence to the peer\"}. from_agent=agent-a to_agent=agent-b."));
}
