use pico_harmony::aggregate::message_text;
use pico_harmony::{extract_reasoning_final, ContentPart, HarmonyMessage, HarmonyRole};

fn text_message(channel: Option<&str>, parts: &[&str]) -> HarmonyMessage {
    HarmonyMessage {
        role: HarmonyRole::Assistant,
        channel: channel.map(|c| c.to_string()),
        recipient: None,
        content_type: None,
        content: parts.iter().map(|p| ContentPart::Text(p.to_string())).collect(),
    }
}

#[test]
fn analysis_and_final_are_split() {
    let msgs = vec![
        text_message(Some("analysis"), &["think"]),
        text_message(Some("final"), &["answer"]),
    ];
    let out = extract_reasoning_final(&msgs);
    assert_eq!(out.reasoning, Some("think".to_string()));
    assert_eq!(out.final_text, Some("answer".to_string()));
}

#[test]
fn no_channel_of_interest_gives_nothing() {
    let msgs = vec![
        text_message(Some("commentary"), &["call a tool"]),
        text_message(None, &["plain"]),
    ];
    let out = extract_reasoning_final(&msgs);
    assert_eq!(out.reasoning, None);
    assert_eq!(out.final_text, None);
}

#[test]
fn empty_list_gives_nothing() {
    let out = extract_reasoning_final(&[]);
    assert_eq!(out.reasoning, None);
    assert_eq!(out.final_text, None);
}

#[test]
fn empty_reasoning_is_not_missing_reasoning() {
    let msgs = vec![text_message(Some("analysis"), &[])];
    let out = extract_reasoning_final(&msgs);
    assert_eq!(out.reasoning, Some(String::new()));
    assert_eq!(out.final_text, None);
}

#[test]
fn texts_are_joined_in_order_without_separator() {
    let msgs = vec![
        text_message(Some("analysis"), &["a", "b"]),
        text_message(Some("final"), &["x"]),
        text_message(Some("commentary"), &["skipped"]),
        text_message(Some("analysis"), &["c"]),
        text_message(Some("final"), &["y", "z"]),
    ];
    let out = extract_reasoning_final(&msgs);
    assert_eq!(out.reasoning, Some("abc".to_string()));
    assert_eq!(out.final_text, Some("xyz".to_string()));
}

#[test]
fn parts_that_are_not_text_add_nothing() {
    let mut m = text_message(Some("final"), &["one"]);
    m.content.push(ContentPart::System);
    m.content.push(ContentPart::Developer);
    m.content.push(ContentPart::Text("two".to_string()));
    assert_eq!(message_text(&m), "onetwo");
    let out = extract_reasoning_final(&[m]);
    assert_eq!(out.final_text, Some("onetwo".to_string()));
    assert_eq!(out.reasoning, None);
}

#[test]
fn channel_names_are_matched_exactly() {
    let msgs = vec![
        text_message(Some("Analysis"), &["no"]),
        text_message(Some("final "), &["no"]),
        text_message(Some(""), &["no"]),
    ];
    let out = extract_reasoning_final(&msgs);
    assert_eq!(out.reasoning, None);
    assert_eq!(out.final_text, None);
}

#[test]
fn adding_an_unrelated_message_changes_nothing() {
    let mut msgs = vec![
        text_message(Some("analysis"), &["think"]),
        text_message(Some("final"), &["answer"]),
    ];
    let before = extract_reasoning_final(&msgs);
    msgs.push(text_message(Some("commentary"), &["noise"]));
    let after = extract_reasoning_final(&msgs);
    assert_eq!(before.reasoning, after.reasoning);
    assert_eq!(before.final_text, after.final_text);
}
