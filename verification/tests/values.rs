use pico_harmony::convert::{choose_role, raise};
use pico_harmony::encoding::{analysis_setting, text_of_bytes, too_long_error, tools_setting};
use pico_harmony::error::err_text;
use pico_harmony::model::{fits, text_is, MAX_TEXT_BYTES};
use pico_harmony::stream::already_finished;
use pico_harmony::{
    err, load_harmony_encoding_ffi, HarmonyEncodingFfi, HarmonyRole, PicoHarmonyError,
    PicoHarmonyGptOss, RenderConversationConfigFfi, RenderOptionsFfi,
};

#[test]
fn err_keeps_the_message() {
    let e = err("boom".to_string());
    assert_eq!(e.message(), "boom");
    assert!(matches!(e, PicoHarmonyError::Msg(ref m) if m == "boom"));
    assert_eq!(err_text("fixed").message(), "fixed");
}

#[test]
fn already_finished_message() {
    assert_eq!(already_finished().message(), "parser already finished");
}

#[test]
fn role_names_round_trip() {
    let all = [
        (HarmonyRole::User, "user"),
        (HarmonyRole::Assistant, "assistant"),
        (HarmonyRole::System, "system"),
        (HarmonyRole::Developer, "developer"),
        (HarmonyRole::Tool, "tool"),
    ];
    for (role, name) in all {
        assert_eq!(role.as_str(), name);
        assert_eq!(HarmonyRole::from_name(name), Some(role));
    }
}

#[test]
fn other_names_are_no_role() {
    assert_eq!(HarmonyRole::from_name("User"), None);
    assert_eq!(HarmonyRole::from_name(""), None);
    assert_eq!(HarmonyRole::from_name("assistant "), None);
}

#[test]
fn choose_role_accepts_none_and_known_names() {
    assert!(matches!(choose_role(&None), Ok(None)));
    assert!(matches!(choose_role(&Some("tool".to_string())), Ok(Some(HarmonyRole::Tool))));
}

#[test]
fn choose_role_refuses_unknown_names() {
    match choose_role(&Some("robot".to_string())) {
        Err(e) => assert_eq!(e.message(), "Unknown role"),
        Ok(_) => panic!("an unknown role name was accepted"),
    }
}

#[test]
fn text_is_compares_whole_texts() {
    assert!(text_is("strict", "strict"));
    assert!(!text_is("strict", "stric"));
    assert!(!text_is("", "strict"));
}

#[test]
fn raise_keeps_values_and_wraps_errors() {
    assert!(matches!(raise::<u32>(Ok(7)), Ok(7)));
    match raise::<u32>(Err("bad".to_string())) {
        Err(e) => assert_eq!(e.message(), "bad"),
        Ok(_) => panic!("an error became a value"),
    }
}

#[test]
fn settings_default_to_off() {
    assert!(!analysis_setting(&None));
    assert!(analysis_setting(&Some(RenderConversationConfigFfi { auto_drop_analysis: true })));
    assert!(!analysis_setting(&Some(RenderConversationConfigFfi { auto_drop_analysis: false })));
    assert!(!tools_setting(&None));
    assert!(tools_setting(&Some(RenderOptionsFfi { conversation_has_function_tools: true })));
    assert!(!tools_setting(&Some(RenderOptionsFfi { conversation_has_function_tools: false })));
}

#[test]
fn strict_bytes_must_be_utf8() {
    let ok = text_of_bytes("héllo".as_bytes().to_vec(), "strict");
    assert_eq!(ok.unwrap(), "héllo");
    let bad = text_of_bytes(vec![0x68, 0xff, 0x69], "strict");
    assert!(bad.is_err());
}

#[test]
fn other_modes_replace_invalid_bytes() {
    let out = text_of_bytes(vec![0x68, 0xff, 0x69], "replace").unwrap();
    assert_eq!(out, "h\u{fffd}i");
    let out = text_of_bytes(vec![0x68, 0x69], "ignore").unwrap();
    assert_eq!(out, "hi");
    let out = text_of_bytes(vec![0xff], "").unwrap();
    assert_eq!(out, "\u{fffd}");
}

#[test]
fn unknown_encoding_names_are_refused() {
    match HarmonyEncodingFfi::new("NoSuchEncoding".to_string()) {
        Err(e) => assert_eq!(e.message(), "unknown encoding name"),
        Ok(_) => panic!("an unknown encoding was loaded"),
    }
    match load_harmony_encoding_ffi("harmonygptoss".to_string()) {
        Err(e) => assert_eq!(e.message(), "unknown encoding name"),
        Ok(_) => panic!("an unknown encoding was loaded"),
    }
}

#[test]
fn a_failed_load_keeps_its_message() {
    match PicoHarmonyGptOss::from_loaded(Err("no vocabulary".to_string())) {
        Err(e) => assert_eq!(e.message(), "no vocabulary"),
        Ok(_) => panic!("a failed load became a value"),
    }
}

#[test]
fn loading_answers_without_panicking() {
    match PicoHarmonyGptOss::new() {
        Ok(gpt) => assert!(gpt.new_stream_parser().is_ok()),
        Err(e) => assert!(!e.message().is_empty()),
    }
}

#[test]
fn a_failed_load_of_a_named_encoding_keeps_its_message() {
    match HarmonyEncodingFfi::from_loaded(Err("no vocabulary".to_string())) {
        Err(e) => assert_eq!(e.message(), "no vocabulary"),
        Ok(_) => panic!("a failed load became a value"),
    }
}

#[test]
fn the_text_limit_counts_bytes() {
    assert_eq!(MAX_TEXT_BYTES, 100_000);
    assert!(fits(""));
    assert!(fits(&"a".repeat(100_000)));
    assert!(!fits(&"a".repeat(100_001)));
    assert!(fits(&"é".repeat(50_000)));
    assert!(!fits(&"é".repeat(50_001)));
    assert_eq!(too_long_error().message(), "input text too long");
}
