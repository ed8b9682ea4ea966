use pico_harmony::{HarmonyEncodingFfi, PicoHarmonyGptOss, RenderConversationConfigFfi};

// The vocabulary is read from outside the program when an encoding is loaded.
// Where it cannot be had, loading fails and these tests have nothing to run on.
fn encoding() -> Option<HarmonyEncodingFfi> {
    HarmonyEncodingFfi::new("HarmonyGptOss".to_string()).ok()
}

const CONVERSATION: &str = "{\"messages\":[{\"role\":\"user\",\"content\":\"What is 2 + 2?\"},{\"role\":\"assistant\",\"channel\":\"analysis\",\"content\":\"think\"},{\"role\":\"assistant\",\"channel\":\"final\",\"content\":\"answer\"}]}";

const ASSISTANT_ONLY: &str = "{\"messages\":[{\"role\":\"assistant\",\"channel\":\"analysis\",\"content\":\"think\"},{\"role\":\"assistant\",\"channel\":\"final\",\"content\":\"answer\"}]}";

#[test]
fn loaded_encoding_has_its_name() {
    if let Some(enc) = encoding() {
        assert_eq!(enc.name(), "HarmonyGptOss");
        let specials = enc.special_tokens();
        assert!(specials.iter().any(|s| s == "<|start|>"));
        let mut sorted = specials.clone();
        sorted.sort();
        sorted.dedup();
        assert_eq!(sorted.len(), specials.len());
    }
}

#[test]
fn rendering_twice_gives_the_same_tokens() {
    if let Some(enc) = encoding() {
        let keep = Some(RenderConversationConfigFfi { auto_drop_analysis: false });
        let a = enc.render_conversation(CONVERSATION.to_string(), keep.clone()).unwrap();
        let b = enc.render_conversation(CONVERSATION.to_string(), keep.clone()).unwrap();
        assert_eq!(a, b);
        assert!(!a.is_empty());
        let c = enc.render_conversation_for_training(CONVERSATION.to_string(), keep.clone()).unwrap();
        let d = enc.render_conversation_for_training(CONVERSATION.to_string(), keep).unwrap();
        assert_eq!(c, d);
        assert_eq!(a.len(), c.len());
    }
}

#[test]
fn completion_prefix_extends_the_conversation() {
    if let Some(enc) = encoding() {
        let plain = enc.render_conversation(CONVERSATION.to_string(), None).unwrap();
        let open = enc
            .render_conversation_for_completion(CONVERSATION.to_string(), "assistant".to_string(), None)
            .unwrap();
        assert!(open.len() > plain.len());
        assert_eq!(&open[..plain.len()], &plain[..]);
    }
}

#[test]
fn malformed_json_is_an_error() {
    if let Some(enc) = encoding() {
        assert!(enc.render_conversation("{not json".to_string(), None).is_err());
        assert!(enc.render("[]".to_string(), None).is_err());
        assert!(enc
            .render_conversation_for_completion(CONVERSATION.to_string(), "robot".to_string(), None)
            .is_err());
    }
}

#[test]
fn encode_and_decode_agree() {
    if let Some(enc) = encoding() {
        let tokens = enc.encode("hello world".to_string(), Vec::new()).unwrap();
        assert!(!tokens.is_empty());
        assert_eq!(enc.decode_utf8(tokens.clone()).unwrap(), "hello world");
        assert_eq!(enc.decode_bytes(tokens.clone(), "strict".to_string()).unwrap(), "hello world");
        assert_eq!(enc.decode_bytes(tokens, "replace".to_string()).unwrap(), "hello world");
        let special = enc.encode("<|start|>".to_string(), vec!["<|start|>".to_string()]).unwrap();
        assert_eq!(special.len(), 1);
        assert!(enc.is_special_token(special[0]));
    }
}

#[test]
fn stop_tokens_for_actions_are_among_stop_tokens() {
    if let Some(enc) = encoding() {
        let all = enc.stop_tokens().unwrap();
        let actions = enc.stop_tokens_for_assistant_actions().unwrap();
        assert_eq!(all.len(), 3);
        assert_eq!(actions.len(), 2);
        assert!(actions.iter().all(|t| all.contains(t)));
    }
}

#[test]
fn unknown_role_opens_no_parser() {
    if let Some(enc) = encoding() {
        match enc.new_stream_parser(Some("robot".to_string()), true) {
            Err(e) => assert_eq!(e.message(), "Unknown role"),
            Ok(_) => panic!("a parser was opened for an unknown role"),
        }
        match enc.parse_messages_from_completion_tokens(Vec::new(), Some("robot".to_string()), true) {
            Err(e) => assert_eq!(e.message(), "Unknown role"),
            Ok(_) => panic!("an unknown role was accepted"),
        }
    }
}

#[test]
fn finish_succeeds_once() {
    if let Some(enc) = encoding() {
        let mut parser = enc.new_stream_parser(None, true).unwrap();
        assert!(parser.finish().is_ok());
        let refused = "parser already finished";
        assert_eq!(parser.finish().unwrap_err().message(), refused);
        assert_eq!(parser.finish_messages().unwrap_err().message(), refused);
        assert_eq!(parser.process(1).unwrap_err().message(), refused);
        assert_eq!(parser.process_eos().unwrap_err().message(), refused);
        assert_eq!(parser.current_content().unwrap_err().message(), refused);
        assert_eq!(parser.current_role().unwrap_err().message(), refused);
        assert_eq!(parser.current_channel().unwrap_err().message(), refused);
        assert_eq!(parser.current_recipient().unwrap_err().message(), refused);
        assert_eq!(parser.current_content_type().unwrap_err().message(), refused);
        assert_eq!(parser.last_content_delta().unwrap_err().message(), refused);
        assert_eq!(parser.messages().unwrap_err().message(), refused);
        assert_eq!(parser.messages_json().unwrap_err().message(), refused);
        assert_eq!(parser.tokens().unwrap_err().message(), refused);
        assert_eq!(parser.state_json().unwrap_err().message(), refused);
    }
}

#[test]
fn training_tokens_parse_back() {
    if let Some(enc) = encoding() {
        let tokens = enc.render_conversation_for_training(ASSISTANT_ONLY.to_string(), None).unwrap();
        let mut parser = enc.new_stream_parser(None, true).unwrap();
        for t in tokens.iter() {
            parser.process(*t).unwrap();
        }
        assert_eq!(parser.tokens().unwrap(), tokens);
        let summary = parser.finish().unwrap();
        assert_eq!(summary.reasoning, Some("think".to_string()));
        assert_eq!(summary.final_text, Some("answer".to_string()));
    }
}

#[test]
fn deltas_add_up_to_the_content() {
    if let Some(enc) = encoding() {
        let text = "The answer is four.";
        let mut tokens = enc.encode("<|start|>assistant<|channel|>final<|message|>".to_string(),
            enc.special_tokens()).unwrap();
        tokens.extend(enc.encode(text.to_string(), Vec::new()).unwrap());
        let mut parser = enc.new_stream_parser(None, true).unwrap();
        let mut seen = String::new();
        for t in tokens {
            let step = parser.process(t).unwrap();
            assert_eq!(step.delta, parser.last_content_delta().unwrap());
            if let Some(d) = step.delta {
                seen.push_str(&d);
            }
        }
        assert_eq!(parser.current_content().unwrap(), seen);
        assert_eq!(seen, text);
        assert_eq!(parser.current_channel().unwrap(), Some("final".to_string()));
        assert_eq!(parser.current_role().unwrap(), Some("assistant".to_string()));
    }
}

#[test]
fn end_of_input_before_finish_changes_nothing() {
    if let Some(enc) = encoding() {
        let mut tokens = enc.encode("<|start|>assistant<|channel|>final<|message|>".to_string(),
            enc.special_tokens()).unwrap();
        tokens.extend(enc.encode("unterminated".to_string(), Vec::new()).unwrap());
        let mut with_eos = enc.new_stream_parser(None, true).unwrap();
        let mut alone = enc.new_stream_parser(None, true).unwrap();
        for t in tokens {
            with_eos.process(t).unwrap();
            alone.process(t).unwrap();
        }
        with_eos.process_eos().unwrap();
        let a = with_eos.finish().unwrap();
        let b = alone.finish().unwrap();
        assert_eq!(a.reasoning, b.reasoning);
        assert_eq!(a.final_text, b.final_text);
        assert_eq!(b.final_text, Some("unterminated".to_string()));
    }
}

#[test]
fn strict_parser_rejects_a_stray_token() {
    if let Some(enc) = encoding() {
        let stray = enc.encode("hello".to_string(), Vec::new()).unwrap()[0];
        let mut parser = enc.new_stream_parser(None, true).unwrap();
        let before = parser.messages_json().unwrap();
        let state = parser.state_json().unwrap();
        assert!(parser.process(stray).is_err());
        assert_eq!(parser.messages_json().unwrap(), before);
        assert_eq!(parser.messages().unwrap().len(), 0);
        assert_eq!(parser.tokens().unwrap(), Vec::<u32>::new());
        assert_eq!(parser.state_json().unwrap(), state);
        assert_eq!(parser.current_content().unwrap(), "");
        assert_eq!(parser.last_content_delta().unwrap(), None);
    }
}

#[test]
fn a_rejected_token_is_undone_in_the_middle_of_a_message() {
    if let Some(enc) = encoding() {
        let mut tokens = enc.encode("<|start|>assistant<|channel|>final<|message|>".to_string(),
            enc.special_tokens()).unwrap();
        tokens.extend(enc.encode("so far<|end|>".to_string(), enc.special_tokens()).unwrap());
        let stray = enc.encode("hello".to_string(), Vec::new()).unwrap()[0];
        let mut parser = enc.new_stream_parser(None, true).unwrap();
        for t in tokens.iter() {
            parser.process(*t).unwrap();
        }
        let fed = parser.tokens().unwrap();
        let state = parser.state_json().unwrap();
        let done = parser.messages_json().unwrap();
        assert!(parser.process(stray).is_err());
        assert_eq!(parser.tokens().unwrap(), fed);
        assert_eq!(parser.state_json().unwrap(), state);
        assert_eq!(parser.messages_json().unwrap(), done);
        assert_eq!(parser.current_role().unwrap(), None);
        let summary = parser.finish().unwrap();
        assert_eq!(summary.final_text, Some("so far".to_string()));
    }
}

#[test]
fn a_new_parser_shows_nothing() {
    if let Some(enc) = encoding() {
        let parser = enc.new_stream_parser(Some("assistant".to_string()), false).unwrap();
        assert_eq!(parser.tokens().unwrap(), Vec::<u32>::new());
        assert_eq!(parser.messages_json().unwrap(), "[]");
        assert_eq!(parser.current_content().unwrap(), "");
        assert_eq!(parser.last_content_delta().unwrap(), None);
        assert_eq!(parser.current_channel().unwrap(), None);
        assert_eq!(parser.current_recipient().unwrap(), None);
        assert_eq!(parser.current_content_type().unwrap(), None);
        assert_eq!(parser.current_role().unwrap(), Some("assistant".to_string()));
    }
}

#[test]
fn a_second_end_of_input_is_accepted() {
    if let Some(enc) = encoding() {
        let mut parser = enc.new_stream_parser(None, true).unwrap();
        assert!(parser.process_eos().is_ok());
        let done = parser.messages_json().unwrap();
        assert!(parser.process_eos().is_ok());
        assert_eq!(parser.messages_json().unwrap(), done);
    }
}

#[test]
fn texts_that_are_too_long_are_refused() {
    if let Some(enc) = encoding() {
        let long = " ".repeat(100_001);
        assert_eq!(enc.encode(long.clone(), Vec::new()).unwrap_err().message(), "input text too long");
        assert_eq!(enc.render_conversation(long.clone(), None).unwrap_err().message(), "input text too long");
        assert_eq!(enc.render(long, None).unwrap_err().message(), "input text too long");
        assert!(enc.encode(" ".repeat(100_000), Vec::new()).is_ok());
    }
}

#[test]
fn batch_parse_summarises_an_assistant_completion() {
    if let Ok(gpt) = PicoHarmonyGptOss::new() {
        let enc = encoding().unwrap();
        let mut tokens = enc.encode("<|channel|>analysis<|message|>think<|end|>".to_string(),
            enc.special_tokens()).unwrap();
        tokens.extend(enc.encode("<|start|>assistant<|channel|>final<|message|>answer<|return|>".to_string(),
            enc.special_tokens()).unwrap());
        let summary = gpt.parse_completion_tokens(tokens.clone()).unwrap();
        assert_eq!(summary.reasoning, Some("think".to_string()));
        assert_eq!(summary.final_text, Some("answer".to_string()));
        let json = enc
            .parse_messages_from_completion_tokens(tokens, Some("assistant".to_string()), false)
            .unwrap();
        assert!(json.contains("\"think\""));
        assert!(json.contains("\"answer\""));
        let mut parser = gpt.new_stream_parser().unwrap();
        assert_eq!(parser.current_role().unwrap(), Some("assistant".to_string()));
        assert!(parser.finish().is_ok());
    }
}
