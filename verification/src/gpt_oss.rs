//! The "HarmonyGptOss" encoding with an assistant's completion in mind.

use vstd::prelude::*;
use crate::aggregate::{aggregate, extract_reasoning_final};
use crate::convert::convert_messages;
use crate::error::{PicoHarmonyError, err};
use crate::model::{HarmonyRole, ParsedAssistant};
use crate::outside::{
    copy_encoding, encoding_label, held_messages, load_gpt_oss, open_parser, opened,
    parse_completion, parsed_completion, parser_role_name, start_role_name, stop_token_set,
};
use crate::stream::PicoHarmonyStreamParser;

verus! {

/// The "HarmonyGptOss" encoding, parsing what an assistant wrote.
pub struct PicoHarmonyGptOss {
    enc: openai_harmony::HarmonyEncoding,
}

impl PicoHarmonyGptOss {
    /// The encoding that this value holds.
    pub closed spec fn encoding(&self) -> openai_harmony::HarmonyEncoding {
        self.enc
    }

    /// Loads the encoding. Whether loading succeeds is decided outside the
    /// program. The result is what `from_loaded` makes of the loader's answer:
    /// the encoding that came back, which is "HarmonyGptOss", or the loader's
    /// error, its message kept.
    pub fn new() -> (r: Result<Self, PicoHarmonyError>)
        ensures
            exists|raw: Result<openai_harmony::HarmonyEncoding, String>|
                #[trigger] Self::holds_loaded(raw, r) && (raw is Ok ==> encoding_label(raw->Ok_0)
                    == "HarmonyGptOss"@),
            r is Ok ==> encoding_label(r->Ok_0.encoding()) == "HarmonyGptOss"@,
    {
        let raw = load_gpt_oss();
        let ghost answer = raw;
        let r = Self::from_loaded(raw);
        assert(Self::holds_loaded(answer, r));
        r
    }

    /// What a loader's answer becomes: a value that holds the loaded
    /// encoding, or an error that carries the loader's message.
    pub open spec fn holds_loaded(
        raw: Result<openai_harmony::HarmonyEncoding, String>,
        r: Result<Self, PicoHarmonyError>,
    ) -> bool {
        match raw {
            Ok(enc) => r is Ok && r->Ok_0.encoding() == enc,
            Err(e) => r == Err::<Self, PicoHarmonyError>(PicoHarmonyError::Msg(e)),
        }
    }

    /// Turns a loader's answer into the value: it succeeds exactly when the
    /// loader did, holds the encoding that was loaded, and keeps the message
    /// of a failure.
    pub fn from_loaded(raw: Result<openai_harmony::HarmonyEncoding, String>) -> (r: Result<
        Self,
        PicoHarmonyError,
    >)
        ensures
            Self::holds_loaded(raw, r),
            r is Ok <==> raw is Ok,
    {
        match raw {
            Ok(enc) => Ok(PicoHarmonyGptOss { enc }),
            Err(e) => Err(err(e)),
        }
    }

    /// Parses all tokens of an assistant's completion and summarises the
    /// messages: the parse's error if it fails, the summary of the parsed
    /// messages otherwise.
    pub fn parse_completion_tokens(&self, token_ids: Vec<u32>) -> (r: Result<
        ParsedAssistant,
        PicoHarmonyError,
    >)
        ensures
            match parsed_completion(self.encoding(), token_ids@, Some(HarmonyRole::Assistant)) {
                Ok(ms) => r is Ok && r->Ok_0@ == aggregate(held_messages(ms)),
                Err(e) => r is Err && r->Err_0.text() == e,
            },
    {
        match parse_completion(&self.enc, token_ids, Some(HarmonyRole::Assistant)) {
            Err(e) => Err(err(e)),
            Ok(ms) => {
                let msgs = convert_messages(&ms);
                Ok(extract_reasoning_final(msgs.as_slice()))
            },
        }
    }

    /// Opens a strict streaming parser that starts with the assistant's role.
    /// It opens exactly when the encoding has its stop tokens.
    pub fn new_stream_parser(&self) -> (r: Result<PicoHarmonyStreamParser, PicoHarmonyError>)
        ensures
            r is Ok <==> stop_token_set(self.encoding()) is Ok,
            r is Ok ==> {
                &&& r->Ok_0.wf()
                &&& r->Ok_0.fresh()
                &&& r->Ok_0.parser() == opened(
                    self.encoding(),
                    Some(HarmonyRole::Assistant),
                    true,
                )
                &&& parser_role_name(r->Ok_0.parser()) == start_role_name(
                    Some(HarmonyRole::Assistant),
                )
            },
    {
        match open_parser(&self.enc, Some(HarmonyRole::Assistant), true) {
            Ok(p) => Ok(
                PicoHarmonyStreamParser::holding(
                    p,
                    copy_encoding(&self.enc),
                    Some(HarmonyRole::Assistant),
                    true,
                ),
            ),
            Err(e) => Err(err(e)),
        }
    }
}

} // verus!
