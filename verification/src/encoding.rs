//! A loaded encoding: rendering, batch parsing and the tokenizer's operations.

use vstd::prelude::*;
use crate::convert::{
    choose_role, chosen_role, opt_name, raise, role_known, set_is_outcome, text_is_outcome,
    tokens_are,
};
use crate::error::{PicoHarmonyError, err, err_text};
use crate::model::{
    HarmonyRole, MAX_TEXT_BYTES, RenderConversationConfigFfi, RenderOptionsFfi, byte_count,
    fits, role_named, text_is,
};
use crate::outside::{
    action_stop_token_list, action_stop_token_set, copy_encoding, decode_raw, decode_text,
    decoded_bytes, decoded_text, encode_text, encoded_tokens, encoding_label, encoding_name,
    json_conversation, json_message, load_gpt_oss, lossy_text, messages_json_text,
    messages_to_json, open_parser, opened, parse_completion, parsed_completion,
    parser_role_name, read_conversation, read_message, render_completion_tokens,
    render_conversation_tokens, render_message, render_training_tokens, rendered_conversation,
    rendered_for_completion, rendered_for_training, rendered_message, special_token,
    special_token_list, special_token_set, special_token_test, start_role_name,
    stop_token_list, stop_token_set, strict_text, texts, utf8_lossy, utf8_strict,
};
use crate::stream::PicoHarmonyStreamParser;

verus! {

/// A loaded encoding, selected by name.
pub struct HarmonyEncodingFfi {
    enc: openai_harmony::HarmonyEncoding,
}

/// Whether analysis messages are to be dropped: only when a configuration is
/// given and asks for it.
pub open spec fn drops_analysis(config: Option<RenderConversationConfigFfi>) -> bool {
    match config {
        Some(c) => c.auto_drop_analysis,
        None => false,
    }
}

/// Whether the conversation is said to hold function tools: only when options
/// are given and say so.
pub open spec fn has_function_tools(options: Option<RenderOptionsFfi>) -> bool {
    match options {
        Some(o) => o.conversation_has_function_tools,
        None => false,
    }
}

/// Reads the analysis setting of an optional configuration.
pub fn analysis_setting(config: &Option<RenderConversationConfigFfi>) -> (drop: bool)
    ensures
        drop == drops_analysis(*config),
{
    match config {
        Some(c) => c.auto_drop_analysis,
        None => false,
    }
}

/// Reads the function-tools setting of optional render options.
pub fn tools_setting(options: &Option<RenderOptionsFfi>) -> (tools: bool)
    ensures
        tools == has_function_tools(*options),
{
    match options {
        Some(o) => o.conversation_has_function_tools,
        None => false,
    }
}

/// The text of decoded bytes under an error mode: "strict" asks for valid
/// UTF-8 and fails otherwise; any other mode replaces what is invalid.
pub open spec fn bytes_text(data: Seq<u8>, errors: Seq<char>) -> Result<Seq<char>, Seq<char>> {
    if errors == "strict"@ {
        strict_text(data)
    } else {
        Ok(lossy_text(data))
    }
}

/// Turns decoded bytes into text under the given error mode.
pub fn text_of_bytes(data: Vec<u8>, errors: &str) -> (r: Result<String, PicoHarmonyError>)
    ensures
        text_is_outcome(r, bytes_text(data@, errors@)),
{
    if text_is(errors, "strict") {
        raise(utf8_strict(data))
    } else {
        Ok(utf8_lossy(&data))
    }
}

/// The message of the error for a text that is too long for the tokenizer.
pub open spec fn too_long() -> Seq<char> {
    "input text too long"@
}

/// The error for a text that is too long for the tokenizer.
pub fn too_long_error() -> (e: PicoHarmonyError)
    ensures
        e.text() == too_long(),
{
    err_text("input text too long")
}

/// What rendering a message given as JSON gives: a refusal of a text that is
/// too long, else the error of reading the text, or what the message renders to.
pub open spec fn message_outcome(
    enc: openai_harmony::HarmonyEncoding,
    json: Seq<char>,
    function_tools: bool,
) -> Result<Seq<u32>, Seq<char>> {
    if byte_count(json) > MAX_TEXT_BYTES {
        Err(too_long())
    } else {
        match json_message(json) {
            Err(e) => Err(e),
            Ok(m) => rendered_message(enc, m, function_tools),
        }
    }
}

/// What rendering a conversation given as JSON gives: the error of reading
/// the text, or what the messages render to.
pub open spec fn conversation_outcome(
    enc: openai_harmony::HarmonyEncoding,
    json: Seq<char>,
    drop_analysis: bool,
) -> Result<Seq<u32>, Seq<char>> {
    if byte_count(json) > MAX_TEXT_BYTES {
        Err(too_long())
    } else {
        match json_conversation(json) {
            Err(e) => Err(e),
            Ok(ms) => rendered_conversation(enc, ms, drop_analysis),
        }
    }
}

/// What rendering a conversation as a training target gives.
pub open spec fn training_outcome(
    enc: openai_harmony::HarmonyEncoding,
    json: Seq<char>,
    drop_analysis: bool,
) -> Result<Seq<u32>, Seq<char>> {
    if byte_count(json) > MAX_TEXT_BYTES {
        Err(too_long())
    } else {
        match json_conversation(json) {
            Err(e) => Err(e),
            Ok(ms) => rendered_for_training(enc, ms, drop_analysis),
        }
    }
}

/// What rendering a conversation for completion gives: the error of reading
/// the text, else "Unknown role" for a name that is no role's, else what the
/// messages and the open header render to.
pub open spec fn completion_outcome(
    enc: openai_harmony::HarmonyEncoding,
    json: Seq<char>,
    next_turn_role: Seq<char>,
    drop_analysis: bool,
) -> Result<Seq<u32>, Seq<char>> {
    if byte_count(json) > MAX_TEXT_BYTES {
        Err(too_long())
    } else {
        match json_conversation(json) {
            Err(e) => Err(e),
            Ok(ms) => match role_named(next_turn_role) {
                None => Err("Unknown role"@),
                Some(role) => rendered_for_completion(enc, ms, role, drop_analysis),
            },
        }
    }
}

/// What batch parsing to JSON gives: the error of the parse, or the JSON
/// text (or error) of the parsed messages.
pub open spec fn completion_json(
    parsed: Result<Seq<openai_harmony::chat::Message>, Seq<char>>,
) -> Result<Seq<char>, Seq<char>> {
    match parsed {
        Err(e) => Err(e),
        Ok(ms) => messages_json_text(ms),
    }
}

/// The plain form of a text result.
pub open spec fn text_result(r: Result<String, PicoHarmonyError>) -> Result<Seq<char>, Seq<char>> {
    match r {
        Ok(s) => Ok(s@),
        Err(e) => Err(e.text()),
    }
}

impl HarmonyEncodingFfi {
    /// The encoding that this value holds.
    pub closed spec fn encoding(&self) -> openai_harmony::HarmonyEncoding {
        self.enc
    }

    /// What a loader's answer becomes: a value that holds the loaded
    /// encoding, or an error that carries the loader's message.
    pub open spec fn holds_loaded(
        raw: Result<openai_harmony::HarmonyEncoding, String>,
        r: Result<Self, PicoHarmonyError>,
    ) -> bool {
        match raw {
            Ok(enc) => r is Ok && r->Ok_0.encoding() == enc,
            Err(e) => r == Err::<Self, PicoHarmonyError>(PicoHarmonyError::Msg(e)),
        }
    }

    /// Turns a loader's answer into the value: it succeeds exactly when the
    /// loader did, holds the encoding that was loaded, and keeps the message
    /// of a failure.
    pub fn from_loaded(raw: Result<openai_harmony::HarmonyEncoding, String>) -> (r: Result<
        Self,
        PicoHarmonyError,
    >)
        ensures
            Self::holds_loaded(raw, r),
            r is Ok <==> raw is Ok,
    {
        match raw {
            Ok(enc) => Ok(HarmonyEncodingFfi { enc }),
            Err(e) => Err(err(e)),
        }
    }

    /// Loads the encoding called `name`. The only name is "HarmonyGptOss": any
    /// other is refused with "unknown encoding name". For that name the result
    /// is what `from_loaded` makes of the loader's answer; loading may fail.
    pub fn new(name: String) -> (r: Result<Self, PicoHarmonyError>)
        ensures
            name@ != "HarmonyGptOss"@ ==> r is Err && r->Err_0.text() == "unknown encoding name"@,
            name@ == "HarmonyGptOss"@ ==> exists|raw: Result<openai_harmony::HarmonyEncoding, String>|
                #[trigger] Self::holds_loaded(raw, r) && (raw is Ok ==> encoding_label(raw->Ok_0)
                    == "HarmonyGptOss"@),
            r is Ok ==> name@ == "HarmonyGptOss"@ && encoding_label(r->Ok_0.encoding()) == name@,
    {
        if !text_is(name.as_str(), "HarmonyGptOss") {
            return Err(err_text("unknown encoding name"));
        }
        let raw = load_gpt_oss();
        let ghost answer = raw;
        let r = Self::from_loaded(raw);
        assert(Self::holds_loaded(answer, r));
        r
    }

    /// The name of the encoding.
    pub fn name(&self) -> (s: String)
        ensures
            s@ == encoding_label(self.encoding()),
    {
        encoding_name(&self.enc)
    }

    /// The tokenizer's special tokens, each once.
    pub fn special_tokens(&self) -> (out: Vec<String>)
        ensures
            texts(out@).to_set() == special_token_set(self.encoding()),
            texts(out@).no_duplicates(),
    {
        special_token_list(&self.enc)
    }

    /// Renders a conversation and the open header of the next turn: the token
    /// prefix from which a model continues. The conversation is read first,
    /// then the role's name; a name that is no role's gives "Unknown role".
    pub fn render_conversation_for_completion(
        &self,
        conversation_json: String,
        next_turn_role: String,
        config: Option<RenderConversationConfigFfi>,
    ) -> (r: Result<Vec<u32>, PicoHarmonyError>)
        ensures
            tokens_are(
                r,
                completion_outcome(
                    self.encoding(),
                    conversation_json@,
                    next_turn_role@,
                    drops_analysis(config),
                ),
            ),
    {
        let drop = analysis_setting(&config);
        if !fits(conversation_json.as_str()) {
            return Err(too_long_error());
        }
        match read_conversation(conversation_json.as_str()) {
            Err(e) => Err(err(e)),
            Ok(messages) => match HarmonyRole::from_name(next_turn_role.as_str()) {
                None => Err(err_text("Unknown role")),
                Some(role) => raise(render_completion_tokens(&self.enc, &messages, role, drop)),
            },
        }
    }

    /// Renders every message of a conversation, in order.
    pub fn render_conversation(
        &self,
        conversation_json: String,
        config: Option<RenderConversationConfigFfi>,
    ) -> (r: Result<Vec<u32>, PicoHarmonyError>)
        ensures
            tokens_are(
                r,
                conversation_outcome(self.encoding(), conversation_json@, drops_analysis(config)),
            ),
    {
        let drop = analysis_setting(&config);
        if !fits(conversation_json.as_str()) {
            return Err(too_long_error());
        }
        match read_conversation(conversation_json.as_str()) {
            Err(e) => Err(err(e)),
            Ok(messages) => raise(render_conversation_tokens(&self.enc, &messages, drop)),
        }
    }

    /// Renders a conversation as a training target.
    pub fn render_conversation_for_training(
        &self,
        conversation_json: String,
        config: Option<RenderConversationConfigFfi>,
    ) -> (r: Result<Vec<u32>, PicoHarmonyError>)
        ensures
            tokens_are(
                r,
                training_outcome(self.encoding(), conversation_json@, drops_analysis(config)),
            ),
    {
        let drop = analysis_setting(&config);
        if !fits(conversation_json.as_str()) {
            return Err(too_long_error());
        }
        match read_conversation(conversation_json.as_str()) {
            Err(e) => Err(err(e)),
            Ok(messages) => raise(render_training_tokens(&self.enc, &messages, drop)),
        }
    }

    /// Renders a single message.
    pub fn render(&self, message_json: String, render_options: Option<RenderOptionsFfi>) -> (r:
        Result<Vec<u32>, PicoHarmonyError>)
        ensures
            tokens_are(
                r,
                message_outcome(self.encoding(), message_json@, has_function_tools(render_options)),
            ),
    {
        let tools = tools_setting(&render_options);
        if !fits(message_json.as_str()) {
            return Err(too_long_error());
        }
        match read_message(message_json.as_str()) {
            Err(e) => Err(err(e)),
            Ok(message) => raise(render_message(&self.enc, &message, tools)),
        }
    }

    /// Parses a whole completion and returns the messages as JSON. A role name
    /// that is no role's is refused first, with "Unknown role". Batch parsing is
    /// always strict: `strict` is accepted and has no effect.
    pub fn parse_messages_from_completion_tokens(
        &self,
        tokens: Vec<u32>,
        role: Option<String>,
        strict: bool,
    ) -> (r: Result<String, PicoHarmonyError>)
        ensures
            !role_known(opt_name(role)) ==> r is Err && r->Err_0.text() == "Unknown role"@,
            role_known(opt_name(role)) ==> text_result(r) == completion_json(
                parsed_completion(self.encoding(), tokens@, chosen_role(opt_name(role))),
            ),
    {
        let parsed_role = match choose_role(&role) {
            Ok(p) => p,
            Err(e) => {
                return Err(e);
            },
        };
        match parse_completion(&self.enc, tokens, parsed_role) {
            Err(e) => Err(err(e)),
            Ok(ms) => {
raise(messages_to_json(&ms))
            },
        }
    }

    /// Decodes tokens to text; fails if the bytes are not valid UTF-8.
    pub fn decode_utf8(&self, tokens: Vec<u32>) -> (r: Result<String, PicoHarmonyError>)
        ensures
            text_is_outcome(r, decoded_text(self.encoding(), tokens@)),
            match decoded_bytes(self.encoding(), tokens@) {
                Ok(bytes) => match strict_text(bytes) {
                    Ok(text) => r is Ok && r->Ok_0@ == text,
                    Err(_) => r is Err,
                },
                Err(_) => r is Err,
            },
    {
        raise(decode_text(&self.enc, tokens))
    }

    /// Decodes tokens to bytes and reads them as text under the error mode
    /// `errors`: "strict" fails on invalid UTF-8, any other mode replaces it.
    pub fn decode_bytes(&self, tokens: Vec<u32>, errors: String) -> (r: Result<
        String,
        PicoHarmonyError,
    >)
        ensures
            text_is_outcome(
                r,
                match decoded_bytes(self.encoding(), tokens@) {
                    Ok(data) => bytes_text(data, errors@),
                    Err(e) => Err(e),
                },
            ),
    {
        match decode_raw(&self.enc, tokens) {
            Err(e) => Err(err(e)),
            Ok(data) => text_of_bytes(data, errors.as_str()),
        }
    }

    /// Encodes text, reading the listed special tokens as such. A text that
    /// is too long for the tokenizer is refused; any other is encoded.
    pub fn encode(&self, text: String, allowed_special: Vec<String>) -> (r: Result<
        Vec<u32>,
        PicoHarmonyError,
    >)
        ensures
            byte_count(text@) > MAX_TEXT_BYTES ==> r is Err && r->Err_0.text() == too_long(),
            byte_count(text@) <= MAX_TEXT_BYTES ==> r is Ok && r->Ok_0@ == encoded_tokens(
                self.encoding(),
                text@,
                texts(allowed_special@).to_set(),
            ),
    {
        if !fits(text.as_str()) {
            return Err(too_long_error());
        }
        Ok(encode_text(&self.enc, text.as_str(), &allowed_special))
    }

    /// Whether `token` is a special token.
    pub fn is_special_token(&self, token: u32) -> (b: bool)
        ensures
            b == special_token(self.encoding(), token),
    {
        special_token_test(&self.enc, token)
    }

    /// The token ids that end generation, each once.
    pub fn stop_tokens(&self) -> (r: Result<Vec<u32>, PicoHarmonyError>)
        ensures
            set_is_outcome(r, stop_token_set(self.encoding())),
    {
        raise(stop_token_list(&self.enc))
    }

    /// The token ids that end an assistant turn that calls for action, each
    /// once; every one of them is a stop token.
    pub fn stop_tokens_for_assistant_actions(&self) -> (r: Result<Vec<u32>, PicoHarmonyError>)
        ensures
            set_is_outcome(r, action_stop_token_set(self.encoding())),
            (r is Ok && stop_token_set(self.encoding()) is Ok) ==> r->Ok_0@.to_set().subset_of(
                stop_token_set(self.encoding())->Ok_0,
            ),
    {
        raise(action_stop_token_list(&self.enc))
    }

    /// Opens a streaming parser that starts with `role`, if one is given, in
    /// strict or lenient mode. A role name that is no role's is refused with
    /// "Unknown role"; after that the parser opens exactly when the encoding
    /// has its stop tokens. What opens is the parser that the encoding, the
    /// role and the mode determine; it is fresh and shows the start role.
    pub fn new_stream_parser(&self, role: Option<String>, strict: bool) -> (r: Result<
        PicoHarmonyStreamParser,
        PicoHarmonyError,
    >)
        ensures
            !role_known(opt_name(role)) ==> r is Err && r->Err_0.text() == "Unknown role"@,
            role_known(opt_name(role)) ==> (r is Ok <==> stop_token_set(self.encoding()) is Ok),
            r is Ok ==> {
                &&& r->Ok_0.wf()
                &&& r->Ok_0.fresh()
                &&& r->Ok_0.parser() == opened(
                    self.encoding(),
                    chosen_role(opt_name(role)),
                    strict,
                )
                &&& parser_role_name(r->Ok_0.parser()) == start_role_name(
                    chosen_role(opt_name(role)),
                )
            },
    {
        let parsed_role = match choose_role(&role) {
            Ok(p) => p,
            Err(e) => {
                return Err(e);
            },
        };
        match open_parser(&self.enc, parsed_role, strict) {
            Ok(p) => Ok(
                PicoHarmonyStreamParser::holding(p, copy_encoding(&self.enc), parsed_role, strict),
            ),
            Err(e) => Err(err(e)),
        }
    }
}

/// Loads the encoding called `name`.
pub fn load_harmony_encoding_ffi(name: String) -> (r: Result<HarmonyEncodingFfi, PicoHarmonyError>)
    ensures
        name@ != "HarmonyGptOss"@ ==> r is Err && r->Err_0.text() == "unknown encoding name"@,
        name@ == "HarmonyGptOss"@ ==> exists|raw: Result<openai_harmony::HarmonyEncoding, String>|
            #[trigger] HarmonyEncodingFfi::holds_loaded(raw, r) && (raw is Ok ==> encoding_label(
                raw->Ok_0,
            ) == "HarmonyGptOss"@),
        r is Ok ==> name@ == "HarmonyGptOss"@ && encoding_label(r->Ok_0.encoding()) == name@,
{
    HarmonyEncodingFfi::new(name)
}

} // verus!
