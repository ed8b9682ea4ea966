//! The trusted boundary: the outside types that the library carries, the names
//! for what the outside functions return, and one small wrapper per outside
//! function. Nothing in this file is proved; each contract restates what the
//! called function's source shows.

use vstd::prelude::*;
use crate::model::{ContentPart, HarmonyRole, MAX_TEXT_BYTES, MessageView, byte_count, opt_text};

verus! {

#[verifier::external_type_specification]
#[verifier::external_body]
pub struct ExHarmonyEncoding(openai_harmony::HarmonyEncoding);

#[verifier::external_type_specification]
#[verifier::external_body]
pub struct ExStreamableParser(openai_harmony::StreamableParser);

#[verifier::external_type_specification]
#[verifier::external_body]
pub struct ExOutsideMessage(openai_harmony::chat::Message);

#[verifier::external_type_specification]
#[verifier::external_body]
pub struct ExOutsideRole(openai_harmony::chat::Role);

/// Whether a wrapper's raw result is the named outcome: the same tokens, or the
/// same error text.
pub open spec fn tokens_match(r: Result<Vec<u32>, String>, named: Result<Seq<u32>, Seq<char>>) -> bool {
    match r {
        Ok(t) => named == Ok::<Seq<u32>, Seq<char>>(t@),
        Err(e) => named == Err::<Seq<u32>, Seq<char>>(e@),
    }
}

/// Whether a wrapper's raw result is the named outcome: the same text, or the
/// same error text.
pub open spec fn text_match(r: Result<String, String>, named: Result<Seq<char>, Seq<char>>) -> bool {
    match r {
        Ok(t) => named == Ok::<Seq<char>, Seq<char>>(t@),
        Err(e) => named == Err::<Seq<char>, Seq<char>>(e@),
    }
}

/// The characters of each string of a list, in order.
pub open spec fn texts(v: Seq<String>) -> Seq<Seq<char>> {
    v.map_values(|s: String| s@)
}

// ---------------------------------------------------------------- encodings

/// The name that an encoding carries.
pub uninterp spec fn encoding_label(enc: openai_harmony::HarmonyEncoding) -> Seq<char>;

/// `openai_harmony::load_harmony_encoding` for `HarmonyEncodingName::HarmonyGptOss`.
/// Loading reads the vocabulary from outside the program, so nothing is said of
/// when it succeeds; an encoding that was loaded carries the name "HarmonyGptOss".
#[verifier::external_body]
pub(crate) fn load_gpt_oss() -> (r: Result<openai_harmony::HarmonyEncoding, String>)
    ensures
        r is Ok ==> encoding_label(r->Ok_0) == "HarmonyGptOss"@,
{
    openai_harmony::load_harmony_encoding(openai_harmony::HarmonyEncodingName::HarmonyGptOss)
        .map_err(|e| e.to_string())
}

/// `Clone::clone` of an encoding, which the outside crate derives: the copy
/// is the same encoding.
#[verifier::external_body]
pub(crate) fn copy_encoding(enc: &openai_harmony::HarmonyEncoding) -> (c:
    openai_harmony::HarmonyEncoding)
    ensures
        c == *enc,
{
    enc.clone()
}

/// `HarmonyEncoding::name`: the name the encoding carries, copied out.
#[verifier::external_body]
pub(crate) fn encoding_name(enc: &openai_harmony::HarmonyEncoding) -> (s: String)
    ensures
        s@ == encoding_label(*enc),
{
    enc.name().to_string()
}

/// The special tokens of an encoding's tokenizer, as a set of texts.
pub uninterp spec fn special_token_set(enc: openai_harmony::HarmonyEncoding) -> Set<Seq<char>>;

/// `CoreBPE::special_tokens` on the encoding's tokenizer. The outside function
/// returns a hash set, so the list holds each special token once, in no stated order.
#[verifier::external_body]
pub(crate) fn special_token_list(enc: &openai_harmony::HarmonyEncoding) -> (out: Vec<String>)
    ensures
        texts(out@).to_set() == special_token_set(*enc),
        texts(out@).no_duplicates(),
{
    enc.tokenizer().special_tokens().into_iter().map(str::to_string).collect()
}

/// The number of bytes of the longest string that a list of messages holds.
pub uninterp spec fn longest_text(ms: Seq<openai_harmony::chat::Message>) -> nat;

/// The message that a JSON text holds, or the error text.
pub uninterp spec fn json_message(json: Seq<char>) -> Result<
    openai_harmony::chat::Message,
    Seq<char>,
>;

/// `serde_json::from_str` for one message. A string read from JSON is no
/// longer than the JSON text it was read from.
#[verifier::external_body]
pub(crate) fn read_message(json: &str) -> (r: Result<openai_harmony::chat::Message, String>)
    ensures
        r is Ok ==> longest_text(seq![r->Ok_0]) <= byte_count(json@),
        match r {
            Ok(m) => json_message(json@) == Ok::<openai_harmony::chat::Message, Seq<char>>(m),
            Err(e) => json_message(json@) == Err::<openai_harmony::chat::Message, Seq<char>>(e@),
        },
{
    serde_json::from_str(json).map_err(|e| e.to_string())
}

/// The messages of the conversation that a JSON text holds, in order, or the
/// error text.
pub uninterp spec fn json_conversation(json: Seq<char>) -> Result<
    Seq<openai_harmony::chat::Message>,
    Seq<char>,
>;

/// `serde_json::from_str` for a conversation, whose field `messages` is handed
/// back. A string read from JSON is no longer than the JSON text it was read from.
#[verifier::external_body]
pub(crate) fn read_conversation(json: &str) -> (r: Result<
    Vec<openai_harmony::chat::Message>,
    String,
>)
    ensures
        r is Ok ==> longest_text(r->Ok_0@) <= byte_count(json@),
        match r {
            Ok(ms) => json_conversation(json@) == Ok::<
                Seq<openai_harmony::chat::Message>,
                Seq<char>,
            >(ms@),
            Err(e) => json_conversation(json@) == Err::<
                Seq<openai_harmony::chat::Message>,
                Seq<char>,
            >(e@),
        },
{
    serde_json::from_str::<openai_harmony::chat::Conversation>(json).map(|c| c.messages).map_err(
        |e| e.to_string(),
    )
}

/// The tokens of a single message, or the error text.
pub uninterp spec fn rendered_message(
    enc: openai_harmony::HarmonyEncoding,
    message: openai_harmony::chat::Message,
    function_tools: bool,
) -> Result<Seq<u32>, Seq<char>>;

/// `HarmonyEncoding::render`, a function of its arguments whose result is
/// named, not described. The tokenizer panics on a text whose white-space
/// runs overflow its pattern engine; the bound on the messages' strings
/// keeps every text it is handed well below that. The options type cannot be written by name, so its
/// value starts from `Default` (no function tools) and the flag is set where
/// it is asked for.
#[verifier::external_body]
pub(crate) fn render_message(
    enc: &openai_harmony::HarmonyEncoding,
    message: &openai_harmony::chat::Message,
    function_tools: bool,
) -> (r: Result<Vec<u32>, String>)
    requires
        longest_text(seq![*message]) <= MAX_TEXT_BYTES,
    ensures
        tokens_match(r, rendered_message(*enc, *message, function_tools)),
{
    let mut opts = Default::default();
    if !function_tools {
        return enc.render(message, Some(&opts)).map_err(|e| e.to_string());
    }
    opts.conversation_has_function_tools = true;
    enc.render(message, Some(&opts)).map_err(|e| e.to_string())
}

/// The tokens of a conversation, or the error text.
pub uninterp spec fn rendered_conversation(
    enc: openai_harmony::HarmonyEncoding,
    messages: Seq<openai_harmony::chat::Message>,
    drop_analysis: bool,
) -> Result<Seq<u32>, Seq<char>>;

/// `HarmonyEncoding::render_conversation`, with the default configuration
/// (which drops analysis) when `drop_analysis` is set and with none otherwise.
#[verifier::external_body]
pub(crate) fn render_conversation_tokens(
    enc: &openai_harmony::HarmonyEncoding,
    messages: &Vec<openai_harmony::chat::Message>,
    drop_analysis: bool,
) -> (r: Result<Vec<u32>, String>)
    requires
        longest_text(messages@) <= MAX_TEXT_BYTES,
    ensures
        tokens_match(r, rendered_conversation(*enc, messages@, drop_analysis)),
{
    let cfg = Default::default();
    enc.render_conversation(messages, Some(&cfg).filter(|_| drop_analysis)).map_err(
        |e| e.to_string(),
    )
}

/// The tokens of a conversation rendered as a training target, or the error text.
pub uninterp spec fn rendered_for_training(
    enc: openai_harmony::HarmonyEncoding,
    messages: Seq<openai_harmony::chat::Message>,
    drop_analysis: bool,
) -> Result<Seq<u32>, Seq<char>>;

/// `HarmonyEncoding::render_conversation_for_training`, configured as above.
#[verifier::external_body]
pub(crate) fn render_training_tokens(
    enc: &openai_harmony::HarmonyEncoding,
    messages: &Vec<openai_harmony::chat::Message>,
    drop_analysis: bool,
) -> (r: Result<Vec<u32>, String>)
    requires
        longest_text(messages@) <= MAX_TEXT_BYTES,
    ensures
        tokens_match(r, rendered_for_training(*enc, messages@, drop_analysis)),
{
    let cfg = Default::default();
    enc.render_conversation_for_training(messages, Some(&cfg).filter(|_| drop_analysis)).map_err(
        |e| e.to_string(),
    )
}

/// The tokens of a conversation followed by the open header of the next turn,
/// or the error text.
pub uninterp spec fn rendered_for_completion(
    enc: openai_harmony::HarmonyEncoding,
    messages: Seq<openai_harmony::chat::Message>,
    next_turn_role: HarmonyRole,
    drop_analysis: bool,
) -> Result<Seq<u32>, Seq<char>>;

/// `HarmonyEncoding::render_conversation_for_completion`, configured as above.
#[verifier::external_body]
pub(crate) fn render_completion_tokens(
    enc: &openai_harmony::HarmonyEncoding,
    messages: &Vec<openai_harmony::chat::Message>,
    next_turn_role: HarmonyRole,
    drop_analysis: bool,
) -> (r: Result<Vec<u32>, String>)
    requires
        longest_text(messages@) <= MAX_TEXT_BYTES,
    ensures
        tokens_match(r, rendered_for_completion(*enc, messages@, next_turn_role, drop_analysis)),
{
    let cfg = Some(Default::default()).filter(|_| drop_analysis);
    let role = match next_turn_role {
        HarmonyRole::User => openai_harmony::chat::Role::User,
        HarmonyRole::Assistant => openai_harmony::chat::Role::Assistant,
        HarmonyRole::System => openai_harmony::chat::Role::System,
        HarmonyRole::Developer => openai_harmony::chat::Role::Developer,
        HarmonyRole::Tool => openai_harmony::chat::Role::Tool,
    };
    enc.render_conversation_for_completion(messages, role, cfg.as_ref()).map_err(
        |e| e.to_string(),
    )
}

// ---------------------------------------------------------------- tokenizer

/// The text that a token list decodes to, or the error text.
pub uninterp spec fn decoded_text(enc: openai_harmony::HarmonyEncoding, tokens: Seq<u32>) -> Result<
    Seq<char>,
    Seq<char>,
>;

/// `CoreBPE::decode_utf8` on the encoding's tokenizer: `decode_bytes`, then
/// the bytes read as strict UTF-8; it succeeds exactly when both do.
#[verifier::external_body]
pub(crate) fn decode_text(enc: &openai_harmony::HarmonyEncoding, tokens: Vec<u32>) -> (r: Result<
    String,
    String,
>)
    ensures
        text_match(r, decoded_text(*enc, tokens@)),
        match decoded_bytes(*enc, tokens@) {
            Ok(bytes) => match strict_text(bytes) {
                Ok(text) => r is Ok && r->Ok_0@ == text,
                Err(_) => r is Err,
            },
            Err(_) => r is Err,
        },
{
    enc.tokenizer().decode_utf8(tokens).map_err(|e| e.to_string())
}

/// The bytes that a token list decodes to, or the error text.
pub uninterp spec fn decoded_bytes(enc: openai_harmony::HarmonyEncoding, tokens: Seq<u32>) -> Result<
    Seq<u8>,
    Seq<char>,
>;

/// `CoreBPE::decode_bytes` on the encoding's tokenizer.
#[verifier::external_body]
pub(crate) fn decode_raw(enc: &openai_harmony::HarmonyEncoding, tokens: Vec<u32>) -> (r: Result<
    Vec<u8>,
    String,
>)
    ensures
        match r {
            Ok(b) => decoded_bytes(*enc, tokens@) == Ok::<Seq<u8>, Seq<char>>(b@),
            Err(e) => decoded_bytes(*enc, tokens@) == Err::<Seq<u8>, Seq<char>>(e@),
        },
{
    enc.tokenizer().decode_bytes(tokens).map_err(|e| e.to_string())
}

/// The text that bytes hold when they are valid UTF-8, or the error text.
pub uninterp spec fn strict_text(bytes: Seq<u8>) -> Result<Seq<char>, Seq<char>>;

/// `String::from_utf8`.
#[verifier::external_body]
pub(crate) fn utf8_strict(bytes: Vec<u8>) -> (r: Result<String, String>)
    ensures
        text_match(r, strict_text(bytes@)),
{
    String::from_utf8(bytes).map_err(|e| e.to_string())
}

/// The text that bytes hold, each invalid run replaced by the replacement character.
pub uninterp spec fn lossy_text(bytes: Seq<u8>) -> Seq<char>;

/// `String::from_utf8_lossy`.
#[verifier::external_body]
pub(crate) fn utf8_lossy(bytes: &Vec<u8>) -> (s: String)
    ensures
        s@ == lossy_text(bytes@),
{
    String::from_utf8_lossy(bytes).to_string()
}

/// The tokens of a text, with the special tokens in `allowed` read as such.
pub uninterp spec fn encoded_tokens(
    enc: openai_harmony::HarmonyEncoding,
    text: Seq<char>,
    allowed: Set<Seq<char>>,
) -> Seq<u32>;

/// `CoreBPE::encode` on the encoding's tokenizer, which takes the allowed
/// special tokens as a set; the first part of its result is handed back. It
/// panics on a text whose white-space runs overflow its pattern engine, which
/// the bound on the text rules out.
#[verifier::external_body]
pub(crate) fn encode_text(
    enc: &openai_harmony::HarmonyEncoding,
    text: &str,
    allowed_special: &Vec<String>,
) -> (out: Vec<u32>)
    requires
        byte_count(text@) <= MAX_TEXT_BYTES,
    ensures
        out@ == encoded_tokens(*enc, text@, texts(allowed_special@).to_set()),
{
    let allowed_set = allowed_special.iter().map(|s| s.as_str()).collect();
    enc.tokenizer().encode(text, &allowed_set).0
}

/// Whether a token id is one of the tokenizer's special tokens.
pub uninterp spec fn special_token(enc: openai_harmony::HarmonyEncoding, token: u32) -> bool;

/// `CoreBPE::is_special_token` on the encoding's tokenizer.
#[verifier::external_body]
pub(crate) fn special_token_test(enc: &openai_harmony::HarmonyEncoding, token: u32) -> (b: bool)
    ensures
        b == special_token(*enc, token),
{
    enc.tokenizer().is_special_token(token)
}

/// The token ids that end generation, or the error text.
pub uninterp spec fn stop_token_set(enc: openai_harmony::HarmonyEncoding) -> Result<
    Set<u32>,
    Seq<char>,
>;

/// Whether a raw list of token ids is the named set: each id of it once, in no
/// stated order, or the same error text.
pub open spec fn set_match(r: Result<Vec<u32>, String>, named: Result<Set<u32>, Seq<char>>) -> bool {
    match r {
        Ok(t) => named == Ok::<Set<u32>, Seq<char>>(t@.to_set()) && t@.no_duplicates(),
        Err(e) => named == Err::<Set<u32>, Seq<char>>(e@),
    }
}

/// `HarmonyEncoding::stop_tokens`, whose hash set is handed back as a list.
#[verifier::external_body]
pub(crate) fn stop_token_list(enc: &openai_harmony::HarmonyEncoding) -> (r: Result<Vec<u32>, String>)
    ensures
        set_match(r, stop_token_set(*enc)),
{
    enc.stop_tokens().map(|s| s.into_iter().collect()).map_err(|e| e.to_string())
}

/// The token ids that end an assistant turn that calls for action, or the error text.
pub uninterp spec fn action_stop_token_set(enc: openai_harmony::HarmonyEncoding) -> Result<
    Set<u32>,
    Seq<char>,
>;

/// `HarmonyEncoding::stop_tokens_for_assistant_actions`, as a list. The markers
/// it renders are among those that `stop_tokens` renders, so its ids are
/// among the stop tokens.
#[verifier::external_body]
pub(crate) fn action_stop_token_list(enc: &openai_harmony::HarmonyEncoding) -> (r: Result<
    Vec<u32>,
    String,
>)
    ensures
        set_match(r, action_stop_token_set(*enc)),
        (r is Ok && stop_token_set(*enc) is Ok) ==> r->Ok_0@.to_set().subset_of(
            stop_token_set(*enc)->Ok_0,
        ),
{
    enc.stop_tokens_for_assistant_actions().map(|s| s.into_iter().collect()).map_err(
        |e| e.to_string(),
    )
}

// ---------------------------------------------------------------- messages

/// The value of an outside message: its role, header fields and content.
pub uninterp spec fn held_message(m: openai_harmony::chat::Message) -> MessageView;

/// The values of a list of outside messages, in order.
pub open spec fn held_messages(ms: Seq<openai_harmony::chat::Message>) -> Seq<MessageView> {
    ms.map_values(|m: openai_harmony::chat::Message| held_message(m))
}

/// Reads the field `author.role` of an outside message, variant for variant.
#[verifier::external_body]
pub(crate) fn message_role(m: &openai_harmony::chat::Message) -> (r: HarmonyRole)
    ensures
        r == held_message(*m).role,
{
    match m.author.role {
        openai_harmony::chat::Role::User => HarmonyRole::User,
        openai_harmony::chat::Role::Assistant => HarmonyRole::Assistant,
        openai_harmony::chat::Role::System => HarmonyRole::System,
        openai_harmony::chat::Role::Developer => HarmonyRole::Developer,
        openai_harmony::chat::Role::Tool => HarmonyRole::Tool,
    }
}

/// Copies the field `channel` of an outside message.
#[verifier::external_body]
pub(crate) fn message_channel(m: &openai_harmony::chat::Message) -> (r: Option<String>)
    ensures
        opt_text(r) == held_message(*m).channel,
{
    m.channel.clone()
}

/// Copies the field `recipient` of an outside message.
#[verifier::external_body]
pub(crate) fn message_recipient(m: &openai_harmony::chat::Message) -> (r: Option<String>)
    ensures
        opt_text(r) == held_message(*m).recipient,
{
    m.recipient.clone()
}

/// Copies the field `content_type` of an outside message.
#[verifier::external_body]
pub(crate) fn message_content_type(m: &openai_harmony::chat::Message) -> (r: Option<String>)
    ensures
        opt_text(r) == held_message(*m).content_type,
{
    m.content_type.clone()
}

/// Reads the field `content` of an outside message, part for part: a text part
/// keeps its text, a system or developer part becomes its marker.
#[verifier::external_body]
pub(crate) fn message_parts(m: &openai_harmony::chat::Message) -> (r: Vec<ContentPart>)
    ensures
        r@.map_values(|p: ContentPart| p@) == held_message(*m).content,
{
    m.content.iter().map(|c| match c {
        openai_harmony::chat::Content::Text(t) => ContentPart::Text(t.text.clone()),
        openai_harmony::chat::Content::SystemContent(_) => ContentPart::System,
        openai_harmony::chat::Content::DeveloperContent(_) => ContentPart::Developer,
    }).collect()
}

/// The JSON text of a list of outside messages, or the error text.
pub uninterp spec fn messages_json_text(ms: Seq<openai_harmony::chat::Message>) -> Result<
    Seq<char>,
    Seq<char>,
>;

/// `serde_json::to_string` on a list of outside messages.
#[verifier::external_body]
pub(crate) fn messages_to_json(ms: &Vec<openai_harmony::chat::Message>) -> (r: Result<String, String>)
    ensures
        text_match(r, messages_json_text(ms@)),
{
    serde_json::to_string(ms).map_err(|e| e.to_string())
}

/// The messages that a whole completion parses to, or the error text.
pub uninterp spec fn parsed_completion(
    enc: openai_harmony::HarmonyEncoding,
    tokens: Seq<u32>,
    role: Option<HarmonyRole>,
) -> Result<Seq<openai_harmony::chat::Message>, Seq<char>>;

/// `HarmonyEncoding::parse_messages_from_completion_tokens`.
#[verifier::external_body]
pub(crate) fn parse_completion(
    enc: &openai_harmony::HarmonyEncoding,
    tokens: Vec<u32>,
    role: Option<HarmonyRole>,
) -> (r: Result<Vec<openai_harmony::chat::Message>, String>)
    ensures
        match r {
            Ok(ms) => parsed_completion(*enc, tokens@, role) == Ok::<
                Seq<openai_harmony::chat::Message>,
                Seq<char>,
            >(ms@),
            Err(e) => parsed_completion(*enc, tokens@, role) == Err::<
                Seq<openai_harmony::chat::Message>,
                Seq<char>,
            >(e@),
        },
{
    let role = role.map(|r| match r {
        HarmonyRole::User => openai_harmony::chat::Role::User,
        HarmonyRole::Assistant => openai_harmony::chat::Role::Assistant,
        HarmonyRole::System => openai_harmony::chat::Role::System,
        HarmonyRole::Developer => openai_harmony::chat::Role::Developer,
        HarmonyRole::Tool => openai_harmony::chat::Role::Tool,
    });
    enc.parse_messages_from_completion_tokens(tokens, role).map_err(|e| e.to_string())
}

// ---------------------------------------------------------------- streaming parser

/// The token ids that were fed to a parser, in order.
pub uninterp spec fn parser_tokens(p: openai_harmony::StreamableParser) -> Seq<u32>;

/// The messages that a parser has completed, in order, as it holds them.
pub uninterp spec fn parser_message_list(p: openai_harmony::StreamableParser) -> Seq<
    openai_harmony::chat::Message,
>;

/// The values of the messages that a parser has completed, in order.
pub open spec fn parser_messages(p: openai_harmony::StreamableParser) -> Seq<MessageView> {
    held_messages(parser_message_list(p))
}

/// The parser that is opened on an encoding with a start role and a mode.
pub uninterp spec fn opened(
    enc: openai_harmony::HarmonyEncoding,
    role: Option<HarmonyRole>,
    strict: bool,
) -> openai_harmony::StreamableParser;

/// What feeding a token to a parser gives: the parser afterwards, or the
/// error text where the token is rejected.
pub uninterp spec fn feed_outcome(p: openai_harmony::StreamableParser, token: u32) -> Result<
    openai_harmony::StreamableParser,
    Seq<char>,
>;

/// What signalling the end of input to a parser gives: the parser afterwards,
/// or the error text where the signal is rejected.
pub uninterp spec fn end_outcome(p: openai_harmony::StreamableParser) -> Result<
    openai_harmony::StreamableParser,
    Seq<char>,
>;

/// The messages that a parser holds as completed once the end of input has
/// been signalled to it.
pub uninterp spec fn parser_closed_messages(p: openai_harmony::StreamableParser) -> Seq<
    MessageView,
>;

/// The text that the last token added to the message in progress, if any.
pub uninterp spec fn parser_delta(p: openai_harmony::StreamableParser) -> Option<Seq<char>>;

/// The channel of the message in progress, if known.
pub uninterp spec fn parser_channel(p: openai_harmony::StreamableParser) -> Option<Seq<char>>;

/// The recipient of the message in progress, if known.
pub uninterp spec fn parser_recipient(p: openai_harmony::StreamableParser) -> Option<Seq<char>>;

/// The content type of the message in progress, if known.
pub uninterp spec fn parser_content_type(p: openai_harmony::StreamableParser) -> Option<Seq<char>>;

/// The name of the role of the message in progress, if known.
pub uninterp spec fn parser_role_name(p: openai_harmony::StreamableParser) -> Option<Seq<char>>;

/// The text decoded so far for the message in progress, or the error text.
pub uninterp spec fn parser_content(p: openai_harmony::StreamableParser) -> Result<
    Seq<char>,
    Seq<char>,
>;

/// The JSON text of a parser's state, or the error text.
pub uninterp spec fn parser_state_text(p: openai_harmony::StreamableParser) -> Result<
    Seq<char>,
    Seq<char>,
>;

/// The role name that a new parser shows: that of its start role.
pub open spec fn start_role_name(role: Option<HarmonyRole>) -> Option<Seq<char>> {
    match role {
        Some(r) => Some(r.label()),
        None => None,
    }
}

/// `StreamableParser::new_with_options` on a copy of the encoding. It asks the
/// encoding for its stop tokens and fails if they cannot be had; otherwise it
/// succeeds with the parser that encoding, start role and mode determine. A
/// new parser has been fed nothing and has completed nothing; it shows its
/// start role, no delta, channel, recipient or content type, and empty content.
#[verifier::external_body]
pub(crate) fn open_parser(
    enc: &openai_harmony::HarmonyEncoding,
    role: Option<HarmonyRole>,
    strict: bool,
) -> (r: Result<openai_harmony::StreamableParser, String>)
    ensures
        r is Ok <==> stop_token_set(*enc) is Ok,
        r is Ok ==> {
            &&& r->Ok_0 == opened(*enc, role, strict)
            &&& parser_tokens(r->Ok_0).len() == 0
            &&& parser_message_list(r->Ok_0).len() == 0
            &&& parser_delta(r->Ok_0) is None
            &&& parser_channel(r->Ok_0) is None
            &&& parser_recipient(r->Ok_0) is None
            &&& parser_content_type(r->Ok_0) is None
            &&& parser_role_name(r->Ok_0) == start_role_name(role)
            &&& parser_content(r->Ok_0) == Ok::<Seq<char>, Seq<char>>(Seq::<char>::empty())
        },
{
    let role = role.map(|r| match r {
        HarmonyRole::User => openai_harmony::chat::Role::User,
        HarmonyRole::Assistant => openai_harmony::chat::Role::Assistant,
        HarmonyRole::System => openai_harmony::chat::Role::System,
        HarmonyRole::Developer => openai_harmony::chat::Role::Developer,
        HarmonyRole::Tool => openai_harmony::chat::Role::Tool,
    });
    let options = openai_harmony::ParseOptions { strict };
    openai_harmony::StreamableParser::new_with_options(enc.clone(), role, options).map_err(
        |e| e.to_string(),
    )
}

/// `StreamableParser::process`. What it does is determined by the parser and
/// the token: it succeeds with the parser named for them, or fails with the
/// text named for them. The token is recorded before anything can fail; a
/// failure completes no message; a success completes at most one.
#[verifier::external_body]
pub(crate) fn feed_token(p: &mut openai_harmony::StreamableParser, token: u32) -> (r: Result<
    (),
    String,
>)
    ensures
        match r {
            Ok(_) => feed_outcome(*old(p), token) == Ok::<
                openai_harmony::StreamableParser,
                Seq<char>,
            >(*final(p)),
            Err(e) => feed_outcome(*old(p), token) == Err::<
                openai_harmony::StreamableParser,
                Seq<char>,
            >(e@),
        },
        parser_tokens(*final(p)) == parser_tokens(*old(p)).push(token),
        r is Err ==> parser_messages(*final(p)) == parser_messages(*old(p)),
        parser_messages(*old(p)).is_prefix_of(parser_messages(*final(p))),
        parser_messages(*final(p)).len() <= parser_messages(*old(p)).len() + 1,
{
    p.process(token).map(|_| ()).map_err(|e| e.to_string())
}

/// `StreamableParser::process_eos`. What it does is determined by the parser.
/// No token is recorded. Afterwards the completed messages are those named
/// for the end of input; a failure leaves the parser as it was; a success
/// completes at most the one message in progress, and a further signal then
/// succeeds and changes nothing.
#[verifier::external_body]
pub(crate) fn feed_end(p: &mut openai_harmony::StreamableParser) -> (r: Result<(), String>)
    ensures
        match r {
            Ok(_) => end_outcome(*old(p)) == Ok::<openai_harmony::StreamableParser, Seq<char>>(
                *final(p),
            ) && end_outcome(*final(p)) == Ok::<openai_harmony::StreamableParser, Seq<char>>(
                *final(p),
            ),
            Err(e) => end_outcome(*old(p)) == Err::<openai_harmony::StreamableParser, Seq<char>>(
                e@,
            ) && *final(p) == *old(p),
        },
        parser_tokens(*final(p)) == parser_tokens(*old(p)),
        parser_messages(*final(p)) == parser_closed_messages(*old(p)),
        parser_closed_messages(*final(p)) == parser_closed_messages(*old(p)),
        parser_messages(*old(p)).is_prefix_of(parser_messages(*final(p))),
        parser_messages(*final(p)).len() <= parser_messages(*old(p)).len() + 1,
{
    p.process_eos().map(|_| ()).map_err(|e| e.to_string())
}

/// `StreamableParser::last_content_delta`, which never fails.
#[verifier::external_body]
pub(crate) fn last_delta(p: &openai_harmony::StreamableParser) -> (r: Result<Option<String>, String>)
    ensures
        r is Ok,
        opt_text(r->Ok_0) == parser_delta(*p),
{
    p.last_content_delta().map_err(|e| e.to_string())
}

/// `StreamableParser::current_channel`.
#[verifier::external_body]
pub(crate) fn open_channel(p: &openai_harmony::StreamableParser) -> (r: Option<String>)
    ensures
        opt_text(r) == parser_channel(*p),
{
    p.current_channel()
}

/// `StreamableParser::current_recipient`.
#[verifier::external_body]
pub(crate) fn open_recipient(p: &openai_harmony::StreamableParser) -> (r: Option<String>)
    ensures
        opt_text(r) == parser_recipient(*p),
{
    p.current_recipient()
}

/// `StreamableParser::current_content_type`.
#[verifier::external_body]
pub(crate) fn open_content_type(p: &openai_harmony::StreamableParser) -> (r: Option<String>)
    ensures
        opt_text(r) == parser_content_type(*p),
{
    p.current_content_type()
}

/// `StreamableParser::current_role`, the role handed back by its name
/// (`Role::as_str` of the outside crate).
#[verifier::external_body]
pub(crate) fn open_role_name(p: &openai_harmony::StreamableParser) -> (r: Option<String>)
    ensures
        opt_text(r) == parser_role_name(*p),
{
    p.current_role().map(|r| r.as_str().to_string())
}

/// `StreamableParser::current_content`.
#[verifier::external_body]
pub(crate) fn open_content(p: &openai_harmony::StreamableParser) -> (r: Result<String, String>)
    ensures
        text_match(r, parser_content(*p)),
{
    p.current_content().map_err(|e| e.to_string())
}

/// `StreamableParser::state_json`.
#[verifier::external_body]
pub(crate) fn state_text(p: &openai_harmony::StreamableParser) -> (r: Result<String, String>)
    ensures
        text_match(r, parser_state_text(*p)),
{
    p.state_json().map_err(|e| e.to_string())
}

/// `StreamableParser::tokens`, copied out.
#[verifier::external_body]
pub(crate) fn fed_tokens(p: &openai_harmony::StreamableParser) -> (out: Vec<u32>)
    ensures
        out@ == parser_tokens(*p),
{
    p.tokens().to_vec()
}

/// `StreamableParser::messages`, copied out.
#[verifier::external_body]
pub(crate) fn completed_messages(p: &openai_harmony::StreamableParser) -> (out: Vec<
    openai_harmony::chat::Message,
>)
    ensures
        out@ == parser_message_list(*p),
{
    p.messages().to_vec()
}

/// `StreamableParser::into_messages`: the completed messages, the parser given up.
#[verifier::external_body]
pub(crate) fn into_completed(p: openai_harmony::StreamableParser) -> (out: Vec<
    openai_harmony::chat::Message,
>)
    ensures
        out@ == parser_message_list(p),
{
    p.into_messages()
}

} // verus!
