use vstd::prelude::*;

verus! {

/// The speaker of a message.
#[derive(Clone, Copy, Debug, PartialEq, Eq, Structural)]
pub enum HarmonyRole {
    User,
    Assistant,
    System,
    Developer,
    Tool,
}

/// The role that a lower-case role name stands for, if any.
pub open spec fn role_named(name: Seq<char>) -> Option<HarmonyRole> {
    if name == "user"@ {
        Some(HarmonyRole::User)
    } else if name == "assistant"@ {
        Some(HarmonyRole::Assistant)
    } else if name == "system"@ {
        Some(HarmonyRole::System)
    } else if name == "developer"@ {
        Some(HarmonyRole::Developer)
    } else if name == "tool"@ {
        Some(HarmonyRole::Tool)
    } else {
        None
    }
}

/// The longest text, in bytes, that is handed to the tokenizer. Its pattern
/// engine gives up once its backtrack stack holds a million entries, and a run
/// of white space costs it one entry per character; the limit stays a factor
/// of ten below that.
pub const MAX_TEXT_BYTES: usize = 100_000;

/// The number of bytes of a text in UTF-8.
pub open spec fn byte_count(text: Seq<char>) -> usize {
    vstd::utf8::encode_utf8(text).len() as usize
}

/// Whether a text is short enough for the tokenizer.
pub fn fits(text: &str) -> (ok: bool)
    ensures
        ok == (byte_count(text@) <= MAX_TEXT_BYTES),
{
    text.len() <= MAX_TEXT_BYTES
}

/// Whether `s` holds exactly the characters of `lit`.
pub fn text_is(s: &str, lit: &str) -> (same: bool)
    ensures
        same == (s@ == lit@),
{
    let a: String = s.to_owned();
    let b: String = lit.to_owned();
    a == b
}

impl HarmonyRole {
    /// The lower-case name of the role.
    pub open spec fn label(self) -> Seq<char> {
        match self {
            HarmonyRole::User => "user"@,
            HarmonyRole::Assistant => "assistant"@,
            HarmonyRole::System => "system"@,
            HarmonyRole::Developer => "developer"@,
            HarmonyRole::Tool => "tool"@,
        }
    }

    /// The lower-case name of the role.
    pub fn as_str(&self) -> (s: &'static str)
        ensures
            s@ == self.label(),
    {
        match self {
            HarmonyRole::User => "user",
            HarmonyRole::Assistant => "assistant",
            HarmonyRole::System => "system",
            HarmonyRole::Developer => "developer",
            HarmonyRole::Tool => "tool",
        }
    }

    /// Reads a role from its lower-case name; any other text is no role.
    pub fn from_name(name: &str) -> (r: Option<HarmonyRole>)
        ensures
            r == role_named(name@),
    {
        if text_is(name, "user") {
            Some(HarmonyRole::User)
        } else if text_is(name, "assistant") {
            Some(HarmonyRole::Assistant)
        } else if text_is(name, "system") {
            Some(HarmonyRole::System)
        } else if text_is(name, "developer") {
            Some(HarmonyRole::Developer)
        } else if text_is(name, "tool") {
            Some(HarmonyRole::Tool)
        } else {
            None
        }
    }
}

/// One piece of a message's content. Only text is read by this library; system
/// and developer instructions are recognised and carried as markers.
#[derive(Debug)]
pub enum ContentPart {
    Text(String),
    System,
    Developer,
}

/// Mathematical value of a content part.
pub enum PartView {
    Text(Seq<char>),
    System,
    Developer,
}

impl View for ContentPart {
    type V = PartView;

    open spec fn view(&self) -> PartView {
        match self {
            ContentPart::Text(t) => PartView::Text(t@),
            ContentPart::System => PartView::System,
            ContentPart::Developer => PartView::Developer,
        }
    }
}

/// A chat message: who speaks, the header fields, and the ordered content.
#[derive(Debug)]
pub struct HarmonyMessage {
    pub role: HarmonyRole,
    pub channel: Option<String>,
    pub recipient: Option<String>,
    pub content_type: Option<String>,
    pub content: Vec<ContentPart>,
}

/// Mathematical value of a message.
pub struct MessageView {
    pub role: HarmonyRole,
    pub channel: Option<Seq<char>>,
    pub recipient: Option<Seq<char>>,
    pub content_type: Option<Seq<char>>,
    pub content: Seq<PartView>,
}

/// The characters of an optional string.
pub open spec fn opt_text(o: Option<String>) -> Option<Seq<char>> {
    match o {
        Some(s) => Some(s@),
        None => None,
    }
}

impl View for HarmonyMessage {
    type V = MessageView;

    open spec fn view(&self) -> MessageView {
        MessageView {
            role: self.role,
            channel: opt_text(self.channel),
            recipient: opt_text(self.recipient),
            content_type: opt_text(self.content_type),
            content: self.content@.map_values(|p: ContentPart| p@),
        }
    }
}

/// The values of a list of messages, in order.
pub open spec fn message_views(msgs: Seq<HarmonyMessage>) -> Seq<MessageView> {
    msgs.map_values(|m: HarmonyMessage| m@)
}

/// Summary of a finished message list: the reasoning text and the final answer.
#[derive(Debug)]
pub struct ParsedAssistant {
    pub reasoning: Option<String>,
    pub final_text: Option<String>,
}

/// Mathematical value of a summary.
pub struct ParsedAssistantView {
    pub reasoning: Option<Seq<char>>,
    pub final_text: Option<Seq<char>>,
}

impl View for ParsedAssistant {
    type V = ParsedAssistantView;

    open spec fn view(&self) -> ParsedAssistantView {
        ParsedAssistantView {
            reasoning: opt_text(self.reasoning),
            final_text: opt_text(self.final_text),
        }
    }
}

/// What one streamed token produced: the new text, if any, and the header of
/// the message being built.
#[derive(Debug)]
pub struct StreamDelta {
    pub channel: Option<String>,
    pub delta: Option<String>,
    pub content_type: Option<String>,
    pub recipient: Option<String>,
}

/// Settings for rendering a whole conversation.
#[derive(Clone, Copy, Debug)]
pub struct RenderConversationConfigFfi {
    pub auto_drop_analysis: bool,
}

/// Settings for rendering a single message.
#[derive(Clone, Copy, Debug)]
pub struct RenderOptionsFfi {
    pub conversation_has_function_tools: bool,
}

/// A list of messages in its JSON form.
#[derive(Clone, Debug)]
pub struct ParsedMessagesJson {
    pub messages_json: String,
}

} // verus!
