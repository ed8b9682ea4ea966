//! Harmony conversation encoding: rendering conversations to token ids, parsing a
//! model's token stream back into messages, and summarising finished messages.

pub mod error;
pub mod model;
pub mod aggregate;
pub mod outside;
pub mod convert;
pub mod stream;
pub mod encoding;
pub mod gpt_oss;
pub mod laws;

pub use aggregate::extract_reasoning_final;
pub use encoding::{load_harmony_encoding_ffi, HarmonyEncodingFfi};
pub use error::{err, PicoHarmonyError};
pub use gpt_oss::PicoHarmonyGptOss;
pub use model::{
    ContentPart, HarmonyMessage, HarmonyRole, ParsedAssistant, ParsedMessagesJson,
    RenderConversationConfigFfi, RenderOptionsFfi, StreamDelta,
};
pub use stream::PicoHarmonyStreamParser;
