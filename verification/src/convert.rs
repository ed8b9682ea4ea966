//! Results of outside calls brought into the library's own types.

use vstd::prelude::*;
use crate::error::{PicoHarmonyError, err};
use crate::model::{HarmonyMessage, HarmonyRole, message_views, role_named};
use crate::outside::{
    held_message, held_messages, message_channel, message_content_type, message_parts,
    message_recipient, message_role,
};

verus! {

/// What a raw result becomes: the same value, or the error that carries the
/// same text.
pub open spec fn raised<T>(r: Result<T, String>) -> Result<T, PicoHarmonyError> {
    match r {
        Ok(v) => Ok(v),
        Err(e) => Err(PicoHarmonyError::Msg(e)),
    }
}

/// Turns the error text of a raw result into the library's error.
pub fn raise<T>(r: Result<T, String>) -> (out: Result<T, PicoHarmonyError>)
    ensures
        out == raised(r),
{
    match r {
        Ok(v) => Ok(v),
        Err(e) => Err(err(e)),
    }
}

/// Whether a result of tokens is the named outcome: the same tokens, or an
/// error with the same text.
pub open spec fn tokens_are(
    r: Result<Vec<u32>, PicoHarmonyError>,
    named: Result<Seq<u32>, Seq<char>>,
) -> bool {
    match r {
        Ok(t) => named == Ok::<Seq<u32>, Seq<char>>(t@),
        Err(e) => named == Err::<Seq<u32>, Seq<char>>(e.text()),
    }
}

/// Whether a result of text is the named outcome: the same text, or an error
/// with the same text.
pub open spec fn text_is_outcome(
    r: Result<String, PicoHarmonyError>,
    named: Result<Seq<char>, Seq<char>>,
) -> bool {
    match r {
        Ok(t) => named == Ok::<Seq<char>, Seq<char>>(t@),
        Err(e) => named == Err::<Seq<char>, Seq<char>>(e.text()),
    }
}

/// Whether a result of token ids is the named set: each id of the set once,
/// or an error with the same text.
pub open spec fn set_is_outcome(
    r: Result<Vec<u32>, PicoHarmonyError>,
    named: Result<Set<u32>, Seq<char>>,
) -> bool {
    match r {
        Ok(t) => named == Ok::<Set<u32>, Seq<char>>(t@.to_set()) && t@.no_duplicates(),
        Err(e) => named == Err::<Set<u32>, Seq<char>>(e.text()),
    }
}

/// The characters of an optional role name.
pub open spec fn opt_name(role: Option<String>) -> Option<Seq<char>> {
    match role {
        Some(s) => Some(s@),
        None => None,
    }
}

/// Whether an optional role name can be used: no name, or the name of a role.
pub open spec fn role_known(role: Option<Seq<char>>) -> bool {
    match role {
        Some(n) => role_named(n) is Some,
        None => true,
    }
}

/// The role that an optional role name stands for.
pub open spec fn chosen_role(role: Option<Seq<char>>) -> Option<HarmonyRole> {
    match role {
        Some(n) => role_named(n),
        None => None,
    }
}

/// Reads an optional role name. A name that is no role's is refused with the
/// message "Unknown role".
pub fn choose_role(role: &Option<String>) -> (r: Result<Option<HarmonyRole>, PicoHarmonyError>)
    ensures
        role_known(opt_name(*role)) ==> r == Ok::<Option<HarmonyRole>, PicoHarmonyError>(
            chosen_role(opt_name(*role)),
        ),
        !role_known(opt_name(*role)) ==> r is Err && r->Err_0.text() == "Unknown role"@,
{
    match role {
        None => Ok(None),
        Some(name) => match HarmonyRole::from_name(name.as_str()) {
            Some(found) => Ok(Some(found)),
            None => Err(crate::error::err_text("Unknown role")),
        },
    }
}

/// Copies one outside message, field by field.
pub(crate) fn convert_message(m: &openai_harmony::chat::Message) -> (out: HarmonyMessage)
    ensures
        out@ == held_message(*m),
{
    HarmonyMessage {
        role: message_role(m),
        channel: message_channel(m),
        recipient: message_recipient(m),
        content_type: message_content_type(m),
        content: message_parts(m),
    }
}

/// Copies a list of outside messages, keeping their order.
pub(crate) fn convert_messages(ms: &Vec<openai_harmony::chat::Message>) -> (out: Vec<HarmonyMessage>)
    ensures
        message_views(out@) == held_messages(ms@),
{
    let mut out: Vec<HarmonyMessage> = Vec::new();
    let mut i: usize = 0;
    while i < ms.len()
        invariant
            i <= ms.len(),
            out@.len() == i,
            forall|k: int| 0 <= k < i ==> (#[trigger] out@[k])@ == held_message(ms@[k]),
        decreases ms.len() - i,
    {
        let copy = convert_message(&ms[i]);
        out.push(copy);
        i = i + 1;
    }
    assert(message_views(out@) =~= held_messages(ms@));
    out
}

} // verus!
