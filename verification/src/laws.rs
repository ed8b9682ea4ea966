//! What holds across operations, stated over the operations' own contracts.

use vstd::prelude::*;
use crate::convert::tokens_are;
use crate::error::PicoHarmonyError;
use crate::model::{HarmonyMessage, ParsedAssistant, StreamDelta, message_views};
use crate::stream::{PicoHarmonyStreamParser, refused};

verus! {

/// Rendering is a function of its inputs: two results for the same encoding,
/// the same input text and the same settings are both the one named outcome,
/// so they hold the same tokens, or fail with the same message.
pub proof fn lemma_render_deterministic(
    first: Result<Vec<u32>, PicoHarmonyError>,
    second: Result<Vec<u32>, PicoHarmonyError>,
    named: Result<Seq<u32>, Seq<char>>,
)
    requires
        tokens_are(first, named),
        tokens_are(second, named),
    ensures
        first is Ok <==> second is Ok,
        first is Ok ==> first->Ok_0@ == second->Ok_0@,
        first is Err ==> first->Err_0.text() == second->Err_0.text(),
{
}

/// A parser can be finished once: a second `finish` is refused and leaves the
/// parser finished.
pub proof fn lemma_finish_once(
    start: PicoHarmonyStreamParser,
    mid: PicoHarmonyStreamParser,
    end: PicoHarmonyStreamParser,
    first: Result<ParsedAssistant, PicoHarmonyError>,
    second: Result<ParsedAssistant, PicoHarmonyError>,
)
    requires
        PicoHarmonyStreamParser::finish_spec(start, mid, first),
        PicoHarmonyStreamParser::finish_spec(mid, end, second),
    ensures
        refused(second),
        end.finished(),
{
}

/// After `finish`, feeding a token is refused and the parser stays finished.
pub proof fn lemma_process_after_finish(
    start: PicoHarmonyStreamParser,
    mid: PicoHarmonyStreamParser,
    end: PicoHarmonyStreamParser,
    first: Result<ParsedAssistant, PicoHarmonyError>,
    token: u32,
    second: Result<StreamDelta, PicoHarmonyError>,
)
    requires
        PicoHarmonyStreamParser::finish_spec(start, mid, first),
        PicoHarmonyStreamParser::process_spec(mid, token, end, second),
    ensures
        refused(second),
        end.finished(),
{
}

/// After `finish`, signalling the end of input is refused and the parser
/// stays finished.
pub proof fn lemma_eos_after_finish(
    start: PicoHarmonyStreamParser,
    mid: PicoHarmonyStreamParser,
    end: PicoHarmonyStreamParser,
    first: Result<ParsedAssistant, PicoHarmonyError>,
    second: Result<(), PicoHarmonyError>,
)
    requires
        PicoHarmonyStreamParser::finish_spec(start, mid, first),
        PicoHarmonyStreamParser::process_eos_spec(mid, end, second),
    ensures
        refused(second),
        end.finished(),
{
}

/// Signalling the end of input before finishing changes nothing: `process_eos`
/// followed by `finish_messages` hands out the same messages as
/// `finish_messages` alone, whether or not the signal was accepted. On a
/// parser that was finished before, both are refused.
pub proof fn lemma_eos_then_finish_messages(
    start: PicoHarmonyStreamParser,
    after_eos: PicoHarmonyStreamParser,
    eos: Result<(), PicoHarmonyError>,
    end_with: PicoHarmonyStreamParser,
    with_eos: Result<Vec<HarmonyMessage>, PicoHarmonyError>,
    end_alone: PicoHarmonyStreamParser,
    alone: Result<Vec<HarmonyMessage>, PicoHarmonyError>,
)
    requires
        PicoHarmonyStreamParser::process_eos_spec(start, after_eos, eos),
        PicoHarmonyStreamParser::finish_messages_spec(after_eos, end_with, with_eos),
        PicoHarmonyStreamParser::finish_messages_spec(start, end_alone, alone),
    ensures
        end_with.finished() && end_alone.finished(),
        start.finished() ==> refused(with_eos) && refused(alone),
        !start.finished() ==> with_eos is Ok && alone is Ok && message_views(with_eos->Ok_0@)
            == message_views(alone->Ok_0@),
{
}

/// The same for the summary: `process_eos` followed by `finish` gives the
/// summary that `finish` alone gives.
pub proof fn lemma_eos_then_finish(
    start: PicoHarmonyStreamParser,
    after_eos: PicoHarmonyStreamParser,
    eos: Result<(), PicoHarmonyError>,
    end_with: PicoHarmonyStreamParser,
    with_eos: Result<ParsedAssistant, PicoHarmonyError>,
    end_alone: PicoHarmonyStreamParser,
    alone: Result<ParsedAssistant, PicoHarmonyError>,
)
    requires
        PicoHarmonyStreamParser::process_eos_spec(start, after_eos, eos),
        PicoHarmonyStreamParser::finish_spec(after_eos, end_with, with_eos),
        PicoHarmonyStreamParser::finish_spec(start, end_alone, alone),
    ensures
        end_with.finished() && end_alone.finished(),
        start.finished() ==> refused(with_eos) && refused(alone),
        !start.finished() ==> with_eos is Ok && alone is Ok && with_eos->Ok_0@ == alone->Ok_0@,
{
}

/// A token that is rejected changes nothing: after a failed `process` the
/// parser is the one from before the call, so the tokens fed, the completed
/// messages and everything shown of the message in progress are as before.
pub proof fn lemma_rejected_token_changes_nothing(
    before: PicoHarmonyStreamParser,
    token: u32,
    after: PicoHarmonyStreamParser,
    r: Result<StreamDelta, PicoHarmonyError>,
)
    requires
        PicoHarmonyStreamParser::process_spec(before, token, after, r),
        r is Err,
    ensures
        after.finished() == before.finished(),
        !before.finished() ==> after.parser() == before.parser() && after.tokens_fed()
            == before.tokens_fed() && after.completed() == before.completed(),
{
}

/// After the end of input was accepted, a further signal is accepted too and
/// completes nothing more.
pub proof fn lemma_second_eos(
    start: PicoHarmonyStreamParser,
    mid: PicoHarmonyStreamParser,
    end: PicoHarmonyStreamParser,
    first: Result<(), PicoHarmonyError>,
    second: Result<(), PicoHarmonyError>,
)
    requires
        !start.finished(),
        first is Ok,
        PicoHarmonyStreamParser::process_eos_spec(start, mid, first),
        PicoHarmonyStreamParser::process_eos_spec(mid, end, second),
    ensures
        second is Ok,
        end.parser() == mid.parser(),
        end.completed() == mid.completed(),
{
}

} // verus!
