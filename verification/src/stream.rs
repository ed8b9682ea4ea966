//! The streaming parser handle: one token at a time, finished exactly once.

use vstd::prelude::*;
use crate::aggregate::{aggregate, extract_reasoning_final};
use crate::convert::{convert_messages, raise, text_is_outcome};
use crate::encoding::text_result;
use crate::error::{PicoHarmonyError, err, err_text};
use crate::model::{
    HarmonyMessage, HarmonyRole, MessageView, ParsedAssistant, StreamDelta, message_views,
    opt_text,
};
use crate::outside::{
    completed_messages, end_outcome, fed_tokens, feed_end, feed_outcome, feed_token,
    into_completed, last_delta, messages_json_text, messages_to_json, open_channel,
    open_content, open_content_type, open_parser, open_recipient, open_role_name, opened,
    parser_channel, parser_closed_messages, parser_content, parser_content_type, parser_delta,
    parser_message_list, parser_messages, parser_recipient, parser_role_name,
    parser_state_text, parser_tokens, state_text, stop_token_set,
};

verus! {

/// A streaming parser that can be finished once. After `finish` it holds
/// nothing, and every operation on it is refused.
pub struct PicoHarmonyStreamParser {
    inner: Option<openai_harmony::StreamableParser>,
    enc: openai_harmony::HarmonyEncoding,
    role: Option<HarmonyRole>,
    strict: bool,
    accepted: Vec<Option<u32>>,
}

/// What one accepted step gives: a token fed, or the end of input signalled.
pub open spec fn step_outcome(p: openai_harmony::StreamableParser, step: Option<u32>) -> Result<
    openai_harmony::StreamableParser,
    Seq<char>,
> {
    match step {
        Some(token) => feed_outcome(p, token),
        None => end_outcome(p),
    }
}

/// The parser that a list of steps leads to from `start`.
pub open spec fn replay(
    start: openai_harmony::StreamableParser,
    steps: Seq<Option<u32>>,
) -> openai_harmony::StreamableParser
    decreases steps.len(),
{
    if steps.len() == 0 {
        start
    } else {
        step_outcome(replay(start, steps.drop_last()), steps.last())->Ok_0
    }
}

/// Whether every step of the list is accepted where it stands.
pub open spec fn replayable(
    start: openai_harmony::StreamableParser,
    steps: Seq<Option<u32>>,
) -> bool {
    forall|i: int|
        0 <= i < steps.len() ==> (#[trigger] step_outcome(
            replay(start, steps.take(i)),
            steps[i],
        )) is Ok
}

/// Opens a parser anew and takes it through the accepted steps again.
fn reopen(
    enc: &openai_harmony::HarmonyEncoding,
    role: Option<HarmonyRole>,
    strict: bool,
    steps: &Vec<Option<u32>>,
) -> (p: openai_harmony::StreamableParser)
    requires
        stop_token_set(*enc) is Ok,
        replayable(opened(*enc, role, strict), steps@),
    ensures
        p == replay(opened(*enc, role, strict), steps@),
{
    let mut p = match open_parser(enc, role, strict) {
        Ok(p) => p,
        Err(_) => vstd::pervasive::unreached(),
    };
    let ghost start = p;
    let mut i: usize = 0;
    assert(steps@.take(0) =~= Seq::<Option<u32>>::empty());
    while i < steps.len()
        invariant
            i <= steps.len(),
            start == opened(*enc, role, strict),
            replayable(start, steps@),
            p == replay(start, steps@.take(i as int)),
        decreases steps.len() - i,
    {
        assert(step_outcome(replay(start, steps@.take(i as int)), steps@[i as int]) is Ok);
        assert(steps@.take(i + 1).drop_last() =~= steps@.take(i as int));
        assert(steps@.take(i + 1).last() == steps@[i as int]);
        let taken = match steps[i] {
            Some(token) => feed_token(&mut p, token),
            None => feed_end(&mut p),
        };
        if taken.is_err() {
            vstd::pervasive::unreached::<()>();
        }
        i = i + 1;
    }
    assert(steps@.take(i as int) =~= steps@);
    p
}

/// One more accepted step extends what the steps lead to.
proof fn lemma_replay_push(
    start: openai_harmony::StreamableParser,
    steps: Seq<Option<u32>>,
    step: Option<u32>,
)
    requires
        replayable(start, steps),
        step_outcome(replay(start, steps), step) is Ok,
    ensures
        replayable(start, steps.push(step)),
        replay(start, steps.push(step)) == step_outcome(replay(start, steps), step)->Ok_0,
{
    let ext = steps.push(step);
    assert(ext.drop_last() =~= steps);
    assert(ext.last() == step);
    assert forall|i: int| 0 <= i < ext.len() implies (#[trigger] step_outcome(
        replay(start, ext.take(i)),
        ext[i],
    )) is Ok by {
        if i < steps.len() {
            assert(ext.take(i) =~= steps.take(i));
            assert(step_outcome(replay(start, steps.take(i)), steps[i]) is Ok);
        } else {
            assert(ext.take(i) =~= steps);
        }
    }
}

/// Whether a result is the refusal of a finished parser.
pub open spec fn refused<T>(r: Result<T, PicoHarmonyError>) -> bool {
    r is Err && r->Err_0.text() == "parser already finished"@
}

/// The error that a finished parser answers with.
pub fn already_finished() -> (e: PicoHarmonyError)
    ensures
        e.text() == "parser already finished"@,
{
    err_text("parser already finished")
}

impl PicoHarmonyStreamParser {
    /// Whether the parser has been finished.
    pub closed spec fn finished(&self) -> bool {
        self.inner is None
    }

    /// The parser state that an unfinished handle holds.
    pub closed spec fn parser(&self) -> openai_harmony::StreamableParser {
        self.inner->Some_0
    }

    /// The token ids accepted so far, in order; a rejected token is not among them.
    pub open spec fn tokens_fed(&self) -> Seq<u32> {
        parser_tokens(self.parser())
    }

    /// The messages completed so far, without the one in progress.
    pub open spec fn completed(&self) -> Seq<MessageView> {
        parser_messages(self.parser())
    }

    /// The messages that are complete once the end of input is signalled.
    pub open spec fn completed_at_end(&self) -> Seq<MessageView> {
        parser_closed_messages(self.parser())
    }

    /// A parser as it is opened: not finished, nothing fed, nothing
    /// completed, no delta, channel, recipient or content type, empty content.
    pub open spec fn fresh(&self) -> bool {
        &&& !self.finished()
        &&& self.tokens_fed().len() == 0
        &&& self.completed().len() == 0
        &&& parser_delta(self.parser()) is None
        &&& parser_channel(self.parser()) is None
        &&& parser_recipient(self.parser()) is None
        &&& parser_content_type(self.parser()) is None
        &&& parser_content(self.parser()) == Ok::<Seq<char>, Seq<char>>(Seq::<char>::empty())
    }

    /// What the handle keeps so that a rejected token can be undone: the
    /// parser it holds is the one that its encoding, start role and mode open
    /// and that the accepted steps lead to.
    pub closed spec fn wf(&self) -> bool {
        self.inner is Some ==> {
            &&& stop_token_set(self.enc) is Ok
            &&& replayable(opened(self.enc, self.role, self.strict), self.accepted@)
            &&& self.inner->Some_0 == replay(
                opened(self.enc, self.role, self.strict),
                self.accepted@,
            )
        }
    }

    /// What `process` does, from the handle before to the handle after. A
    /// token that is rejected leaves the parser as it was.
    pub open spec fn process_spec(
        pre: Self,
        token: u32,
        post: Self,
        r: Result<StreamDelta, PicoHarmonyError>,
    ) -> bool {
        if pre.finished() {
            post.finished() && refused(r)
        } else {
            &&& !post.finished()
            &&& match r {
                Err(e) => {
                    &&& feed_outcome(pre.parser(), token) == Err::<
                        openai_harmony::StreamableParser,
                        Seq<char>,
                    >(e.text())
                    &&& post.parser() == pre.parser()
                },
                Ok(d) => {
                    &&& feed_outcome(pre.parser(), token) == Ok::<
                        openai_harmony::StreamableParser,
                        Seq<char>,
                    >(post.parser())
                    &&& post.tokens_fed() == pre.tokens_fed().push(token)
                    &&& pre.completed().is_prefix_of(post.completed())
                    &&& post.completed().len() <= pre.completed().len() + 1
                    &&& opt_text(d.delta) == parser_delta(post.parser())
                    &&& opt_text(d.channel) == parser_channel(post.parser())
                    &&& opt_text(d.content_type) == parser_content_type(post.parser())
                    &&& opt_text(d.recipient) == parser_recipient(post.parser())
                },
            }
        }
    }

    /// What `process_eos` does, from the handle before to the handle after. A
    /// signal that is rejected leaves the parser as it was; after one that is
    /// accepted, a further signal is accepted and changes nothing.
    pub open spec fn process_eos_spec(pre: Self, post: Self, r: Result<(), PicoHarmonyError>) -> bool {
        if pre.finished() {
            post.finished() && refused(r)
        } else {
            &&& !post.finished()
            &&& post.tokens_fed() == pre.tokens_fed()
            &&& post.completed() == pre.completed_at_end()
            &&& post.completed_at_end() == pre.completed_at_end()
            &&& pre.completed().is_prefix_of(post.completed())
            &&& post.completed().len() <= pre.completed().len() + 1
            &&& match r {
                Err(e) => {
                    &&& end_outcome(pre.parser()) == Err::<
                        openai_harmony::StreamableParser,
                        Seq<char>,
                    >(e.text())
                    &&& post.parser() == pre.parser()
                },
                Ok(_) => {
                    &&& end_outcome(pre.parser()) == Ok::<
                        openai_harmony::StreamableParser,
                        Seq<char>,
                    >(post.parser())
                    &&& end_outcome(post.parser()) == Ok::<
                        openai_harmony::StreamableParser,
                        Seq<char>,
                    >(post.parser())
                },
            }
        }
    }

    /// What `finish_messages` does, from the handle before to the handle after.
    pub open spec fn finish_messages_spec(
        pre: Self,
        post: Self,
        r: Result<Vec<HarmonyMessage>, PicoHarmonyError>,
    ) -> bool {
        &&& post.finished()
        &&& if pre.finished() {
            refused(r)
        } else {
            &&& r is Ok
            &&& message_views(r->Ok_0@) == pre.completed_at_end()
            &&& pre.completed().is_prefix_of(pre.completed_at_end())
            &&& pre.completed_at_end().len() <= pre.completed().len() + 1
        }
    }

    /// What `finish` does, from the handle before to the handle after.
    pub open spec fn finish_spec(
        pre: Self,
        post: Self,
        r: Result<ParsedAssistant, PicoHarmonyError>,
    ) -> bool {
        &&& post.finished()
        &&& if pre.finished() {
            refused(r)
        } else {
            &&& r is Ok
            &&& r->Ok_0@ == aggregate(pre.completed_at_end())
            &&& pre.completed().is_prefix_of(pre.completed_at_end())
            &&& pre.completed_at_end().len() <= pre.completed().len() + 1
        }
    }

    /// Wraps a parser that was just opened into an unfinished handle.
    pub(crate) fn holding(
        p: openai_harmony::StreamableParser,
        enc: openai_harmony::HarmonyEncoding,
        role: Option<HarmonyRole>,
        strict: bool,
    ) -> (h: Self)
        requires
            stop_token_set(enc) is Ok,
            p == opened(enc, role, strict),
        ensures
            h.wf(),
            !h.finished(),
            h.parser() == p,
    {
        let h = PicoHarmonyStreamParser { inner: Some(p), enc, role, strict, accepted: Vec::new() };
        assert(h.accepted@ =~= Seq::<Option<u32>>::empty());
        h
    }

    /// Feeds one token id. On success the result holds the text that the token
    /// added, if any, and the header of the message in progress. A token that
    /// is rejected changes nothing: the parser is as it was before the call.
    pub fn process(&mut self, token_id: u32) -> (r: Result<StreamDelta, PicoHarmonyError>)
        requires
            old(self).wf(),
        ensures
            final(self).wf(),
            Self::process_spec(*old(self), token_id, *final(self), r),
    {
        match self.inner.take() {
            None => Err(already_finished()),
            Some(mut p) => {
                match feed_token(&mut p, token_id) {
                    Err(e) => {
                        let restored = reopen(&self.enc, self.role, self.strict, &self.accepted);
                        self.inner = Some(restored);
                        Err(err(e))
                    },
                    Ok(()) => {
                        proof {
                            lemma_replay_push(
                                opened(self.enc, self.role, self.strict),
                                self.accepted@,
                                Some(token_id),
                            );
                        }
                        self.accepted.push(Some(token_id));
                        let delta = match last_delta(&p) {
                            Ok(d) => d,
                            Err(_) => vstd::pervasive::unreached(),
                        };
                        let out = StreamDelta {
                            channel: open_channel(&p),
                            delta,
                            content_type: open_content_type(&p),
                            recipient: open_recipient(&p),
                        };
                        self.inner = Some(p);
                        Ok(out)
                    },
                }
            },
        }
    }

    /// Signals the end of input: the message in progress, if any, is
    /// completed. A signal that is rejected changes nothing.
    pub fn process_eos(&mut self) -> (r: Result<(), PicoHarmonyError>)
        requires
            old(self).wf(),
        ensures
            final(self).wf(),
            Self::process_eos_spec(*old(self), *final(self), r),
    {
        match self.inner.take() {
            None => Err(already_finished()),
            Some(mut p) => {
                let out = raise(feed_end(&mut p));
                if out.is_ok() {
                    proof {
                        lemma_replay_push(
                            opened(self.enc, self.role, self.strict),
                            self.accepted@,
                            None,
                        );
                    }
                    self.accepted.push(None);
                }
                self.inner = Some(p);
                out
            },
        }
    }

    /// Finishes the parser and hands out the completed messages, the end of
    /// input signalled first. Where that signal is not accepted, the messages
    /// completed until then are handed out. Only the first call succeeds.
    pub fn finish_messages(&mut self) -> (r: Result<Vec<HarmonyMessage>, PicoHarmonyError>)
        ensures
            final(self).wf(),
            Self::finish_messages_spec(*old(self), *final(self), r),
    {
        match self.inner.take() {
            None => Err(already_finished()),
            Some(mut p) => {
                let _ = feed_end(&mut p);
                let done = into_completed(p);
                Ok(convert_messages(&done))
            },
        }
    }

    /// Finishes the parser and summarises the completed messages. Only the
    /// first call succeeds.
    pub fn finish(&mut self) -> (r: Result<ParsedAssistant, PicoHarmonyError>)
        ensures
            final(self).wf(),
            Self::finish_spec(*old(self), *final(self), r),
    {
        match self.finish_messages() {
            Err(e) => Err(e),
            Ok(msgs) => Ok(extract_reasoning_final(msgs.as_slice())),
        }
    }

    /// The text decoded so far for the message in progress.
    pub fn current_content(&self) -> (r: Result<String, PicoHarmonyError>)
        ensures
            self.finished() ==> refused(r),
            !self.finished() ==> text_is_outcome(r, parser_content(self.parser())),
    {
        match &self.inner {
            None => Err(already_finished()),
            Some(p) => raise(open_content(p)),
        }
    }

    /// The name of the role of the message in progress, if known.
    pub fn current_role(&self) -> (r: Result<Option<String>, PicoHarmonyError>)
        ensures
            self.finished() ==> refused(r),
            !self.finished() ==> r is Ok && opt_text(r->Ok_0) == parser_role_name(self.parser()),
    {
        match &self.inner {
            None => Err(already_finished()),
            Some(p) => Ok(open_role_name(p)),
        }
    }

    /// The content type of the message in progress, if known.
    pub fn current_content_type(&self) -> (r: Result<Option<String>, PicoHarmonyError>)
        ensures
            self.finished() ==> refused(r),
            !self.finished() ==> r is Ok && opt_text(r->Ok_0) == parser_content_type(
                self.parser(),
            ),
    {
        match &self.inner {
            None => Err(already_finished()),
            Some(p) => Ok(open_content_type(p)),
        }
    }

    /// The text that the most recent token added, if it added any.
    pub fn last_content_delta(&self) -> (r: Result<Option<String>, PicoHarmonyError>)
        ensures
            self.finished() ==> refused(r),
            !self.finished() ==> r is Ok && opt_text(r->Ok_0) == parser_delta(self.parser()),
    {
        match &self.inner {
            None => Err(already_finished()),
            Some(p) => raise(last_delta(p)),
        }
    }

    /// The completed messages, as a snapshot.
    pub fn messages(&self) -> (r: Result<Vec<HarmonyMessage>, PicoHarmonyError>)
        ensures
            self.finished() ==> refused(r),
            !self.finished() ==> r is Ok && message_views(r->Ok_0@) == self.completed(),
    {
        match &self.inner {
            None => Err(already_finished()),
            Some(p) => {
                let done = completed_messages(p);
                Ok(convert_messages(&done))
            },
        }
    }

    /// The completed messages as JSON.
    pub fn messages_json(&self) -> (r: Result<String, PicoHarmonyError>)
        ensures
            self.finished() ==> refused(r),
            !self.finished() ==> text_result(r) == messages_json_text(
                parser_message_list(self.parser()),
            ),
    {
        match &self.inner {
            None => Err(already_finished()),
            Some(p) => {
                let done = completed_messages(p);
                let r = raise(messages_to_json(&done));
                assert(text_result(r) == messages_json_text(done@));
                r
            },
        }
    }

    /// The token ids accepted so far, in order; a rejected token is not among them.
    pub fn tokens(&self) -> (r: Result<Vec<u32>, PicoHarmonyError>)
        ensures
            self.finished() ==> refused(r),
            !self.finished() ==> r is Ok && r->Ok_0@ == self.tokens_fed(),
    {
        match &self.inner {
            None => Err(already_finished()),
            Some(p) => Ok(fed_tokens(p)),
        }
    }

    /// The state of the parser as JSON.
    pub fn state_json(&self) -> (r: Result<String, PicoHarmonyError>)
        ensures
            self.finished() ==> refused(r),
            !self.finished() ==> text_is_outcome(r, parser_state_text(self.parser())),
    {
        match &self.inner {
            None => Err(already_finished()),
            Some(p) => raise(state_text(p)),
        }
    }

    /// The recipient of the message in progress, if known.
    pub fn current_recipient(&self) -> (r: Result<Option<String>, PicoHarmonyError>)
        ensures
            self.finished() ==> refused(r),
            !self.finished() ==> r is Ok && opt_text(r->Ok_0) == parser_recipient(self.parser()),
    {
        match &self.inner {
            None => Err(already_finished()),
            Some(p) => Ok(open_recipient(p)),
        }
    }

    /// The channel of the message in progress, if known.
    pub fn current_channel(&self) -> (r: Result<Option<String>, PicoHarmonyError>)
        ensures
            self.finished() ==> refused(r),
            !self.finished() ==> r is Ok && opt_text(r->Ok_0) == parser_channel(self.parser()),
    {
        match &self.inner {
            None => Err(already_finished()),
            Some(p) => Ok(open_channel(p)),
        }
    }
}

} // verus!
