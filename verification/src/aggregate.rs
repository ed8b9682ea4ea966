use vstd::prelude::*;
use vstd::string::*;
use crate::model::{HarmonyMessage, MessageView, PartView, ParsedAssistant, ParsedAssistantView, message_views, text_is};

verus! {

/// The text of one content part: its characters if it is text, nothing otherwise.
pub open spec fn part_text(p: PartView) -> Seq<char> {
    match p {
        PartView::Text(t) => t,
        _ => Seq::<char>::empty(),
    }
}

/// The text parts of a content list, joined in order with nothing between them.
pub open spec fn parts_text(parts: Seq<PartView>) -> Seq<char>
    decreases parts.len(),
{
    if parts.len() == 0 {
        Seq::<char>::empty()
    } else {
        parts_text(parts.drop_last()) + part_text(parts.last())
    }
}

/// The text of every message on `channel`, joined in message order.
pub open spec fn channel_text(msgs: Seq<MessageView>, channel: Seq<char>) -> Seq<char>
    decreases msgs.len(),
{
    if msgs.len() == 0 {
        Seq::<char>::empty()
    } else if msgs.last().channel == Some(channel) {
        channel_text(msgs.drop_last(), channel) + parts_text(msgs.last().content)
    } else {
        channel_text(msgs.drop_last(), channel)
    }
}

/// Whether some message of the list is on `channel`.
pub open spec fn channel_present(msgs: Seq<MessageView>, channel: Seq<char>) -> bool {
    exists|i: int| 0 <= i < msgs.len() && #[trigger] msgs[i].channel == Some(channel)
}

/// The text gathered for `channel`, or nothing if no message is on it.
pub open spec fn channel_summary(msgs: Seq<MessageView>, channel: Seq<char>) -> Option<Seq<char>> {
    if channel_present(msgs, channel) {
        Some(channel_text(msgs, channel))
    } else {
        None
    }
}

/// The summary of a message list: reasoning from the "analysis" channel, the
/// answer from the "final" channel, every other channel left out.
pub open spec fn aggregate(msgs: Seq<MessageView>) -> ParsedAssistantView {
    ParsedAssistantView {
        reasoning: channel_summary(msgs, "analysis"@),
        final_text: channel_summary(msgs, "final"@),
    }
}

/// Joins the text parts of one message.
pub fn message_text(m: &HarmonyMessage) -> (text: String)
    ensures
        text@ == parts_text(m@.content),
{
    let mut text = String::new();
    let mut i: usize = 0;
    while i < m.content.len()
        invariant
            i <= m.content.len(),
            text@ == parts_text(m@.content.take(i as int)),
        decreases m.content.len() - i,
    {
        assert(m@.content.take(i + 1).drop_last() == m@.content.take(i as int));
        match &m.content[i] {
            crate::model::ContentPart::Text(t) => {
                text.append(t.as_str());
            },
            _ => {
                assert(text@ + Seq::<char>::empty() == text@);
            },
        }
        i = i + 1;
    }
    assert(m@.content.take(i as int) == m@.content);
    text
}

/// Extending a list by one message extends what is gathered for a channel by
/// that message's text when it is on the channel, and by nothing otherwise.
pub proof fn lemma_channel_step(msgs: Seq<MessageView>, m: MessageView, channel: Seq<char>)
    ensures
        channel_present(msgs.push(m), channel) == (channel_present(msgs, channel) || m.channel
            == Some(channel)),
        channel_text(msgs.push(m), channel) == if m.channel == Some(channel) {
            channel_text(msgs, channel) + parts_text(m.content)
        } else {
            channel_text(msgs, channel)
        },
{
    let ext = msgs.push(m);
    assert(ext.drop_last() == msgs);
    assert(ext.last() == m);
    if channel_present(msgs, channel) {
        let i = choose|i: int| 0 <= i < msgs.len() && #[trigger] msgs[i].channel == Some(channel);
        assert(ext[i].channel == Some(channel));
    }
    if m.channel == Some(channel) {
        assert(ext[msgs.len() as int].channel == Some(channel));
    }
    if channel_present(ext, channel) {
        let i = choose|i: int| 0 <= i < ext.len() && #[trigger] ext[i].channel == Some(channel);
        if i < msgs.len() {
            assert(msgs[i].channel == Some(channel));
        }
    }
}

/// Summarises a finished message list. The text of the messages on the
/// "analysis" channel becomes `reasoning`, that of the messages on the "final"
/// channel becomes `final_text`, each joined in message order with nothing in
/// between; a field is `None` exactly when no message is on its channel.
pub fn extract_reasoning_final(msgs: &[HarmonyMessage]) -> (out: ParsedAssistant)
    ensures
        out@ == aggregate(message_views(msgs@)),
{
    let ghost views = message_views(msgs@);
    let mut reasoning = String::new();
    let mut final_text = String::new();
    let mut saw_reasoning = false;
    let mut saw_final = false;
    let mut i: usize = 0;
    while i < msgs.len()
        invariant
            i <= msgs.len(),
            views == message_views(msgs@),
            reasoning@ == channel_text(views.take(i as int), "analysis"@),
            final_text@ == channel_text(views.take(i as int), "final"@),
            saw_reasoning == channel_present(views.take(i as int), "analysis"@),
            saw_final == channel_present(views.take(i as int), "final"@),
        decreases msgs.len() - i,
    {
        let m = &msgs[i];
        proof {
            assert(views.take(i + 1) == views.take(i as int).push(m@));
            lemma_channel_step(views.take(i as int), m@, "analysis"@);
            lemma_channel_step(views.take(i as int), m@, "final"@);
        }
        match &m.channel {
            Some(channel) => {
                if text_is(channel.as_str(), "analysis") {
                    let text = message_text(m);
                    reasoning.append(text.as_str());
                    saw_reasoning = true;
                }
                if text_is(channel.as_str(), "final") {
                    let text = message_text(m);
                    final_text.append(text.as_str());
                    saw_final = true;
                }
            },
            None => {},
        }
        i = i + 1;
    }
    assert(views.take(i as int) == views);
    ParsedAssistant {
        reasoning: if saw_reasoning { Some(reasoning) } else { None },
        final_text: if saw_final { Some(final_text) } else { None },
    }
}

/// A list in which no message is on the "analysis" channel and none on the
/// "final" channel has neither reasoning nor a final text.
pub proof fn lemma_aggregate_silent(msgs: Seq<MessageView>)
    requires
        forall|i: int| 0 <= i < msgs.len() ==> #[trigger] msgs[i].channel != Some("analysis"@)
            && msgs[i].channel != Some("final"@),
    ensures
        aggregate(msgs).reasoning is None,
        aggregate(msgs).final_text is None,
{
}

/// Messages on other channels add nothing: the summary of a list is the
/// summary of the list with one more message that is on neither channel.
pub proof fn lemma_aggregate_ignores_other(msgs: Seq<MessageView>, m: MessageView)
    requires
        m.channel != Some("analysis"@),
        m.channel != Some("final"@),
    ensures
        aggregate(msgs.push(m)) == aggregate(msgs),
{
    lemma_channel_step(msgs, m, "analysis"@);
    lemma_channel_step(msgs, m, "final"@);
}

} // verus!
