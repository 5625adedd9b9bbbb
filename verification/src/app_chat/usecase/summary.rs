use vstd::prelude::*;

use crate::app_chat::domain::chat_message::Message;
use crate::app_chat::usecase::chat_flow::reversed;
use crate::helper::text::{is_blank, is_unicode_whitespace, is_whitespace_char, str_is_blank};

verus! {

// ---------------------------------------------------------------------------------------
// Summarising a conversation: its latest messages are written out as a transcript, the
// model summarises the transcript, and the summary is stored when it says something new.
// ---------------------------------------------------------------------------------------

/// The text without its leading white space.
pub open spec fn trim_start(s: Seq<char>) -> Seq<char>
    decreases s.len(),
{
    if s.len() > 0 && is_unicode_whitespace(s[0]) {
        trim_start(s.drop_first())
    } else {
        s
    }
}

/// The text without its trailing white space.
pub open spec fn trim_end(s: Seq<char>) -> Seq<char>
    decreases s.len(),
{
    if s.len() > 0 && is_unicode_whitespace(s.last()) {
        trim_end(s.drop_last())
    } else {
        s
    }
}

/// The text without leading and trailing white space, as `str::trim` gives it.
pub open spec fn trimmed(s: Seq<char>) -> Seq<char> {
    trim_end(trim_start(s))
}

/// Trims leading and trailing white space.
pub fn trim_text(s: &str) -> (r: String)
    ensures
        r@ == trimmed(s@),
{
    let ghost all = s@;
    let mut chars: Vec<char> = Vec::new();
    for c in it: s.chars()
        invariant
            it.seq() == all,
            all == s@,
            chars@ == all.take(it.index() as int),
    {
        chars.push(c);
        assert(chars@ =~= all.take(it.index() as int + 1));
    }
    assert(chars@ =~= all);
    let n = chars.len();
    let mut i: usize = 0;
    assert(all.skip(0) =~= all);
    while i < n && is_whitespace_char(chars[i])
        invariant
            i <= n,
            n == all.len(),
            chars@ == all,
            trim_start(all) == trim_start(all.skip(i as int)),
        decreases n - i,
    {
        assert(all.skip(i as int).drop_first() =~= all.skip(i as int + 1));
        i = i + 1;
    }
    proof {
        if i == n {
            assert(all.skip(i as int) =~= Seq::<char>::empty());
        }
        assert(trim_start(all) == all.skip(i as int));
        assert(all.skip(i as int) =~= all.subrange(i as int, n as int));
    }
    let mut j: usize = n;
    while j > i && is_whitespace_char(chars[j - 1])
        invariant
            i <= j <= n,
            n == all.len(),
            chars@ == all,
            trim_end(all.subrange(i as int, n as int)) == trim_end(all.subrange(i as int, j as int)),
        decreases j - i,
    {
        assert(all.subrange(i as int, j as int).drop_last() =~= all.subrange(i as int, j - 1));
        j = j - 1;
    }
    proof {
        if j == i {
            assert(all.subrange(i as int, j as int) =~= Seq::<char>::empty());
        }
    }
    String::from_str(s.substring_char(i, j))
}

/// One line of a transcript: `role: content`.
pub open spec fn transcript_line(m: Message) -> Seq<char> {
    m.role@ + ": "@ + m.content@
}

/// The lines of the messages in order, joined by line breaks.
pub open spec fn transcript(msgs: Seq<Message>) -> Seq<char>
    decreases msgs.len(),
{
    if msgs.len() == 0 {
        Seq::empty()
    } else if msgs.len() == 1 {
        transcript_line(msgs[0])
    } else {
        transcript(msgs.drop_last()) + "\n"@ + transcript_line(msgs.last())
    }
}

/// Writes the messages out as a transcript, one `role: content` line each.
pub fn conversation_transcript(messages: &[Message]) -> (r: String)
    ensures
        r@ == transcript(messages@),
{
    let mut out = String::new();
    let mut i: usize = 0;
    assert(messages@.take(0) =~= Seq::<Message>::empty());
    while i < messages.len()
        invariant
            i <= messages@.len(),
            out@ == transcript(messages@.take(i as int)),
        decreases messages@.len() - i,
    {
        let m = &messages[i];
        if i > 0 {
            out.append("\n");
        }
        out.append(m.role.as_str());
        out.append(": ");
        out.append(m.content.as_str());
        proof {
            let t = messages@.take(i as int + 1);
            assert(t.drop_last() =~= messages@.take(i as int));
            assert(t.last() == messages@[i as int]);
            if i == 0 {
                assert(out@ =~= transcript(t));
            } else {
                assert(out@ =~= transcript(t));
            }
        }
        i = i + 1;
    }
    assert(messages@.take(messages@.len() as int) =~= messages@);
    out
}

/// The transcript to summarise, from the latest messages as they are fetched (newest first):
/// oldest first, and `None` when there is nothing but white space to summarise.
pub fn summary_transcript(newest_first: Vec<Message>) -> (r: Option<String>)
    ensures
        is_blank(transcript(newest_first@.reverse())) ==> r is None,
        !is_blank(transcript(newest_first@.reverse())) ==> (r matches Some(t) && t@ == transcript(
            newest_first@.reverse(),
        )),
{
    let oldest_first = reversed(newest_first);
    let text = conversation_transcript(oldest_first.as_slice());
    if str_is_blank(text.as_str()) {
        None
    } else {
        Some(text)
    }
}

/// The summary to store from the model's answer: the trimmed answer, or `None` when it is
/// the summary the conversation already has.
pub fn summary_to_store(current: &Option<String>, answer: &str) -> (r: Option<String>)
    ensures
        (current matches Some(c) && c@ == trimmed(answer@)) ==> r is None,
        !(current matches Some(c) && c@ == trimmed(answer@)) ==> (r matches Some(s) && s@ == trimmed(
            answer@,
        )),
{
    let summary = trim_text(answer);
    match current {
        Some(c) => {
            if c.eq(&summary) {
                None
            } else {
                Some(summary)
            }
        },
        None => Some(summary),
    }
}

/// Law: the transcript of two runs of messages is the transcript of the first, a line
/// break, and the transcript of the second; so every message gives one line, in order.
pub proof fn law_transcript_joins_lines(a: Seq<Message>, b: Seq<Message>)
    requires
        a.len() > 0,
        b.len() > 0,
    ensures
        transcript(a + b) == transcript(a) + "\n"@ + transcript(b),
    decreases b.len(),
{
    if b.len() == 1 {
        assert((a + b).drop_last() =~= a);
        assert((a + b).last() == b[0]);
    } else {
        law_transcript_joins_lines(a, b.drop_last());
        assert((a + b).drop_last() =~= a + b.drop_last());
        assert((a + b).last() == b.last());
        assert(transcript(a + b) =~= transcript(a) + "\n"@ + transcript(b));
    }
}

/// Law: the transcript of one message is its `role: content` line.
pub proof fn law_transcript_of_one(m: Message)
    ensures
        transcript(seq![m]) == m.role@ + ": "@ + m.content@,
{
}

} // verus!
