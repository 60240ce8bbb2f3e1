//! The append-only, timestamped log of conversation turns.

use vstd::prelude::*;
use crate::llm::{LLMMessage, MessageView};

verus! {

/// Relies on `SystemTime::now` and chrono's `From<SystemTime> for
/// DateTime<Utc>`, which maps a clock before 1970 to a negative timestamp:
/// the current time in milliseconds since the Unix epoch. Nothing is promised
/// of its value.
#[verifier::external_body]
fn now_millis() -> (r: i64) {
    chrono::DateTime::<chrono::Utc>::from(std::time::SystemTime::now()).timestamp_millis()
}

#[derive(Debug)]
pub struct HistoryItem {
    /// Milliseconds since the Unix epoch.
    pub timestamp: i64,
    pub content: LLMMessage,
}

#[derive(Debug)]
pub struct History {
    pub items: Vec<HistoryItem>,
}

/// The messages of a list of items, in order.
pub open spec fn messages_of(items: Seq<HistoryItem>) -> Seq<MessageView> {
    items.map_values(|i: HistoryItem| i.content@)
}

impl History {
    /// The conversation so far, without timestamps.
    pub open spec fn context(&self) -> Seq<MessageView> {
        messages_of(self.items@)
    }

    pub fn new() -> (r: History)
        ensures
            r.context() == Seq::<MessageView>::empty(),
    {
        History { items: Vec::new() }
    }

    /// Appends a message stamped with the current time.
    pub fn add_message(&mut self, message: LLMMessage)
        ensures
            final(self).context() == old(self).context().push(message@),
            final(self).items@.len() == old(self).items@.len() + 1,
            final(self).items@.drop_last() == old(self).items@,
            final(self).items@.last().content == message,
    {
        let timestamp = now_millis();
        self.items.push(HistoryItem { timestamp, content: message });
        assert(messages_of(self.items@) =~= old(self).context().push(message@));
        assert(self.items@.drop_last() =~= old(self).items@);
    }

    /// Every appended message, in the order of appending.
    pub fn get_context(&self) -> (r: Vec<LLMMessage>)
        ensures
            r@.map_values(|m: LLMMessage| m@) == self.context(),
    {
        let n = self.items.len();
        let mut out: Vec<LLMMessage> = Vec::new();
        let mut i: usize = 0;
        while i < n
            invariant
                n == self.items@.len(),
                i <= n,
                out@.map_values(|m: LLMMessage| m@) == messages_of(self.items@.subrange(0, i as int)),
            decreases n - i,
        {
            let d = self.items[i].content.duplicate();
            let ghost prev = out@;
            out.push(d);
            assert(out@.map_values(|m: LLMMessage| m@) =~= prev.map_values(|m: LLMMessage| m@).push(d@));
            assert(self.items@.subrange(0, i + 1) =~= self.items@.subrange(0, i as int).push(self.items@[i as int]));
            assert(messages_of(self.items@.subrange(0, i + 1)) =~= messages_of(self.items@.subrange(0, i as int)).push(self.items@[i as int].content@));
            assert(out@.map_values(|m: LLMMessage| m@) =~= messages_of(self.items@.subrange(0, i + 1)));
            i = i + 1;
        }
        assert(self.items@.subrange(0, n as int) =~= self.items@);
        out
    }
}

impl Default for History {
    fn default() -> (r: History)
        ensures
            r.context() == Seq::<MessageView>::empty(),
    {
        History::new()
    }
}

/// Whatever the kinds of the messages, a history that starts empty and
/// receives the appends `ms` one after another holds exactly `ms`, in
/// that order.
pub proof fn lemma_context_is_append_log(hs: Seq<History>, ms: Seq<MessageView>)
    requires
        hs.len() == ms.len() + 1,
        hs[0].context() == Seq::<MessageView>::empty(),
        forall|k: int| 0 <= k < ms.len() ==> #[trigger] hs[k + 1].context() == hs[k].context().push(ms[k]),
    ensures
        hs.last().context() == ms,
        hs.last().context().len() == ms.len(),
    decreases ms.len(),
{
    if ms.len() > 0 {
        let n = ms.len() - 1;
        lemma_context_is_append_log(hs.drop_last(), ms.drop_last());
        assert(hs[n + 1].context() == hs[n].context().push(ms[n]));
        assert(hs.drop_last().last() == hs[n]);
        assert(ms =~= ms.drop_last().push(ms[n]));
    }
}

} // verus!
