//! The bounded buffer of recent chat records.

use vstd::prelude::*;

use crate::record::ChatMessage;

verus! {

/// The most records the buffer keeps.
pub const MAX_MESSAGES: usize = 50;

/// The last `n` items of `s`, or all of `s` when it is shorter.
pub open spec fn keep_last<T>(s: Seq<T>, n: nat) -> Seq<T> {
    if s.len() <= n {
        s
    } else {
        s.subrange(s.len() - n, s.len() as int)
    }
}

/// The buffer's contents after appending `batch` to `buf`.
pub open spec fn after_append(buf: Seq<ChatMessage>, batch: Seq<ChatMessage>) -> Seq<ChatMessage> {
    keep_last(buf + batch, MAX_MESSAGES as nat)
}

/// All records of the batches, in overall arrival order.
pub open spec fn concat_batches(batches: Seq<Seq<ChatMessage>>) -> Seq<ChatMessage>
    decreases batches.len(),
{
    if batches.len() == 0 {
        Seq::empty()
    } else {
        concat_batches(batches.drop_last()) + batches.last()
    }
}

/// The buffer's contents after appending each batch in turn to `start`.
pub open spec fn after_batches(
    start: Seq<ChatMessage>,
    batches: Seq<Seq<ChatMessage>>,
) -> Seq<ChatMessage>
    decreases batches.len(),
{
    if batches.len() == 0 {
        start
    } else {
        after_append(after_batches(start, batches.drop_last()), batches.last())
    }
}

/// Trimming before an append loses nothing that trimming after it keeps.
proof fn lemma_trim_then_append(s: Seq<ChatMessage>, b: Seq<ChatMessage>, n: nat)
    ensures
        keep_last(keep_last(s, n) + b, n) == keep_last(s + b, n),
{
    if s.len() > n {
        let k = keep_last(s, n);
        assert(keep_last(k + b, n) =~= keep_last(s + b, n));
    }
}

/// Appending batches one after another to a buffer within its bound leaves
/// exactly the last `MAX_MESSAGES` records of everything, in arrival order.
pub proof fn lemma_appends_keep_latest(start: Seq<ChatMessage>, batches: Seq<Seq<ChatMessage>>)
    requires
        start.len() <= MAX_MESSAGES,
    ensures
        after_batches(start, batches) == keep_last(start + concat_batches(batches), MAX_MESSAGES as nat),
    decreases batches.len(),
{
    if batches.len() == 0 {
        assert(start + concat_batches(batches) =~= start);
    } else {
        let prev = batches.drop_last();
        lemma_appends_keep_latest(start, prev);
        lemma_trim_then_append(start + concat_batches(prev), batches.last(), MAX_MESSAGES as nat);
        assert(start + concat_batches(prev) + batches.last() =~= start + concat_batches(batches));
    }
}

/// From an empty buffer, any sequence of batches leaves
/// `min(total records, MAX_MESSAGES)` records: the last ones to arrive, in order.
pub proof fn lemma_batches_from_empty(batches: Seq<Seq<ChatMessage>>)
    ensures
        after_batches(Seq::empty(), batches) == keep_last(concat_batches(batches), MAX_MESSAGES as nat),
        after_batches(Seq::empty(), batches).len() == if concat_batches(batches).len() < MAX_MESSAGES {
            concat_batches(batches).len()
        } else {
            MAX_MESSAGES as nat
        },
{
    lemma_appends_keep_latest(Seq::empty(), batches);
    assert(Seq::<ChatMessage>::empty() + concat_batches(batches) =~= concat_batches(batches));
}

/// Chat records in arrival order, oldest first, never more than
/// `MAX_MESSAGES` of them: the most recent ones.
pub struct MessageBuffer {
    messages: Vec<ChatMessage>,
}

impl View for MessageBuffer {
    type V = Seq<ChatMessage>;

    closed spec fn view(&self) -> Seq<ChatMessage> {
        self.messages@
    }
}

impl MessageBuffer {
    /// The buffer stays within its bound.
    pub closed spec fn wf(&self) -> bool {
        self.messages@.len() <= MAX_MESSAGES
    }

    /// An empty buffer.
    pub fn new() -> (r: MessageBuffer)
        ensures
            r.wf(),
            r@ == Seq::<ChatMessage>::empty(),
    {
        MessageBuffer { messages: Vec::new() }
    }

    /// Appends a batch at the end, in order, then drops the oldest records
    /// beyond `MAX_MESSAGES`. An empty batch changes nothing.
    pub fn append_batch(&mut self, batch: Vec<ChatMessage>)
        requires
            old(self).wf(),
        ensures
            final(self).wf(),
            final(self)@ == after_append(old(self)@, batch@),
            batch@.len() == 0 ==> final(self)@ == old(self)@,
    {
        let mut batch = batch;
        let ghost joined = self.messages@ + batch@;
        self.messages.append(&mut batch);
        assert(self.messages@ =~= joined);
        let len = self.messages.len();
        if len > MAX_MESSAGES {
            let kept = self.messages.split_off(len - MAX_MESSAGES);
            self.messages = kept;
        }
        proof {
            if joined.len() <= MAX_MESSAGES {
                assert(keep_last(joined, MAX_MESSAGES as nat) == joined);
            }
        }
    }

    /// Number of records held.
    pub fn len(&self) -> (r: usize)
        ensures
            r == self@.len(),
    {
        self.messages.len()
    }

    /// Whether the buffer holds no record.
    pub fn is_empty(&self) -> (r: bool)
        ensures
            r == (self@.len() == 0),
    {
        self.messages.len() == 0
    }

    /// The records, oldest first.
    pub fn messages(&self) -> (r: &Vec<ChatMessage>)
        ensures
            r@ == self@,
    {
        &self.messages
    }
}

} // verus!
