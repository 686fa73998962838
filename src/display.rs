//! The rows that the presentation layer draws from a buffer snapshot.

use vstd::prelude::*;

use crate::record::ChatMessage;

verus! {

/// One visual row: the bracketed author label and the message body.
pub struct ChatRow {
    pub label: String,
    pub body: String,
}

/// The label shown for an author: the name in square brackets.
pub open spec fn label_of(author: Seq<char>) -> Seq<char> {
    seq!['['] + author + seq![']']
}

/// The row drawn for a record.
pub open spec fn row_of(m: ChatMessage, row: ChatRow) -> bool {
    &&& row.label@ == label_of(m.author@)
    &&& row.body@ == m.message@
}

/// Encloses an author name in square brackets.
pub fn author_label(author: &str) -> (r: String)
    ensures
        r@ == label_of(author@),
{
    proof {
        reveal_strlit("[");
        reveal_strlit("]");
    }
    let mut label = String::from_str("[");
    label.append(author);
    label.append("]");
    label
}

/// One row per record, in the buffer's order.
pub fn chat_rows(messages: &Vec<ChatMessage>) -> (r: Vec<ChatRow>)
    ensures
        r@.len() == messages@.len(),
        forall|i: int| 0 <= i < messages@.len() ==> #[trigger] row_of(messages@[i], r@[i]),
{
    let mut rows: Vec<ChatRow> = Vec::new();
    let mut i: usize = 0;
    while i < messages.len()
        invariant
            i <= messages@.len(),
            rows@.len() == i,
            forall|j: int| 0 <= j < i ==> #[trigger] row_of(messages@[j], rows@[j]),
        decreases messages@.len() - i,
    {
        let m = &messages[i];
        let row = ChatRow { label: author_label(m.author.as_str()), body: m.message.clone() };
        rows.push(row);
        i += 1;
    }
    rows
}

} // verus!
