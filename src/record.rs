//! Chat records and their normalization from raw feed messages.

use vstd::prelude::*;

verus! {

/// A point in time, as microseconds since the Unix epoch (UTC).
#[derive(Clone, Copy, Debug, PartialEq, Eq, Structural)]
pub struct Timestamp {
    pub unix_micros: i64,
}

/// One piece of a raw message body.
#[derive(Clone, Debug)]
pub enum Fragment {
    /// Literal text.
    Text(String),
    /// An emoji, with its textual alias when the feed supplies one.
    Emoji(Option<String>),
}

/// One message as the upstream feed delivers it.
#[derive(Clone, Debug)]
pub struct RawMessage {
    pub id: String,
    pub author_name: Option<String>,
    pub fragments: Vec<Fragment>,
    pub timestamp: Option<Timestamp>,
}

/// One normalized chat message.
#[derive(Clone, Debug)]
pub struct ChatMessage {
    pub id: String,
    pub author: String,
    pub message: String,
    pub timestamp: Option<Timestamp>,
}

/// The author shown when the feed gives no name.
pub open spec fn unknown_author() -> Seq<char> {
    seq!['U', 'n', 'k', 'n', 'o', 'w', 'n']
}

/// The text a fragment stands for: its content, an emoji's alias, or nothing.
pub open spec fn fragment_text(f: Fragment) -> Seq<char> {
    match f {
        Fragment::Text(t) => t@,
        Fragment::Emoji(Some(alias)) => alias@,
        Fragment::Emoji(None) => Seq::empty(),
    }
}

/// The texts of a sequence of fragments, in order.
pub open spec fn fragment_texts(fs: Seq<Fragment>) -> Seq<Seq<char>> {
    fs.map_values(|f: Fragment| fragment_text(f))
}

/// The pieces joined with one space between each neighbouring pair.
pub open spec fn join_with_spaces(parts: Seq<Seq<char>>) -> Seq<char>
    decreases parts.len(),
{
    if parts.len() == 0 {
        Seq::empty()
    } else if parts.len() == 1 {
        parts[0]
    } else {
        join_with_spaces(parts.drop_last()) + seq![' '] + parts.last()
    }
}

/// The author of a raw message: its name, or the placeholder.
pub open spec fn author_of(name: Option<String>) -> Seq<char> {
    match name {
        Some(n) => n@,
        None => unknown_author(),
    }
}

/// What normalization makes of a raw message.
pub open spec fn normalized(raw: RawMessage, r: ChatMessage) -> bool {
    &&& r.id@ == raw.id@
    &&& r.author@ == author_of(raw.author_name)
    &&& r.message@ == join_with_spaces(fragment_texts(raw.fragments@))
    &&& r.timestamp == raw.timestamp
}

/// The text of one fragment.
pub fn fragment_str(f: &Fragment) -> (r: &str)
    ensures
        r@ == fragment_text(*f),
{
    match f {
        Fragment::Text(t) => t.as_str(),
        Fragment::Emoji(Some(alias)) => alias.as_str(),
        Fragment::Emoji(None) => {
            proof {
                reveal_strlit("");
            }
            ""
        },
    }
}

/// Joins the fragments' texts in order with single spaces, keeping empty
/// texts (so a missing emoji alias leaves its spaces behind).
pub fn join_fragments(fragments: &Vec<Fragment>) -> (r: String)
    ensures
        r@ == join_with_spaces(fragment_texts(fragments@)),
{
    let mut out = String::new();
    let mut i: usize = 0;
    while i < fragments.len()
        invariant
            i <= fragments@.len(),
            out@ == join_with_spaces(fragment_texts(fragments@.subrange(0, i as int))),
        decreases fragments@.len() - i,
    {
        let piece = fragment_str(&fragments[i]);
        proof {
            reveal_strlit(" ");
            let before = fragment_texts(fragments@.subrange(0, i as int));
            let after = fragment_texts(fragments@.subrange(0, i + 1));
            assert(after.drop_last() =~= before);
            assert(after.last() == piece@);
        }
        if i > 0 {
            out.append(" ");
        }
        out.append(piece);
        i += 1;
    }
    proof {
        assert(fragments@.subrange(0, i as int) =~= fragments@);
    }
    out
}

/// Turns one raw feed message into a chat record.
pub fn normalize(raw: &RawMessage) -> (r: ChatMessage)
    ensures
        normalized(*raw, r),
{
    let message = join_fragments(&raw.fragments);
    let author = match &raw.author_name {
        Some(name) => name.clone(),
        None => {
            proof {
                reveal_strlit("Unknown");
            }
            let placeholder = String::from_str("Unknown");
            assert(placeholder@ =~= unknown_author());
            placeholder
        },
    };
    ChatMessage { id: raw.id.clone(), author, message, timestamp: raw.timestamp }
}

/// Every record is the normalization of the raw message at its position.
pub open spec fn batch_normalized(raw: Seq<RawMessage>, r: Seq<ChatMessage>) -> bool {
    &&& r.len() == raw.len()
    &&& forall|i: int| 0 <= i < raw.len() ==> #[trigger] normalized(raw[i], r[i])
}

/// Normalizes a batch of raw messages, keeping their order.
pub fn normalize_batch(raw: &Vec<RawMessage>) -> (r: Vec<ChatMessage>)
    ensures
        batch_normalized(raw@, r@),
{
    let mut out: Vec<ChatMessage> = Vec::new();
    let mut i: usize = 0;
    while i < raw.len()
        invariant
            i <= raw@.len(),
            out@.len() == i,
            forall|j: int| 0 <= j < i ==> #[trigger] normalized(raw@[j], out@[j]),
        decreases raw@.len() - i,
    {
        let rec = normalize(&raw[i]);
        out.push(rec);
        i += 1;
    }
    out
}

} // verus!
