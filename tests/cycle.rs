use popup_chat::buffer::MessageBuffer;
use popup_chat::cycle::{plan_cycle, AppMessage, POLL_DELAY_MS};
use popup_chat::display::{author_label, chat_rows};
use popup_chat::record::{Fragment, RawMessage};

fn raw(id: &str, author: Option<&str>, words: &[&str]) -> RawMessage {
    RawMessage {
        id: id.to_string(),
        author_name: author.map(|a| a.to_string()),
        fragments: words.iter().map(|w| Fragment::Text(w.to_string())).collect(),
        timestamp: None,
    }
}

fn apply(buf: &mut MessageBuffer, fetched: Option<Vec<RawMessage>>) {
    let plan = plan_cycle(fetched);
    assert_eq!(plan.delay_ms, POLL_DELAY_MS);
    assert_eq!(plan.next, AppMessage::Tick);
    if let Some(batch) = plan.batch {
        buf.append_batch(batch);
    }
}

#[test]
fn fetched_batch_lands_in_buffer() {
    let mut buf = MessageBuffer::new();
    apply(&mut buf, Some(vec![raw("1", Some("Alice"), &["hi"])]));
    assert_eq!(buf.len(), 1);
    let m = &buf.messages()[0];
    assert_eq!(m.id, "1");
    assert_eq!(m.author, "Alice");
    assert_eq!(m.message, "hi");
}

#[test]
fn cycle_with_absent_author_records_unknown() {
    let mut buf = MessageBuffer::new();
    apply(&mut buf, Some(vec![raw("9", None, &["yo"])]));
    assert_eq!(buf.messages()[0].author, "Unknown");
}

#[test]
fn failed_fetch_leaves_buffer_and_rearms() {
    let mut buf = MessageBuffer::new();
    apply(&mut buf, Some(vec![raw("1", Some("A"), &["first"])]));
    let plan = plan_cycle(None);
    assert!(plan.batch.is_none());
    assert_eq!(plan.delay_ms, 500);
    assert_eq!(plan.next, AppMessage::Tick);
    apply(&mut buf, None);
    assert_eq!(buf.len(), 1);
    assert_eq!(buf.messages()[0].id, "1");
    apply(&mut buf, Some(vec![raw("2", Some("B"), &["second"])]));
    assert_eq!(buf.len(), 2);
    assert_eq!(buf.messages()[1].message, "second");
}

#[test]
fn empty_fetch_skips_the_write() {
    let plan = plan_cycle(Some(vec![]));
    assert!(plan.batch.is_none());
    assert_eq!(plan.delay_ms, 500);
}

#[test]
fn label_brackets_author() {
    assert_eq!(author_label("Bob"), "[Bob]");
    assert_eq!(author_label(""), "[]");
}

#[test]
fn rows_follow_buffer() {
    let mut buf = MessageBuffer::new();
    apply(&mut buf, Some(vec![raw("1", Some("Alice"), &["hi", "all"]), raw("2", None, &[])]));
    let rows = chat_rows(buf.messages());
    assert_eq!(rows.len(), 2);
    assert_eq!(rows[0].label, "[Alice]");
    assert_eq!(rows[0].body, "hi all");
    assert_eq!(rows[1].label, "[Unknown]");
    assert_eq!(rows[1].body, "");
}
