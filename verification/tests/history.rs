use qingjian::InputHistory;

#[test]
fn records_in_order_and_returns_recent_chars() {
    let mut history = InputHistory::default();
    history.record("我们");
    history.record("今天");
    history.record("");
    assert_eq!(history.text(), "我们今天");
    assert_eq!(history.recent(2), "今天");
    assert_eq!(history.recent(10), "我们今天");
    assert_eq!(history.recent(0), "");
}

#[test]
fn drops_oldest_beyond_capacity_on_char_boundaries() {
    let mut history = InputHistory::with_capacity(3);
    history.record("开发");
    history.record("输入法");
    assert_eq!(history.text(), "输入法");
    history.record("a");
    assert_eq!(history.text(), "入法a");
    history.clear();
    assert!(history.is_empty());
}

#[test]
fn history_last_sentence_reads_recorded_text() {
    let mut history = InputHistory::default();
    history.record("早上好。");
    assert_eq!(history.last_sentence(), Some("早上好"));
    history.record("现在呢");
    assert_eq!(history.last_sentence(), Some("现在呢"));
}

#[test]
fn default_capacity_is_4096_characters() {
    let mut history = InputHistory::default();
    history.record(&"字".repeat(4096));
    assert_eq!(history.text().chars().count(), 4096);
    history.record("末");
    assert_eq!(history.text().chars().count(), 4096);
    assert_eq!(history.recent(2), "字末");
}

#[test]
fn history_without_capacity_stays_empty() {
    let mut history = InputHistory::with_capacity(0);
    history.record("abc");
    assert!(history.is_empty());
    assert_eq!(history.recent(5), "");
    assert_eq!(history.last_sentence(), None);
}

#[test]
fn records_in_pieces_or_at_once_keep_the_same() {
    let mut pieces = InputHistory::with_capacity(5);
    for piece in ["一二三", "", "四五", "六七八"] {
        pieces.record(piece);
    }
    let mut whole = InputHistory::with_capacity(5);
    whole.record("一二三四五六七八");
    assert_eq!(pieces.text(), "四五六七八");
    assert_eq!(pieces.text(), whole.text());
}

#[test]
fn last_record_is_recent() {
    let mut history = InputHistory::with_capacity(4);
    history.record("abcd");
    history.record("输入");
    assert_eq!(history.recent(2), "输入");
    assert_eq!(history.recent(3), "d输入");
    assert_eq!(history.recent(4), "cd输入");
}

#[test]
fn clear_keeps_the_capacity() {
    let mut history = InputHistory::with_capacity(2);
    history.record("abc");
    history.clear();
    assert_eq!(history.text(), "");
    history.record("xyz");
    assert_eq!(history.text(), "yz");
}

#[test]
fn clone_is_independent() {
    let mut history = InputHistory::with_capacity(3);
    history.record("ab");
    let copy = history.clone();
    history.record("cd");
    assert_eq!(copy.text(), "ab");
    assert_eq!(history.text(), "bcd");
}
