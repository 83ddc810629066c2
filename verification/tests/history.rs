use webterm::history::HistoryLog;

#[test]
fn new_log_is_empty() {
    let log = HistoryLog::new();
    assert_eq!(log.len(), 0);
    assert!(log.is_empty());
    assert_eq!(log.snapshot(), Vec::<String>::new());
    assert_eq!(log.get(0), None);
}

#[test]
fn append_adds_at_the_end() {
    let mut log = HistoryLog::new();
    log.append("first");
    assert_eq!(log.len(), 1);
    assert!(!log.is_empty());
    log.append("second");
    log.append("third");
    assert_eq!(log.len(), 3);
    assert_eq!(log.snapshot(), vec!["first".to_string(), "second".to_string(), "third".to_string()]);
}

#[test]
fn append_keeps_the_text_verbatim() {
    let mut log = HistoryLog::new();
    log.append("  GaMeS   1 ");
    log.append("");
    log.append("\t");
    log.append("h\u{e9}llo");
    assert_eq!(
        log.snapshot(),
        vec!["  GaMeS   1 ".to_string(), String::new(), "\t".to_string(), "h\u{e9}llo".to_string()]
    );
}

#[test]
fn append_keeps_duplicates() {
    let mut log = HistoryLog::new();
    log.append("same");
    log.append("same");
    assert_eq!(log.len(), 2);
    assert_eq!(log.snapshot(), vec!["same".to_string(), "same".to_string()]);
}

#[test]
fn get_reads_by_position() {
    let mut log = HistoryLog::new();
    log.append("a");
    log.append("b");
    assert_eq!(log.get(0), Some("a"));
    assert_eq!(log.get(1), Some("b"));
    assert_eq!(log.get(2), None);
    assert_eq!(log.get(usize::MAX), None);
}

#[test]
fn snapshot_is_untouched_by_later_appends() {
    let mut log = HistoryLog::new();
    log.append("a");
    let earlier = log.snapshot();
    log.append("b");
    assert_eq!(earlier, vec!["a".to_string()]);
    assert_eq!(log.snapshot(), vec!["a".to_string(), "b".to_string()]);
}

#[test]
fn many_appends_lose_and_repeat_nothing() {
    let mut log = HistoryLog::new();
    let n = 1000usize;
    for i in 0..n {
        log.append(&format!("command {}", i));
        assert_eq!(log.len(), i + 1);
    }
    let all = log.snapshot();
    assert_eq!(all.len(), n);
    for (i, entry) in all.iter().enumerate() {
        assert_eq!(entry, &format!("command {}", i));
    }
}

#[test]
fn order_of_appends_changes_only_the_order() {
    let batch = ["x", "y", "z", "x"];
    let mut forward = HistoryLog::new();
    forward.append("start");
    for text in batch.iter() {
        forward.append(text);
    }
    let mut backward = HistoryLog::new();
    backward.append("start");
    for text in batch.iter().rev() {
        backward.append(text);
    }
    assert_eq!(forward.len(), backward.len());
    assert_eq!(forward.len(), 1 + batch.len());
    let mut left = forward.snapshot();
    let mut right = backward.snapshot();
    assert_eq!(left[0], "start");
    assert_eq!(right[0], "start");
    left.sort();
    right.sort();
    assert_eq!(left, right);
}

#[test]
fn default_log_is_empty() {
    let log = HistoryLog::default();
    assert_eq!(log.len(), 0);
    assert_eq!(log.snapshot(), Vec::<String>::new());
}
