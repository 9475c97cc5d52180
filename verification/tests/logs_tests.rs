use secm_app::logs::{copy_text, filter_by_level, filter_entries, merge_log_rows, LogEntry, KEEP_LINES};

fn e(ts: &str, level: &str, module: &str, msg: &str) -> LogEntry {
    LogEntry {
        timestamp: ts.to_string(),
        level: level.to_string(),
        module: module.to_string(),
        message: msg.to_string(),
    }
}

fn msgs(v: &[LogEntry]) -> Vec<String> {
    v.iter().map(|x| x.message.clone()).collect()
}

#[test]
fn merge_appends_new_records_on_same_head() {
    let local = vec![e("1", "Info", "m", "a"), e("2", "Info", "m", "b")];
    let all = vec![e("1", "Info", "m", "a"), e("2", "Info", "m", "b"), e("3", "Warn", "m", "c")];
    let r = merge_log_rows(local, all).expect("changed");
    assert_eq!(msgs(&r), vec!["a", "b", "c"]);
}

#[test]
fn merge_without_news_is_none() {
    let local = vec![e("1", "Info", "m", "a")];
    let all = vec![e("1", "Info", "m", "a")];
    assert!(merge_log_rows(local, all).is_none());
    assert!(merge_log_rows(vec![], vec![]).is_none());
}

#[test]
fn merge_realigns_when_head_differs() {
    let local = vec![e("1", "Info", "m", "a")];
    let all = vec![e("5", "Info", "m", "x"), e("6", "Info", "m", "y")];
    let r = merge_log_rows(local, all).expect("changed");
    assert_eq!(msgs(&r), vec!["x", "y"]);
    // first pull
    let r = merge_log_rows(vec![], vec![e("1", "Info", "m", "a")]).expect("changed");
    assert_eq!(msgs(&r), vec!["a"]);
    // cleared buffer
    let r = merge_log_rows(vec![e("1", "Info", "m", "a")], vec![]).expect("changed");
    assert!(r.is_empty());
}

#[test]
fn merge_same_length_rotation_realigns() {
    let local = vec![e("1", "Info", "m", "a"), e("2", "Info", "m", "b")];
    let all = vec![e("2", "Info", "m", "b"), e("3", "Warn", "m", "c")];
    let r = merge_log_rows(local, all).expect("realigned");
    assert_eq!(msgs(&r), vec!["b", "c"]);
}

#[test]
fn merge_same_head_shorter_buffer_keeps_panel() {
    let local = vec![e("1", "Info", "m", "a"), e("2", "Info", "m", "b")];
    let all = vec![e("1", "Info", "m", "a")];
    assert!(merge_log_rows(local, all).is_none());
}

#[test]
fn merge_keeps_newest_rows() {
    let all: Vec<LogEntry> = (0..KEEP_LINES + 5).map(|i| e(&i.to_string(), "Info", "m", &format!("r{i}"))).collect();
    let r = merge_log_rows(vec![], all).expect("changed");
    assert_eq!(r.len(), KEEP_LINES);
    assert_eq!(r[0].message, "r5");
    assert_eq!(r[KEEP_LINES - 1].message, format!("r{}", KEEP_LINES + 4));
}

#[test]
fn level_filter() {
    let rows = vec![e("1", "Info", "m", "a"), e("2", "Warn", "m", "b"), e("3", "Info", "m", "c")];
    assert_eq!(msgs(&filter_by_level(&rows, "")), vec!["a", "b", "c"]);
    assert_eq!(msgs(&filter_by_level(&rows, "Info")), vec!["a", "c"]);
    assert!(filter_by_level(&rows, "Error").is_empty());
}

#[test]
fn page_filter_by_level_and_keyword() {
    let rows = vec![
        e("1", "Info", "network", "ping ok"),
        e("2", "Warn", "cleanup", "失败 x"),
        e("3", "Info", "tray", "hello"),
    ];
    assert_eq!(msgs(&filter_entries(&rows, "", "")).len(), 3);
    assert_eq!(msgs(&filter_entries(&rows, "", "net")), vec!["ping ok"]);
    assert_eq!(msgs(&filter_entries(&rows, "", "失败")), vec!["失败 x"]);
    assert_eq!(msgs(&filter_entries(&rows, "Info", "l")), vec!["hello"]);
    assert!(filter_entries(&rows, "Warn", "ping").is_empty());
}

#[test]
fn copy_text_format() {
    assert_eq!(copy_text(&e("12:00:01", "Warn", "m", "disk hot")), "[Warn] 12:00:01 disk hot");
}
