use mendimaru::runtime_session::{log_batch, port_diagnosis, MAX_LOG_LINES_PER_BATCH};

#[test]
fn pages_the_runtime_log_by_line_cursor() {
    let content = b"first\r\nsecond\nthird";
    let batch = log_batch("rt_1", None, content).unwrap();
    assert_eq!(batch.entries, vec!["first", "second", "third"]);
    assert_eq!(batch.next_cursor, None);
    assert!(!batch.truncated);
    let rest = log_batch("rt_1", Some("2"), content).unwrap();
    assert_eq!(rest.entries, vec!["third"]);
    assert!(log_batch("rt_1", Some("3"), content).unwrap().entries.is_empty());
    assert!(log_batch("rt_1", Some("4"), content).is_none());
    assert!(log_batch("rt_1", Some("x"), content).is_none());
}

#[test]
fn long_logs_are_paged_with_a_next_cursor() {
    let content: String = (0..2500).map(|i| format!("line {i}\n")).collect();
    let first = log_batch("rt_1", Some("0"), content.as_bytes()).unwrap();
    assert_eq!(first.entries.len(), MAX_LOG_LINES_PER_BATCH);
    assert_eq!(first.next_cursor.as_deref(), Some("1000"));
    assert!(first.truncated);
    let last = log_batch("rt_1", Some("2000"), content.as_bytes()).unwrap();
    assert_eq!(last.entries.len(), 500);
    assert_eq!(last.entries[0], "line 2000");
    assert_eq!(last.next_cursor, None);
    let lossy = log_batch("rt_1", None, b"ok\xff\n").unwrap();
    assert_eq!(lossy.entries, vec!["ok\u{fffd}"]);
}

#[test]
fn only_known_port_probe_messages_diagnose() {
    assert_eq!(port_diagnosis("MENDIMARU_RUNTIME_NOT_LISTENING"), Some("MENDIMARU_RUNTIME_NOT_LISTENING"));
    assert_eq!(port_diagnosis("MENDIMARU_RUNTIME_LISTENING"), Some("MENDIMARU_RUNTIME_LISTENING"));
    assert_eq!(port_diagnosis("MENDIMARU_RUNTIME_FIREWALL_BLOCKED"), Some("MENDIMARU_RUNTIME_FIREWALL_BLOCKED"));
    assert_eq!(port_diagnosis("anything else"), None);
}
