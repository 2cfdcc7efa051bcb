use cleanx::history::{HistoryEntry, HistoryLogger};
use cleanx::time::Timestamp;

const JAN_15: Timestamp = Timestamp { secs: 1_705_314_600, nanos: 0 };

#[test]
fn log_line_of_a_deletion() {
    let entry = HistoryEntry::new("DELETE".to_string(), "/tmp/a".to_string(), JAN_15).with_size(5);
    assert_eq!(entry.to_log_line().unwrap(), "2024-01-15T10:30:00+00:00 DELETE /tmp/a size=5\n");
    let bare = HistoryEntry::new("DELETE".to_string(), "/tmp/a".to_string(), JAN_15);
    assert_eq!(bare.size, None);
    assert_eq!(bare.to_log_line().unwrap(), "2024-01-15T10:30:00+00:00 DELETE /tmp/a\n");
    let fine = HistoryEntry::new(
        "DELETE".to_string(),
        "/x".to_string(),
        Timestamp { secs: 0, nanos: 500_000_000 },
    );
    assert_eq!(fine.to_log_line().unwrap(), "1970-01-01T00:00:00.500+00:00 DELETE /x\n");
}

#[test]
fn a_time_without_a_date_has_no_line() {
    let entry = HistoryEntry::new(
        "DELETE".to_string(),
        "/x".to_string(),
        Timestamp { secs: i64::MAX, nanos: 0 },
    );
    assert_eq!(entry.to_log_line(), None);
    let logger = HistoryLogger::with_data_dir("/data");
    assert_eq!(logger.log_delete("/x", None, Timestamp { secs: i64::MIN, nanos: 0 }), None);
}

#[test]
fn logger_writes_delete_records() {
    let logger = HistoryLogger::with_data_dir("/Users/u/Library/Application Support/cleanx");
    assert_eq!(logger.path(), "/Users/u/Library/Application Support/cleanx/history.log");
    assert_eq!(
        logger.log_delete("/tmp/cache", Some(1024), JAN_15).unwrap(),
        "2024-01-15T10:30:00+00:00 DELETE /tmp/cache size=1024\n"
    );
    assert_eq!(
        logger.log_delete("/tmp/cache", None, JAN_15).unwrap(),
        "2024-01-15T10:30:00+00:00 DELETE /tmp/cache\n"
    );
    let entry = HistoryEntry::new("MOVE".to_string(), "/y".to_string(), JAN_15);
    assert_eq!(logger.log(&entry).unwrap(), "2024-01-15T10:30:00+00:00 MOVE /y\n");
}

#[test]
fn reading_a_line_back() {
    let logger = HistoryLogger::with_data_dir("/d");
    let e = logger.parse_line("2024-01-15T10:30:00+00:00 DELETE /tmp/a size=5").unwrap();
    assert_eq!(e.timestamp, JAN_15);
    assert_eq!(e.action, "DELETE");
    assert_eq!(e.path, "/tmp/a");
    assert_eq!(e.size, Some(5));
    let other_zone = logger.parse_line("2024-01-15T12:30:00+02:00 DELETE /tmp/a").unwrap();
    assert_eq!(other_zone.timestamp, JAN_15);
    assert_eq!(other_zone.size, None);
    assert_eq!(logger.parse_line("2024-01-15T10:30:00Z DELETE /a size=x").unwrap().size, None);
    assert_eq!(logger.parse_line("2024-01-15T10:30:00Z DELETE /a bytes=5").unwrap().size, None);
    assert_eq!(logger.parse_line("2024-01-15T10:30:00Z DELETE /a size=").unwrap().size, None);
    // the path ends at the first space
    let spaced = logger.parse_line("2024-01-15T10:30:00Z DELETE /my files size=5").unwrap();
    assert_eq!(spaced.path, "/my");
    assert_eq!(spaced.size, None);
    assert!(logger.parse_line("").is_none());
    assert!(logger.parse_line("2024-01-15T10:30:00Z DELETE").is_none());
    assert!(logger.parse_line("yesterday DELETE /a").is_none());
    assert!(logger.parse_line("2024-01-15 10:30:00 DELETE /a").is_none());
}

#[test]
fn what_is_written_is_read_back() {
    let logger = HistoryLogger::with_data_dir("/d");
    let line = logger.log_delete("/tmp/cache", Some(77), JAN_15).unwrap();
    let entries = logger.read_history(&line, None);
    assert_eq!(entries.len(), 1);
    assert_eq!(entries[0].timestamp, JAN_15);
    assert_eq!(entries[0].path, "/tmp/cache");
    assert_eq!(entries[0].size, Some(77));
}

#[test]
fn reading_the_log() {
    let logger = HistoryLogger::with_data_dir("/d");
    let content = "2024-01-15T10:30:00Z DELETE /a size=1\r\n\
                   garbage\n\
                   2024-01-15T10:30:01Z DELETE /b size=2\n\
                   \n\
                   2024-01-15T10:30:02Z DELETE /c\n";
    let paths = |limit: Option<usize>| -> Vec<String> {
        logger.read_history(content, limit).into_iter().map(|e| e.path).collect()
    };
    assert_eq!(paths(None), vec!["/a", "/b", "/c"]);
    assert_eq!(paths(Some(2)), vec!["/c", "/b"]);
    assert_eq!(paths(Some(3)), vec!["/c", "/b", "/a"]);
    assert_eq!(paths(Some(10)), vec!["/c", "/b", "/a"]);
    assert!(paths(Some(0)).is_empty());
    assert_eq!(logger.read_history(content, None)[0].size, Some(1));
    assert!(logger.read_history("", None).is_empty());
    assert!(logger.read_history("", Some(5)).is_empty());
}
