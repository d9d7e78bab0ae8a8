use deskserver::state::{
    default_machine_name, log_event, machine_name_or_unknown, push_log_entry, LogEntry, LogLevel,
    MAX_LOG_ENTRIES,
};
use std::collections::VecDeque;

fn entry(i: usize) -> LogEntry {
    LogEntry { timestamp: "00:00:00".to_string(), message: format!("m{}", i), level: LogLevel::Info }
}

#[test]
fn log_keeps_newest_500() {
    let mut log = VecDeque::new();
    for i in 0..MAX_LOG_ENTRIES {
        push_log_entry(&mut log, entry(i));
    }
    assert_eq!(log.len(), 500);
    assert_eq!(log.front().unwrap().message, "m0");
    push_log_entry(&mut log, entry(500));
    assert_eq!(log.len(), 500);
    assert_eq!(log.front().unwrap().message, "m1");
    assert_eq!(log.back().unwrap().message, "m500");
    for i in 501..1200 {
        push_log_entry(&mut log, entry(i));
    }
    assert_eq!(log.len(), 500);
    assert_eq!(log.front().unwrap().message, "m700");
    assert_eq!(log.back().unwrap().message, "m1199");
}

#[test]
fn log_event_stamps_clock_time() {
    let mut log = VecDeque::new();
    log_event(&mut log, "Deskserver started".to_string(), LogLevel::Success);
    assert_eq!(log.len(), 1);
    let e = &log[0];
    assert_eq!(e.message, "Deskserver started");
    assert_eq!(e.level, LogLevel::Success);
    let ts: Vec<char> = e.timestamp.chars().collect();
    assert_eq!(ts.len(), 8);
    assert_eq!(ts[2], ':');
    assert_eq!(ts[5], ':');
    for i in [0, 1, 3, 4, 6, 7] {
        assert!(ts[i].is_ascii_digit());
    }
}

#[test]
fn machine_name_falls_back_to_unknown() {
    assert_eq!(machine_name_or_unknown(None), "Unknown");
    assert_eq!(machine_name_or_unknown(Some("studio".to_string())), "studio");
    let name = default_machine_name();
    assert!(!name.is_empty());
    assert!(!name.contains('\0'));
}
