use overfocus::logger::{Duration, LogKind, Logger};

#[test]
fn empty_logger_has_no_last_line() {
    let l = Logger::new();
    assert!(l.last().is_none());
    let (text, kind) = l.status();
    assert_eq!(text, "");
    assert_eq!(kind, LogKind::Info);
}

#[test]
fn last_is_the_latest_line() {
    let mut l = Logger::new();
    l.log("first".to_string(), LogKind::Info, 1);
    l.log("second".to_string(), LogKind::Warn, 7);
    let d = l.last().unwrap();
    assert_eq!(d.0, "second");
    assert_eq!(d.1, LogKind::Warn);
    assert_eq!(d.2, 7);
}

#[test]
fn notify_logs_and_keeps_one_notification() {
    let mut l = Logger::new();
    l.notify("old".to_string(), Duration::Short, 2);
    l.notify("break time".to_string(), Duration::Long, 3);
    let d = l.last().unwrap();
    assert_eq!((d.0.as_str(), d.1, d.2), ("break time", LogKind::Info, 3));
    let n = l.consume_notification().unwrap();
    assert_eq!(n.0, "break time");
    assert_eq!(n.1, Duration::Long);
    assert!(l.consume_notification().is_none());
    assert_eq!(l.last().unwrap().0, "break time");
}

#[test]
fn status_line_formats_the_time() {
    let mut l = Logger::new();
    l.log("Pomodoro clock paused.".to_string(), LogKind::Warn, 3725);
    let (text, kind) = l.status();
    assert_eq!(text, " [01:02:05] Pomodoro clock paused.");
    assert_eq!(kind, LogKind::Warn);
}

#[test]
fn status_line_keeps_long_hours() {
    let mut l = Logger::new();
    l.log("x".to_string(), LogKind::Error, 360000 + 59);
    assert_eq!(l.last().unwrap().status_line(), " [100:00:59] x");
    assert_eq!(l.status().1, LogKind::Error);
}
