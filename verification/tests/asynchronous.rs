use memory_logger::asynchronous::MemoryLogger;
use memory_logger::install::{SetupError, SinkSlot};
use memory_logger::pattern::TargetPattern;
use memory_logger::severity::Severity;
use memory_logger::sink::{BoundedSink, StringSink};

fn fresh(level: Severity, pattern: Option<TargetPattern>) -> MemoryLogger {
    let mut slot = SinkSlot::new();
    MemoryLogger::setup(&mut slot, level, pattern).unwrap()
}

#[test]
fn drain_preserves_fifo_order() {
    let logger = fresh(Severity::Info, None);
    logger.log(Severity::Info, "m", None, "first");
    logger.log(Severity::Warn, "m", None, "second");
    logger.log(Severity::Error, "m", None, "third");
    let lines = logger.read();
    assert_eq!(
        lines,
        vec![
            "[m] INFO  | first".to_string(),
            "[m] WARN  | second".to_string(),
            "[m] ERROR | third".to_string(),
        ]
    );
}

#[test]
fn second_drain_is_empty() {
    let logger = fresh(Severity::Info, None);
    logger.log(Severity::Info, "m", None, "once");
    let first = logger.read();
    assert_eq!(first.len(), 1);
    let second = logger.read();
    assert!(second.is_empty());
}

#[test]
fn dump_writes_lines_then_nothing() {
    let logger = fresh(Severity::Info, None);
    logger.log(Severity::Info, "m", None, "one");
    logger.log(Severity::Warn, "m", None, "two");
    let mut out = StringSink::new();
    logger.dump(&mut out).unwrap();
    assert_eq!(out.as_str(), "[m] INFO  | one\n[m] WARN  | two\n");
    let mut again = StringSink::new();
    logger.dump(&mut again).unwrap();
    assert_eq!(again.as_str(), "");
}

#[test]
fn async_debug_record_filtered_out() {
    let logger = fresh(Severity::Info, None);
    logger.log(Severity::Debug, "m", None, "hidden");
    assert!(logger.read().is_empty());
}

#[test]
fn async_pattern_keeps_matching_targets_only() {
    let pattern = TargetPattern::new("^app::").unwrap();
    let logger = fresh(Severity::Info, Some(pattern));
    logger.log(Severity::Info, "app::db", None, "kept");
    logger.log(Severity::Info, "other", None, "dropped");
    let lines = logger.read();
    assert_eq!(lines, vec!["[app::db] INFO  | kept".to_string()]);
}

#[test]
fn async_setup_twice_reports_already_installed() {
    let mut slot = SinkSlot::new();
    let first = MemoryLogger::setup(&mut slot, Severity::Info, None).unwrap();
    let second = MemoryLogger::setup(&mut slot, Severity::Trace, None);
    assert!(matches!(second, Err(SetupError::AlreadyInstalled)));
    first.log(Severity::Info, "m", None, "still works");
    assert_eq!(first.read(), vec!["[m] INFO  | still works".to_string()]);
}

#[test]
fn failed_dump_wrote_a_prefix() {
    let logger = fresh(Severity::Info, None);
    logger.log(Severity::Info, "m", None, "one");
    logger.log(Severity::Info, "m", None, "a much longer second message");
    let mut tiny = BoundedSink::new(16);
    assert!(logger.dump(&mut tiny).is_err());
    assert_eq!(tiny.text, "[m] INFO  | one\n");
}

#[test]
fn async_empty_target_falls_back_to_module_then_placeholder() {
    let logger = fresh(Severity::Info, None);
    logger.log(Severity::Info, "", Some("my::module"), "a");
    logger.log(Severity::Info, "", None, "b");
    let lines = logger.read();
    assert_eq!(
        lines,
        vec![
            "[my::module] INFO  | a".to_string(),
            "[?] INFO  | b".to_string(),
        ]
    );
}

#[test]
fn async_enabled_mirrors_filter() {
    let pattern = TargetPattern::new("^app::").unwrap();
    let logger = fresh(Severity::Debug, Some(pattern));
    assert!(logger.enabled(Severity::Debug, "app::db"));
    assert!(!logger.enabled(Severity::Trace, "app::db"));
    assert!(!logger.enabled(Severity::Error, "elsewhere"));
}
