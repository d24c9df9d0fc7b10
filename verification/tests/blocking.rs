use memory_logger::blocking::MemoryLogger;
use memory_logger::install::{SetupError, SinkSlot};
use memory_logger::pattern::TargetPattern;
use memory_logger::severity::Severity;
use memory_logger::sink::{BoundedSink, StringSink};

fn fresh(level: Severity, pattern: Option<TargetPattern>) -> MemoryLogger {
    let mut slot = SinkSlot::new();
    MemoryLogger::setup(&mut slot, level, pattern).unwrap()
}

#[test]
fn info_and_warn_lines_in_order() {
    let logger = fresh(Severity::Info, None);
    logger.log(Severity::Info, "mod", None, "msg1");
    logger.log(Severity::Warn, "mod", None, "msg2");
    let guard = logger.read();
    assert_eq!(guard.contents(), "[mod] INFO  | msg1\n[mod] WARN  | msg2\n");
    guard.release();
}

#[test]
fn debug_record_filtered_out() {
    let logger = fresh(Severity::Info, None);
    logger.log(Severity::Debug, "mod", None, "hidden");
    let guard = logger.read();
    assert_eq!(guard.contents(), "");
    guard.release();
}

#[test]
fn pattern_keeps_matching_targets_only() {
    let pattern = TargetPattern::new("^app::").unwrap();
    let logger = fresh(Severity::Info, Some(pattern));
    logger.log(Severity::Info, "app::db", None, "kept");
    logger.log(Severity::Info, "other", None, "dropped");
    let guard = logger.read();
    assert_eq!(guard.contents(), "[app::db] INFO  | kept\n");
    guard.release();
}

#[test]
fn invalid_pattern_is_rejected() {
    assert!(TargetPattern::new("(").is_none());
}

#[test]
fn setup_twice_reports_already_installed() {
    let mut slot = SinkSlot::new();
    let first = MemoryLogger::setup(&mut slot, Severity::Info, None).unwrap();
    let second = MemoryLogger::setup(&mut slot, Severity::Trace, None);
    assert!(matches!(second, Err(SetupError::AlreadyInstalled)));
    first.log(Severity::Info, "mod", None, "still works");
    let guard = first.read();
    assert_eq!(guard.contents(), "[mod] INFO  | still works\n");
    guard.release();
}

#[test]
fn dump_then_read_is_empty() {
    let logger = fresh(Severity::Info, None);
    logger.log(Severity::Info, "mod", None, "one");
    logger.log(Severity::Error, "mod", None, "two");
    let mut out = StringSink::new();
    logger.dump(&mut out).unwrap();
    assert_eq!(out.as_str(), "[mod] INFO  | one\n[mod] ERROR | two\n");
    let guard = logger.read();
    assert_eq!(guard.contents(), "");
    guard.release();
    let mut again = StringSink::new();
    logger.dump(&mut again).unwrap();
    assert_eq!(again.as_str(), "");
}

#[test]
fn failed_dump_keeps_buffer() {
    let logger = fresh(Severity::Info, None);
    logger.log(Severity::Info, "mod", None, "kept");
    let mut tiny = BoundedSink::new(3);
    assert!(logger.dump(&mut tiny).is_err());
    let guard = logger.read();
    assert_eq!(guard.contents(), "[mod] INFO  | kept\n");
    guard.release();
    let mut out = StringSink::new();
    logger.dump(&mut out).unwrap();
    assert_eq!(out.as_str(), "[mod] INFO  | kept\n");
}

#[test]
fn clear_empties_buffer() {
    let logger = fresh(Severity::Trace, None);
    logger.log(Severity::Trace, "mod", None, "gone");
    logger.clear();
    let guard = logger.read();
    assert_eq!(guard.contents(), "");
    guard.release();
}

#[test]
fn take_returns_contents_and_clears() {
    let logger = fresh(Severity::Info, None);
    logger.log(Severity::Warn, "mod", None, "taken");
    let text = logger.take();
    assert_eq!(text, "[mod] WARN  | taken\n");
    let guard = logger.read();
    assert_eq!(guard.contents(), "");
    guard.release();
}

#[test]
fn empty_target_falls_back_to_module_then_placeholder() {
    let logger = fresh(Severity::Info, None);
    logger.log(Severity::Info, "", Some("my::module"), "a");
    logger.log(Severity::Info, "", None, "b");
    let guard = logger.read();
    assert_eq!(guard.contents(), "[my::module] INFO  | a\n[?] INFO  | b\n");
    guard.release();
}

#[test]
fn enabled_mirrors_filter() {
    let pattern = TargetPattern::new("^app::").unwrap();
    let logger = fresh(Severity::Info, Some(pattern));
    assert!(logger.enabled(Severity::Info, "app::db"));
    assert!(!logger.enabled(Severity::Debug, "app::db"));
    assert!(!logger.enabled(Severity::Info, "other"));
}

#[test]
fn all_level_labels_are_padded_to_five() {
    let logger = fresh(Severity::Trace, None);
    logger.log(Severity::Error, "t", None, "m");
    logger.log(Severity::Warn, "t", None, "m");
    logger.log(Severity::Info, "t", None, "m");
    logger.log(Severity::Debug, "t", None, "m");
    logger.log(Severity::Trace, "t", None, "m");
    let text = logger.take();
    assert_eq!(
        text,
        "[t] ERROR | m\n[t] WARN  | m\n[t] INFO  | m\n[t] DEBUG | m\n[t] TRACE | m\n"
    );
}
