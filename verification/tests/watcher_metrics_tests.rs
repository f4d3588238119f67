// Tests for the watch loop's decisions and the processing counters.
use perceptlog::metrics::Metrics;
use perceptlog::watcher::{should_process, watch_decision, WatchAction, WatchEventKind};

#[test]
fn test_watch_eligibility() {
    assert!(should_process("/var/log/auth.log", true));
    assert!(should_process("notes.txt", true));
    assert!(should_process("/var/log/secure.secure", true));
    assert!(!should_process("/var/log/auth.log", false)); // not a regular file
    assert!(!should_process("archive.gz", true));
    assert!(!should_process("noextension", true));
}

#[test]
fn test_watch_decisions() {
    assert_eq!(
        watch_decision(WatchEventKind::Create, "a.log", true),
        WatchAction::ProcessFile
    );
    assert_eq!(
        watch_decision(WatchEventKind::Modify, "a.log", true),
        WatchAction::ProcessFile
    );
    assert_eq!(
        watch_decision(WatchEventKind::Remove, "a.log", true),
        WatchAction::LogRemoval
    );
    assert_eq!(
        watch_decision(WatchEventKind::Other, "a.log", true),
        WatchAction::Ignore
    );
    assert_eq!(
        watch_decision(WatchEventKind::Create, "a.gz", true),
        WatchAction::Ignore
    );
}

#[test]
fn test_metrics_counters() {
    let mut metrics = Metrics::new();
    metrics.increment_events_processed();
    metrics.increment_events_processed();
    metrics.increment_events_failed();
    metrics.record_transformation(25);
    metrics.record_transformation(17);

    let stats = metrics.get_stats();
    assert_eq!(stats.events_processed, 2);
    assert_eq!(stats.events_failed, 1);
    assert_eq!(stats.total_processing_time_ms, 42);
}
