use scan_core::counters::RunCounters;
use scan_core::result::JobOutcome;
use scan_core::result::ScanResult;

fn clean() -> ScanResult {
    ScanResult { detected: false, tags: vec![], error: None }
}

fn positive(tag: &str) -> ScanResult {
    ScanResult { detected: true, tags: vec![tag.to_string()], error: None }
}

fn errored() -> ScanResult {
    ScanResult { detected: false, tags: vec![], error: Some("unreadable".to_string()) }
}

#[test]
fn new_counters_are_zero() {
    let c = RunCounters::new();
    assert_eq!(c.scanned, 0);
    assert_eq!(c.detected, 0);
}

#[test]
fn every_completed_job_is_counted_once() {
    let mut c = RunCounters::new();
    let results = [clean(), positive("EICAR"), errored(), clean(), errored()];
    for r in &results {
        c.record(r);
    }
    assert_eq!(c.scanned, 5);
}

#[test]
fn detected_counts_only_errorless_detections() {
    let mut c = RunCounters::new();
    c.record(&positive("EICAR"));
    c.record(&clean());
    // an error result never counts as a detection, even with the flag set
    c.record(&ScanResult {
        detected: true,
        tags: vec!["EICAR".to_string()],
        error: Some("truncated read".to_string()),
    });
    assert_eq!(c.scanned, 3);
    assert_eq!(c.detected, 1);
    assert!(c.detected <= c.scanned);
}

#[test]
fn outcome_classifies_every_terminal_state() {
    assert_eq!(clean().outcome(), JobOutcome::Clean);
    assert_eq!(positive("EICAR").outcome(), JobOutcome::Detected);
    assert_eq!(errored().outcome(), JobOutcome::Failed);
    // an error masks the detection flag
    let masked = ScanResult {
        detected: true,
        tags: vec![],
        error: Some("unsupported format".to_string()),
    };
    assert_eq!(masked.outcome(), JobOutcome::Failed);
}
