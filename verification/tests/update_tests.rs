use qdrin_core::channel::StatusChannel;
use qdrin_core::status::Status;
use qdrin_core::update::run_update_workflow;
use qdrin_core::update::InstallResult;
use qdrin_core::update::ProgressTracker;
use qdrin_core::update::UpdateCheckResult;
use qdrin_core::update::WorkflowEnd;

#[test]
fn progress_publishes_are_coalesced_and_strictly_increasing() {
    let mut tracker = ProgressTracker::new();
    let chunks: Vec<u64> = vec![10, 10, 0, 30, 0, 50];
    let mut published: Vec<u32> = Vec::new();
    for c in chunks {
        if let Some(p) = tracker.on_chunk(c, Some(100)) {
            published.push(p);
        }
    }
    assert_eq!(published, vec![10, 20, 50, 100]);
    for w in published.windows(2) {
        assert!(w[0] < w[1]);
    }
}

#[test]
fn percent_uses_integer_floor() {
    let mut tracker = ProgressTracker::new();
    assert_eq!(tracker.on_chunk(1, Some(3)), Some(33));
    assert_eq!(tracker.on_chunk(1, Some(3)), Some(66));
    assert_eq!(tracker.on_chunk(1, Some(3)), Some(100));
}

#[test]
fn unknown_or_zero_total_reports_zero_exactly_once() {
    let mut unknown = ProgressTracker::new();
    assert_eq!(unknown.on_chunk(5, None), Some(0));
    assert_eq!(unknown.on_chunk(5, None), None);

    let mut zero = ProgressTracker::new();
    assert_eq!(zero.on_chunk(7, Some(0)), Some(0));
    assert_eq!(zero.on_chunk(9, Some(0)), None);
}

#[test]
fn workflow_not_configured_settles_on_running_current_version() {
    let mut ch = StatusChannel::new();
    let mut sub = ch.subscribe();
    let chunks: Vec<u64> = Vec::new();
    let end = run_update_workflow(
        &mut ch,
        &UpdateCheckResult::NotConfigured,
        &chunks,
        None,
        &InstallResult::Failed,
        "0.1.0",
    );
    assert_eq!(end, WorkflowEnd::RunCurrent);
    let seen = sub.drain(&ch);
    assert_eq!(seen.len(), 2);
    assert!(matches!(seen[0], Status::CheckingForUpdates));
    match &seen[1] {
        Status::Running { version } => assert_eq!(version, "0.1.0"),
        _ => panic!("expected the terminal running status"),
    }
}

#[test]
fn workflow_no_update_settles_on_running_current_version() {
    let mut ch = StatusChannel::new();
    let chunks: Vec<u64> = Vec::new();
    let end = run_update_workflow(
        &mut ch,
        &UpdateCheckResult::NoUpdate,
        &chunks,
        None,
        &InstallResult::Failed,
        "3.4.5",
    );
    assert_eq!(end, WorkflowEnd::RunCurrent);
    match ch.get() {
        Status::Running { version } => assert_eq!(version, "3.4.5"),
        _ => panic!("expected the terminal running status"),
    }
}

#[test]
fn workflow_failed_download_falls_back_to_running() {
    let mut ch = StatusChannel::new();
    let mut sub = ch.subscribe();
    let chunks: Vec<u64> = vec![50, 50];
    let end = run_update_workflow(
        &mut ch,
        &UpdateCheckResult::UpdateAvailable,
        &chunks,
        Some(100),
        &InstallResult::Failed,
        "0.1.0",
    );
    assert_eq!(end, WorkflowEnd::RunCurrent);
    let seen = sub.drain(&ch);
    assert_eq!(seen.len(), 4);
    assert!(matches!(seen[0], Status::CheckingForUpdates));
    assert!(matches!(seen[1], Status::DownloadingUpdate { progress: 50 }));
    assert!(matches!(seen[2], Status::DownloadingUpdate { progress: 100 }));
    assert!(matches!(seen[3], Status::Running { .. }));
}

#[test]
fn workflow_installed_update_ends_in_restart() {
    let mut ch = StatusChannel::new();
    let chunks: Vec<u64> = vec![512, 512];
    let end = run_update_workflow(
        &mut ch,
        &UpdateCheckResult::UpdateAvailable,
        &chunks,
        Some(1024),
        &InstallResult::Installed,
        "0.1.0",
    );
    assert_eq!(end, WorkflowEnd::Restart);
    assert!(matches!(ch.get(), Status::DownloadingUpdate { progress: 100 }));
}

#[test]
fn workflow_repeat_invocation_behaves_as_the_first() {
    let mut ch = StatusChannel::new();
    let chunks: Vec<u64> = Vec::new();
    for _ in 0..2 {
        let end = run_update_workflow(
            &mut ch,
            &UpdateCheckResult::NoUpdate,
            &chunks,
            None,
            &InstallResult::Failed,
            "0.1.0",
        );
        assert_eq!(end, WorkflowEnd::RunCurrent);
        assert!(matches!(ch.get(), Status::Running { .. }));
    }
}
