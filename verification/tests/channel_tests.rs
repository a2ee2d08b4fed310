use qdrin_core::channel::StatusChannel;
use qdrin_core::status::Status;

#[test]
fn starts_idle_and_get_returns_latest_without_subscribers() {
    let mut ch = StatusChannel::new();
    assert!(matches!(ch.get(), Status::Idle));
    ch.update(Status::CheckingForUpdates);
    ch.update(Status::DownloadingUpdate { progress: 40 });
    assert!(matches!(ch.get(), Status::DownloadingUpdate { progress: 40 }));
}

#[test]
fn subscriber_observes_publishes_in_order() {
    let mut ch = StatusChannel::new();
    let mut sub = ch.subscribe();
    ch.update(Status::CheckingForUpdates);
    ch.update(Status::DownloadingUpdate { progress: 10 });
    ch.update(Status::Running { version: "1.2.3".to_string() });
    let seen = sub.drain(&ch);
    assert_eq!(seen.len(), 3);
    assert!(matches!(seen[0], Status::CheckingForUpdates));
    assert!(matches!(seen[1], Status::DownloadingUpdate { progress: 10 }));
    match &seen[2] {
        Status::Running { version } => assert_eq!(version, "1.2.3"),
        other => panic!("expected a running status, got {:?}", status_name(other)),
    }
    assert!(sub.recv(&ch).is_none());
}

#[test]
fn subscriber_sees_no_history_from_before_it_attached() {
    let mut ch = StatusChannel::new();
    ch.update(Status::CheckingForUpdates);
    let mut sub = ch.subscribe();
    assert!(sub.recv(&ch).is_none());
    ch.update(Status::Running { version: "2.0.0".to_string() });
    let seen = sub.drain(&ch);
    assert_eq!(seen.len(), 1);
    assert!(matches!(seen[0], Status::Running { .. }));
}

#[test]
fn exact_repeats_are_delivered_as_published() {
    let mut ch = StatusChannel::new();
    let mut sub = ch.subscribe();
    ch.update(Status::CheckingForUpdates);
    ch.update(Status::CheckingForUpdates);
    let seen = sub.drain(&ch);
    assert_eq!(seen.len(), 2);
    assert!(matches!(seen[0], Status::CheckingForUpdates));
    assert!(matches!(seen[1], Status::CheckingForUpdates));
}

fn status_name(s: &Status) -> &'static str {
    match s {
        Status::Idle => "idle",
        Status::CheckingForUpdates => "checking",
        Status::DownloadingUpdate { .. } => "downloading",
        Status::Running { .. } => "running",
    }
}
