use yoyopod::correlation::{
    ack_for_answer, dispatch_failed_ack, protocol_error_reason, safe_worker_error_code, timeout_ack,
    PendingWorkerCommands,
};
use yoyopod::intents::WorkerDomain;

#[test]
fn answered_command_is_acknowledged_once() {
    let mut pending = PendingWorkerCommands::new();
    pending.track(WorkerDomain::Media, "cmd-1".to_string(), "media.play".to_string(), 1_000, 5_000);
    assert_eq!(pending.len(), 1);
    assert!(pending.resolve(WorkerDomain::Voip, "cmd-1").is_none());
    let command = pending.resolve(WorkerDomain::Media, "cmd-1").expect("waiting command");
    assert_eq!(command.command_type, "media.play");
    assert_eq!(command.deadline_ms, 6_000);
    assert!(pending.resolve(WorkerDomain::Media, "cmd-1").is_none());
    assert!(pending.expire(u64::MAX).is_empty());

    let ok = ack_for_answer(&command, true, None);
    assert!(ok.ok);
    assert!(ok.reason.is_none());
    let failed = ack_for_answer(&command, false, Some("decoder_busy"));
    assert_eq!(failed.reason.as_deref(), Some("decoder_busy"));
}

#[test]
fn retracking_replaces_the_earlier_command() {
    let mut pending = PendingWorkerCommands::new();
    pending.track(WorkerDomain::Media, "cmd-1".to_string(), "first".to_string(), 0, 10);
    pending.track(WorkerDomain::Media, "cmd-1".to_string(), "second".to_string(), 0, 20);
    assert_eq!(pending.len(), 1);
    assert_eq!(pending.resolve(WorkerDomain::Media, "cmd-1").unwrap().command_type, "second");
}

#[test]
fn expired_commands_time_out_in_order() {
    let mut pending = PendingWorkerCommands::new();
    pending.track(WorkerDomain::Media, "a".to_string(), "t".to_string(), 0, 10);
    pending.track(WorkerDomain::Voip, "b".to_string(), "t".to_string(), 0, 30);
    pending.track(WorkerDomain::Power, "c".to_string(), "t".to_string(), 0, 20);
    let expired = pending.expire(20);
    let ids: Vec<&str> = expired.iter().map(|c| c.command_id.as_str()).collect();
    assert_eq!(ids, vec!["a", "c"]);
    assert_eq!(pending.len(), 1);
    let ack = timeout_ack(&expired[0]);
    assert!(!ack.ok);
    assert_eq!(ack.reason.as_deref(), Some("worker_timeout"));
    assert_eq!(dispatch_failed_ack("x", "y").reason.as_deref(), Some("worker_dispatch_failed"));
}

#[test]
fn worker_error_codes_are_sanitized() {
    assert_eq!(safe_worker_error_code(Some("media_error_2")), "media_error_2");
    assert_eq!(safe_worker_error_code(Some("Bad Code")), "worker_failed");
    assert_eq!(safe_worker_error_code(Some("")), "worker_failed");
    assert_eq!(safe_worker_error_code(Some(&"a".repeat(65))), "worker_failed");
    assert_eq!(safe_worker_error_code(Some(&"a".repeat(64))), "a".repeat(64));
    assert_eq!(safe_worker_error_code(None), "worker_failed");
}

#[test]
fn protocol_errors_name_the_line() {
    assert_eq!(protocol_error_reason("bad json", ""), "protocol error: bad json");
    assert_eq!(protocol_error_reason("bad json", "{x"), "protocol error: bad json ({x)");
}
