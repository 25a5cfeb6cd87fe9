
use safe_kill::error::SafeKillError;
use safe_kill::killer::{BatchKillResult, KillResult, KillStep, ProcessKiller};
use safe_kill::signal::{SendOutcome, Signal};

/// The result of a step that needs no delivery.
fn finished(step: KillStep) -> KillResult {
    match step {
        KillStep::Finished(result) => result,
        KillStep::Deliver { .. } => panic!("Expected a finished step"),
    }
}

/// The result of a step, with the transport reporting `outcome` for a delivery.
fn settled(killer: &ProcessKiller, step: KillStep, outcome: SendOutcome) -> KillResult {
    match step {
        KillStep::Finished(result) => result,
        KillStep::Deliver { pid, name, signal } => killer.settle(pid, &name, signal, &outcome),
    }
}

// KillResult tests
#[test]
fn test_kill_result_success() {
    let result = KillResult::success(1234, "test", Signal::SIGTERM);
    assert_eq!(result.pid, 1234);
    assert_eq!(result.name, "test");
    assert!(result.success);
    assert!(result.message.contains("SIGTERM"));
}

#[test]
fn test_kill_result_failure() {
    let error = SafeKillError::ProcessNotFound(1234);
    let result = KillResult::failure(1234, "test", &error);
    assert_eq!(result.pid, 1234);
    assert_eq!(result.name, "test");
    assert!(!result.success);
    assert!(result.message.contains("not found"));
}

#[test]
fn test_kill_result_dry_run() {
    let result = KillResult::dry_run(1234, "test", Signal::SIGKILL);
    assert_eq!(result.pid, 1234);
    assert_eq!(result.name, "test");
    assert!(result.success);
    assert!(result.message.contains("dry run"));
    assert!(result.message.contains("SIGKILL"));
}

#[test]
fn test_kill_result_clone() {
    let result = KillResult::success(100, "proc", Signal::SIGTERM);
    let cloned = result.clone();
    assert_eq!(result, cloned);
}

#[test]
fn test_kill_result_debug() {
    let result = KillResult::success(100, "proc", Signal::SIGTERM);
    let debug_str = format!("{:?}", result);
    assert!(debug_str.contains("KillResult"));
    assert!(debug_str.contains("100"));
}

// BatchKillResult tests
#[test]
fn test_batch_kill_result_new() {
    let batch = BatchKillResult::new();
    assert!(batch.is_empty());
    assert_eq!(batch.total_matched, 0);
    assert_eq!(batch.total_killed, 0);
}

#[test]
fn test_batch_kill_result_default() {
    let batch = BatchKillResult::default();
    assert!(batch.is_empty());
}

#[test]
fn test_batch_kill_result_add_success() {
    let mut batch = BatchKillResult::new();
    batch.add(KillResult::success(100, "a", Signal::SIGTERM));
    batch.add(KillResult::success(200, "b", Signal::SIGTERM));

    assert_eq!(batch.total_matched, 2);
    assert_eq!(batch.total_killed, 2);
    assert!(batch.all_success());
    assert!(batch.any_success());
}

#[test]
fn test_batch_kill_result_add_failure() {
    let mut batch = BatchKillResult::new();
    let error = SafeKillError::ProcessNotFound(100);
    batch.add(KillResult::failure(100, "a", &error));

    assert_eq!(batch.total_matched, 1);
    assert_eq!(batch.total_killed, 0);
    assert!(!batch.all_success());
    assert!(!batch.any_success());
}

#[test]
fn test_batch_kill_result_mixed() {
    let mut batch = BatchKillResult::new();
    batch.add(KillResult::success(100, "a", Signal::SIGTERM));
    let error = SafeKillError::ProcessNotFound(200);
    batch.add(KillResult::failure(200, "b", &error));

    assert_eq!(batch.total_matched, 2);
    assert_eq!(batch.total_killed, 1);
    assert!(!batch.all_success());
    assert!(batch.any_success());
}

#[test]
fn test_batch_kill_result_is_empty() {
    let batch = BatchKillResult::new();
    assert!(batch.is_empty());

    let mut batch_with_item = BatchKillResult::new();
    batch_with_item.add(KillResult::success(100, "a", Signal::SIGTERM));
    assert!(!batch_with_item.is_empty());
}

#[test]
fn test_batch_kill_result_all_success_empty() {
    let batch = BatchKillResult::new();
    // Empty batch should not be considered "all success"
    assert!(!batch.all_success());
}

// ProcessKiller tests
#[test]
fn test_process_killer_new() {
    let killer = ProcessKiller::new();
    // Just verify it can be created
    let _ = killer;
}

#[test]
fn test_process_killer_default() {
    let killer = ProcessKiller;
    let _ = killer;
}

#[test]
fn test_kill_nonexistent_process() {
    let killer = ProcessKiller::new();
    // A nonexistent pid is what the transport reports as no such process
    let step = killer.kill_with_result(999999999, "test", Signal::SIGTERM, false);
    let result = settled(&killer, step, SendOutcome::NoSuchProcess);
    assert!(!result.success);
    assert_eq!(result.message, "Process 999999999 not found");
}

#[test]
fn test_kill_with_result_dry_run() {
    let killer = ProcessKiller::new();
    let result = finished(killer.kill_with_result(999999999, "test", Signal::SIGTERM, true));

    assert!(result.success);
    assert!(result.message.contains("dry run"));
}

#[test]
fn test_kill_with_result_failure() {
    let killer = ProcessKiller::new();
    let step = killer.kill_with_result(999999999, "test", Signal::SIGTERM, false);
    let result = settled(&killer, step, SendOutcome::NoSuchProcess);

    // Should fail because process doesn't exist
    assert!(!result.success);
}

#[test]
fn test_kill_with_result_tracks_pid_and_name() {
    let killer = ProcessKiller::new();
    let result = finished(killer.kill_with_result(12345, "myprocess", Signal::SIGKILL, true));

    assert_eq!(result.pid, 12345);
    assert_eq!(result.name, "myprocess");
}

#[test]
fn test_kill_with_result_real_run_asks_for_delivery() {
    let killer = ProcessKiller::new();
    let step = killer.kill_with_result(321, "worker", Signal::SIGINT, false);
    assert_eq!(
        step,
        KillStep::Deliver { pid: 321, name: "worker".to_string(), signal: Signal::SIGINT }
    );
}

#[test]
fn test_settle_delivered_is_success() {
    let killer = ProcessKiller::new();
    let result = killer.settle(321, "worker", Signal::SIGINT, &SendOutcome::Delivered);
    assert!(result.success);
    assert_eq!(result.message, "Sent SIGINT to process");
}

#[test]
fn test_settle_permission_denied() {
    let killer = ProcessKiller::new();
    let result = killer.settle(1, "systemd", Signal::SIGKILL, &SendOutcome::NotPermitted);
    assert!(!result.success);
    assert_eq!(result.message, "Permission denied for PID 1");
}

#[test]
fn test_kill_result_messages_exact() {
    assert_eq!(KillResult::success(1, "a", Signal::SIGTERM).message, "Sent SIGTERM to process");
    assert_eq!(
        KillResult::dry_run(1, "a", Signal::SIGUSR1).message,
        "Would send SIGUSR1 to process (dry run)"
    );
    let error = SafeKillError::SuicidePrevention(77);
    assert_eq!(
        KillResult::failure(77, "self", &error).message,
        "Cannot kill self or parent process (PID: 77)"
    );
}

#[test]
fn test_process_killer_dry_run() {
    let killer = ProcessKiller::new();
    let result = finished(killer.kill_with_result(999999999, "test_process", Signal::SIGTERM, true));

    assert!(result.success);
    assert!(result.message.contains("dry run"));
}

#[test]
fn test_dry_run_does_not_send_signal() {
    let killer = ProcessKiller::new();
    // Even for the tool's own pid, a dry run only simulates
    let step = killer.kill_with_result(400, "self", Signal::SIGTERM, true);
    let result = finished(step);

    assert!(result.success);
    assert!(result.message.contains("dry run"));
}

#[test]
fn test_dry_run_result_format() {
    let killer = ProcessKiller::new();
    let result = finished(killer.kill_with_result(12345, "test_proc", Signal::SIGKILL, true));

    assert_eq!(result.pid, 12345);
    assert_eq!(result.name, "test_proc");
    assert!(result.success);
    assert!(result.message.contains("SIGKILL"));
    assert!(result.message.contains("dry run"));
}
