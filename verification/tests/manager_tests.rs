use ssh_assistant::transfer::checkpoint::{CheckpointManager, LocalFileState, TransferCheckpoint};
use ssh_assistant::transfer::manager::TransferManager;
use ssh_assistant::transfer::observability::{LogLevel, ObservabilityManager, TransferMetrics};
use ssh_assistant::transfer::prompt::{format_error, PromptManager};
use ssh_assistant::transfer::sftp_loop::{
    chunk_failure, operation_timed_out, step_error, CopyKind, CopyLoop, CopyStep,
};
use ssh_assistant::transfer::types::{
    TransferError, TransferEvent, TransferOperation, TransferSettings, TransferStatus,
};

fn checkpoint(id: &str, size: u64) -> TransferCheckpoint {
    TransferCheckpoint::new(
        id.to_string(),
        "client-1".to_string(),
        TransferOperation::Upload,
        "/tmp/test.txt".to_string(),
        "/remote/test.txt".to_string(),
        size,
        &TransferSettings::default(),
    )
}

#[test]
fn test_checkpoint_creation() {
    let checkpoint = checkpoint("test-id", 1024);

    assert_eq!(checkpoint.transfer_id, "test-id");
    assert_eq!(checkpoint.client_id, "client-1");
    assert_eq!(checkpoint.transferred, 0);
    let progress = checkpoint.progress_permille() as f64 / 1000.0;
    assert!((progress - 0.0).abs() < 0.001);
}

#[test]
fn test_checkpoint_progress() {
    let mut checkpoint = checkpoint("test-id", 1024);

    checkpoint.update_transferred(512);
    assert_eq!(checkpoint.transferred, 512);
    let progress = checkpoint.progress_permille() as f64 / 1000.0;
    assert!((progress - 0.5).abs() < 0.001);
}

#[test]
fn test_checkpoint_is_valid_upload() {
    let checkpoint = checkpoint("test-id", 12);
    assert!(checkpoint.is_valid(&LocalFileState::Present(12)).unwrap());
}

#[test]
fn checkpoint_validity_by_local_file() {
    let upload = checkpoint("u", 12);
    assert!(upload.is_valid(&LocalFileState::Present(13)).unwrap());
    assert!(!upload.is_valid(&LocalFileState::Present(11)).unwrap());
    assert!(!upload.is_valid(&LocalFileState::Missing).unwrap());
    assert!(upload.is_valid(&LocalFileState::Unreadable("denied".to_string())).is_err());
}

#[test]
fn checkpoint_file_path() {
    let p = TransferCheckpoint::checkpoint_path("/data/cp", "abc");
    assert_eq!(p, "/data/cp/transfer_abc.json");
}

#[test]
fn checkpoint_listing_keeps_the_client_newest_first() {
    let manager = CheckpointManager::new("/data/cp".to_string(), Ok(())).unwrap();
    let mut a = TransferCheckpoint::new_at(
        "a".to_string(),
        "client-1".to_string(),
        TransferOperation::Upload,
        "/l".to_string(),
        "/r".to_string(),
        10,
        &TransferSettings::default(),
        100,
    );
    a.update_transferred_at(1, 100);
    let mut b = TransferCheckpoint::new_at(
        "b".to_string(),
        "client-1".to_string(),
        TransferOperation::Download,
        "/l".to_string(),
        "/r".to_string(),
        10,
        &TransferSettings::default(),
        300,
    );
    b.update_transferred_at(1, 300);
    let other = TransferCheckpoint::new_at(
        "c".to_string(),
        "client-2".to_string(),
        TransferOperation::Upload,
        "/l".to_string(),
        "/r".to_string(),
        10,
        &TransferSettings::default(),
        200,
    );
    let listed = manager.list_checkpoints(vec![a, other, b], "client-1");
    let ids: Vec<&str> = listed.iter().map(|c| c.transfer_id.as_str()).collect();
    assert_eq!(ids, vec!["b", "a"]);
}

#[test]
fn checkpoint_directory_errors() {
    let err = CheckpointManager::new("/x".to_string(), Err("denied".to_string())).err().unwrap();
    match err {
        TransferError::InvalidPath(m) => assert_eq!(m, "Failed to create checkpoint directory: denied"),
        _ => panic!("expected an invalid path"),
    }
}

#[test]
fn test_metrics_recording() {
    let mut metrics = TransferMetrics::default();

    metrics.record_transfer_start();
    assert_eq!(metrics.total_transfers, 1);
    assert_eq!(metrics.active_transfers, 1);

    metrics.record_transfer_complete(1024, 1000);
    assert_eq!(metrics.active_transfers, 0);
    assert_eq!(metrics.completed_transfers, 1);
    assert_eq!(metrics.total_bytes_transferred, 1024);
}

#[test]
fn test_observability_logging() {
    let mut obs = ObservabilityManager::new(100);

    obs.log_event(
        "test_transfer",
        LogLevel::Info,
        "Test message".to_string(),
        Some(TransferOperation::Upload),
        Some(TransferStatus::Transferring),
        None,
    );

    let logs = obs.get_recent_logs(None);
    assert_eq!(logs.len(), 1);
    assert_eq!(logs[0].transfer_id, "test_transfer");
    assert!(matches!(logs[0].level, LogLevel::Info));
}

#[test]
fn test_log_level_filtering() {
    let mut obs = ObservabilityManager::new(100);
    obs.set_log_level(LogLevel::Warning);

    obs.log_event("test_transfer", LogLevel::Info, "Info message".to_string(), None, None, None);
    obs.log_event("test_transfer", LogLevel::Warning, "Warning message".to_string(), None, None, None);

    let logs = obs.get_recent_logs(None);
    assert_eq!(logs.len(), 1);
    assert!(matches!(logs[0].level, LogLevel::Warning));
}

#[test]
fn log_keeps_only_the_newest_entries() {
    let mut obs = ObservabilityManager::new(2);
    for (i, m) in ["one", "two", "three"].iter().enumerate() {
        obs.log_event_at("t", LogLevel::Info, m.to_string(), None, None, None, i as u64);
    }
    let logs = obs.get_recent_logs(None);
    let messages: Vec<&str> = logs.iter().map(|l| l.message.as_str()).collect();
    assert_eq!(messages, vec!["two", "three"]);
    let last = obs.get_recent_logs(Some(1));
    assert_eq!(last[0].message, "three");
}

#[test]
fn manager_start_and_finish_flow() {
    let checkpoints = CheckpointManager::new("/cp".to_string(), Ok(()));
    let mut manager = TransferManager::new(Some(7), TransferSettings::default(), checkpoints).unwrap();

    let failed = manager.start_transfer_at(TransferOperation::Upload, "/l".to_string(), "/r".to_string(), Err("gone".to_string()), 0);
    match failed {
        Err(TransferError::InvalidPath(m)) => assert_eq!(m, "Failed to stat file: gone"),
        _ => panic!("expected an invalid path"),
    }

    let plan = manager
        .start_transfer_at(TransferOperation::Upload, "/l".to_string(), "/r".to_string(), Ok(100), 1_000)
        .ok()
        .unwrap();
    assert_eq!(plan.transfer_id, "transfer_2");
    let cp = plan.checkpoint.unwrap();
    assert_eq!(cp.client_id, "7");
    assert_eq!(cp.file_size, 100);

    let event = manager.register_started(plan.state, TransferOperation::Upload);
    assert!(matches!(event, TransferEvent::Started { .. }));
    assert_eq!(manager.stats().total_transfers, 1);
    assert_eq!(manager.stats().active_transfers, 1);
    assert_eq!(manager.get_transfer_status("transfer_2"), Some(TransferStatus::Pending));

    manager.mark_connecting("transfer_2").unwrap();
    manager.mark_transferring("transfer_2").unwrap();
    let paused = manager.pause_transfer("transfer_2");
    assert!(matches!(paused, Ok(TransferEvent::Paused { .. })));
    assert!(manager.pause_transfer("missing").is_err());

    let cancelled = manager.cancel_transfer("transfer_2");
    assert!(matches!(cancelled, Ok(TransferEvent::Cancelled { .. })));
    assert_eq!(manager.stats().cancelled_transfers, 1);
}

#[test]
fn manager_completes_a_transferring_transfer() {
    let checkpoints = CheckpointManager::new("/cp".to_string(), Ok(()));
    let mut manager = TransferManager::new(None, TransferSettings::default(), checkpoints).unwrap();
    let plan = manager
        .start_transfer_at(TransferOperation::Download, "/l".to_string(), "/r".to_string(), Ok(50), 1_000)
        .ok()
        .unwrap();
    assert_eq!(plan.checkpoint.as_ref().unwrap().client_id, "unknown");
    manager.register_started(plan.state, TransferOperation::Download);
    manager.mark_connecting("transfer_1").unwrap();
    manager.mark_transferring("transfer_1").unwrap();
    let done = manager.finish_transfer_at("transfer_1", Ok(50), 5_000);
    match done {
        Some(TransferEvent::Completed { duration_secs, total_bytes, .. }) => {
            assert_eq!(duration_secs, 4);
            assert_eq!(total_bytes, 50);
        }
        _ => panic!("expected completion"),
    }
    assert_eq!(manager.stats().completed_transfers, 1);
    assert_eq!(manager.stats().total_bytes_transferred, 50);
    assert_eq!(manager.get_transfer_status("transfer_1"), None);
}

#[test]
fn copy_step_errors() {
    match step_error(CopyStep::CreateRemote, "denied") {
        TransferError::PermissionDenied(m) => assert_eq!(m, "Failed to create remote file: denied"),
        _ => panic!("wrong kind"),
    }
    match step_error(CopyStep::SeekLocal, "eof") {
        TransferError::CannotResume(m) => assert_eq!(m, "Failed to seek in local file: eof"),
        _ => panic!("wrong kind"),
    }
    match operation_timed_out(CopyKind::Upload, 60) {
        TransferError::Timeout(m) => assert_eq!(m, "Upload operation timed out after 60s"),
        _ => panic!("wrong kind"),
    }
    assert!(matches!(chunk_failure(TransferError::Timeout("t".to_string())), TransferError::ConnectionLost));
    assert!(matches!(chunk_failure(TransferError::DiskFull("d".to_string())), TransferError::DiskFull(_)));
}

#[test]
fn copy_loop_times_out_without_progress() {
    let settings = TransferSettings::default();
    let mut lp = CopyLoop::start(10, 100, &settings, 0);
    assert!(lp.before_chunk(false, 30_000).is_ok());
    match lp.before_chunk(false, 30_001) {
        Err(TransferError::Timeout(m)) => assert_eq!(m, "No progress for 30s"),
        _ => panic!("expected a timeout"),
    }
    assert!(matches!(lp.before_chunk(true, 0), Err(TransferError::Cancelled)));
    assert_eq!(lp.after_chunk(5, 31_000), (15, 100));
    assert!(lp.before_chunk(false, 60_000).is_ok());
}

#[test]
fn prompt_texts() {
    let mut prompts = PromptManager::new();
    assert_eq!(prompts.next_id(), "prompt_1");
    assert_eq!(prompts.next_id(), "prompt_2");
    let (title, message, details) = format_error(&TransferError::Cancelled, "1.00 KB");
    assert_eq!(title, "Transfer Cancelled");
    assert_eq!(message, "The transfer was cancelled by the user");
    assert_eq!(details, "You cancelled the transfer.\nTransferred: 1.00 KB");
    let (title, message, _) = format_error(&TransferError::DiskFull("no space".to_string()), "0 B");
    assert_eq!(title, "Disk Full Error");
    assert_eq!(message, "Disk full: no space");
}

#[test]
fn cleanup_cutoff_bounds() {
    assert_eq!(CheckpointManager::checked_cleanup_cutoff(1_000_000_000, 7), Some(1_000_000_000 - 7 * 86_400_000));
    assert_eq!(CheckpointManager::checked_cleanup_cutoff(0, -1), Some(86_400_000));
    assert_eq!(CheckpointManager::checked_cleanup_cutoff(0, 106_751_991_168), None);
    assert_eq!(CheckpointManager::checked_cleanup_cutoff(0, 100_000_000), None);
}

#[test]
fn pool_has_room_when_new() {
    let checkpoints = CheckpointManager::new("/cp".to_string(), Ok(()));
    let manager = TransferManager::new(None, TransferSettings::default(), checkpoints).unwrap();
    assert!(manager.pool_has_room());
}

#[test]
fn test_list_checkpoints() {
    let manager = CheckpointManager::new("/tmp/checkpoints".to_string(), Ok(())).ok().unwrap();

    // Create multiple checkpoints
    let mut saved = Vec::new();
    for i in 0..3 {
        saved.push(TransferCheckpoint::new(
            format!("test-id-{}", i),
            "client-1".to_string(),
            TransferOperation::Upload,
            format!("/tmp/test{}.txt", i),
            format!("/remote/test{}.txt", i),
            1024,
            &TransferSettings::default(),
        ));
    }

    // List checkpoints
    let checkpoints = manager.list_checkpoints(saved, "client-1");

    assert_eq!(checkpoints.len(), 3);
}

#[test]
fn test_manager_creation() {
    let settings = TransferSettings::default();
    let checkpoints = CheckpointManager::from_app_data_dir("/tmp/app-data", Ok(()));

    let manager = TransferManager::new(Some(1), settings, checkpoints);

    assert!(manager.is_ok());
}
