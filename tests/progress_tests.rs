use ginseng::progress::{
    format_bytes, FileProgress, FileStatus, FileUpdate, ProgressTracker, RateLimiter, TransferProgress,
    TransferStage, TransferType,
};

/// The formatting of a byte count with floats: divide by 1024 while possible, two decimals.
fn float_format(bytes: u64) -> String {
    const UNITS: [&str; 5] = ["B", "KB", "MB", "GB", "TB"];
    if bytes == 0 {
        return "0 B".to_string();
    }
    let mut size = bytes as f64;
    let mut unit_index = 0;
    while size >= 1024.0 && unit_index < UNITS.len() - 1 {
        size /= 1024.0;
        unit_index += 1;
    }
    format!("{:.2} {}", size, UNITS[unit_index])
}

#[test]
fn format_bytes_examples() {
    assert_eq!(format_bytes(0), "0 B");
    assert_eq!(format_bytes(1024), "1.00 KB");
    assert_eq!(format_bytes(1536), "1.50 KB");
    assert_eq!(format_bytes(1048576), "1.00 MB");
    assert_eq!(format_bytes(1073741824), "1.00 GB");
    assert_eq!(format_bytes(1099511627776), "1.00 TB");
    assert_eq!(format_bytes(1), "1.00 B");
    assert_eq!(format_bytes(1023), "1023.00 B");
    assert_eq!(format_bytes(u64::MAX), "16777216.00 TB");
}

#[test]
fn format_bytes_matches_float_formatting() {
    let mut samples: Vec<u64> = vec![
        1, 2, 9, 10, 99, 100, 512, 1000, 1023, 1024, 1025, 1152, 1280, 1535, 1536, 1537, 10_240, 1_048_575,
        1_048_576, 1_053_818, 1_073_741_823, 1_073_741_824, 5_000_000_000, 1_099_511_627_775,
        1_099_511_627_776, 123_456_789_012_345,
    ];
    for shift in 50..64u32 {
        let base = 1u64 << shift;
        samples.push(base);
        samples.push(base - 1);
        samples.push(base + 1);
        samples.push(base + (base >> 7) + 12345);
    }
    samples.push(u64::MAX);
    samples.push(u64::MAX - 1024);
    for k in 1..2000u64 {
        samples.push(k * 1033);
        samples.push(k * 5 * 1024 + 512 * (k % 3));
    }
    for b in samples {
        assert_eq!(format_bytes(b), float_format(b), "bytes = {}", b);
    }
}

#[test]
fn transfer_progress_starts_initializing() {
    let p = TransferProgress::new("t1".to_string(), TransferType::Upload);
    assert_eq!(p.stage, TransferStage::Initializing);
    assert_eq!(p.total_files, 0);
    assert!(p.files.is_empty());
    assert!(p.start_time > 1_600_000_000);
    assert_eq!(p.transfer_rate, None);
    assert_eq!(p.eta_seconds, None);
}

#[test]
fn update_rates_average_since_start() {
    let mut p = TransferProgress::new_at("t".to_string(), TransferType::Download, 1000);
    p.total_bytes = 1000;
    p.transferred_bytes = 300;
    p.update_rates_at(1000);
    assert_eq!(p.transfer_rate, None);
    p.update_rates_at(1010);
    assert_eq!(p.transfer_rate, Some(30));
    assert_eq!(p.eta_seconds, Some(23));
    p.update_rates_at(900);
    assert_eq!(p.transfer_rate, Some(30));
}

#[test]
fn update_rates_keeps_estimate_when_rate_is_zero() {
    let mut p = TransferProgress::new_at("t".to_string(), TransferType::Upload, 0);
    p.total_bytes = 10;
    p.transferred_bytes = 5;
    p.eta_seconds = Some(7);
    p.update_rates_at(100);
    assert_eq!(p.transfer_rate, Some(0));
    assert_eq!(p.eta_seconds, Some(7));
}

#[test]
fn recalculate_totals_counts_statuses() {
    let mut p = TransferProgress::new_at("t".to_string(), TransferType::Upload, 0);
    let mut a = FileProgress::with_id("a".to_string(), "a".to_string(), "a".to_string(), 10);
    a.transferred_bytes = 10;
    a.status = FileStatus::Completed;
    let mut b = FileProgress::with_id("b".to_string(), "b".to_string(), "b".to_string(), 10);
    b.transferred_bytes = 4;
    b.status = FileStatus::Failed;
    let c = FileProgress::with_id("c".to_string(), "c".to_string(), "c".to_string(), 10);
    p.files = vec![a, b, c];
    p.recalculate_totals();
    assert_eq!(p.transferred_bytes, 14);
    assert_eq!(p.completed_files, 1);
    assert_eq!(p.failed_files, 1);
}

#[test]
fn file_progress_new_is_pending_with_fresh_id() {
    let a = FileProgress::new("a.txt".to_string(), "d/a.txt".to_string(), 5);
    let b = FileProgress::new("a.txt".to_string(), "d/a.txt".to_string(), 5);
    assert_eq!(a.status, FileStatus::Pending);
    assert_eq!(a.transferred_bytes, 0);
    assert!(!a.is_complete());
    assert!(!a.file_id.is_empty());
    assert_ne!(a.file_id, b.file_id);
}

#[test]
fn terminal_files_ignore_updates() {
    let mut f = FileProgress::with_id("x".to_string(), "x".to_string(), "x".to_string(), 10);
    f.apply(FileUpdate::Completed);
    assert_eq!(f.transferred_bytes, 10);
    assert!(f.is_complete());
    f.apply(FileUpdate::Transferred(3));
    f.apply(FileUpdate::Failed("late".to_string()));
    assert_eq!(f.transferred_bytes, 10);
    assert_eq!(f.status, FileStatus::Completed);
    assert_eq!(f.error, None);
}

#[test]
fn total_if_unknown_only_fills_zero() {
    let mut f = FileProgress::with_id("x".to_string(), "x".to_string(), "x".to_string(), 0);
    f.apply(FileUpdate::TotalIfUnknown(40));
    assert_eq!(f.total_bytes, 40);
    f.apply(FileUpdate::TotalIfUnknown(50));
    assert_eq!(f.total_bytes, 40);
}

fn tracker_with_three_files() -> ProgressTracker {
    let mut t = ProgressTracker::new_at("t".to_string(), TransferType::Upload, 100);
    t.add_file(FileProgress::with_id("a".to_string(), "a".to_string(), "a".to_string(), 100));
    t.add_file(FileProgress::with_id("b".to_string(), "b".to_string(), "b".to_string(), 200));
    t.add_file(FileProgress::with_id("c".to_string(), "c".to_string(), "c".to_string(), 300));
    t
}

#[test]
fn add_file_counts_files_and_bytes() {
    let t = tracker_with_three_files();
    let s = t.get_snapshot();
    assert_eq!(s.total_files, 3);
    assert_eq!(s.total_bytes, 600);
    assert_eq!(s.files.len(), 3);
    assert_eq!(s.transferred_bytes, 0);
}

#[test]
fn snapshot_totals_follow_updates() {
    let mut t = tracker_with_three_files();
    t.update_file_at("a", FileUpdate::Transferred(50), 110);
    t.update_file_at("b", FileUpdate::Transferred(70), 110);
    t.update_file_at("b", FileUpdate::Completed, 110);
    t.update_file_at("c", FileUpdate::Failed("broken".to_string()), 110);
    let s = t.get_snapshot();
    assert_eq!(s.transferred_bytes, 250);
    assert_eq!(s.completed_files, 1);
    assert_eq!(s.failed_files, 1);
    assert_eq!(s.transfer_rate, Some(25));
    assert_eq!(s.eta_seconds, Some(14));
    assert_eq!(s.files[2].error, Some("broken".to_string()));
    assert_eq!(s.files[2].status, FileStatus::Failed);
}

#[test]
fn update_file_with_clock() {
    let mut t = ProgressTracker::new("t".to_string(), TransferType::Download);
    t.add_file(FileProgress::with_id("a".to_string(), "a".to_string(), "a".to_string(), 100));
    t.update_file("a", FileUpdate::Transferred(40));
    t.update_file("a", FileUpdate::Status(FileStatus::Transferring));
    let s = t.get_snapshot();
    assert_eq!(s.transferred_bytes, 40);
    assert_eq!(s.files[0].status, FileStatus::Transferring);
}

#[test]
fn update_of_unknown_file_changes_nothing() {
    let mut t = tracker_with_three_files();
    t.update_file_at("zzz", FileUpdate::Transferred(50), 500);
    let s = t.get_snapshot();
    assert_eq!(s.transferred_bytes, 0);
    assert_eq!(s.transfer_rate, None);
}

#[test]
fn tracker_stages() {
    let mut t = tracker_with_three_files();
    t.set_stage(TransferStage::Transferring);
    assert_eq!(t.get_snapshot().stage, TransferStage::Transferring);
    t.update_file_at("a", FileUpdate::Transferred(100), 100);
    t.complete_at(104);
    let s = t.get_snapshot();
    assert_eq!(s.stage, TransferStage::Completed);
    assert_eq!(s.transfer_rate, Some(25));
    assert_eq!(s.eta_seconds, Some(20));
    t.set_error("disk full".to_string());
    let s = t.get_snapshot();
    assert_eq!(s.stage, TransferStage::Failed);
    assert_eq!(s.error, Some("disk full".to_string()));
    t.complete();
    assert_eq!(t.get_snapshot().stage, TransferStage::Completed);
}

#[test]
fn rate_limiter_throttles_within_interval() {
    let mut r = RateLimiter::starting_at(16_000_000, 0);
    assert!(!r.should_emit_at(10_000_000));
    assert!(r.should_emit_at(16_000_000));
    assert!(!r.should_emit_at(20_000_000));
    assert!(!r.should_emit_at(31_999_999));
    assert!(r.should_emit_at(32_000_000));
}

#[test]
fn rate_limiter_force_lets_next_check_pass() {
    let mut r = RateLimiter::starting_at(16_000_000, 100);
    assert!(!r.should_emit_at(101));
    r.force_emit();
    assert!(r.should_emit_at(102));
    assert!(!r.should_emit_at(103));
    r.force_emit();
    assert!(r.should_emit_at(0));
}

#[test]
fn rate_limiter_clock_going_back_counts_as_no_time() {
    let mut r = RateLimiter::starting_at(10, 1000);
    assert!(!r.should_emit_at(5));
    let mut zero = RateLimiter::starting_at(0, 1000);
    assert!(zero.should_emit_at(5));
}

#[test]
fn rate_limiter_with_wall_clock() {
    let mut r = RateLimiter::new(3_600_000_000_000);
    assert!(!r.should_emit());
    let mut r = RateLimiter::new(3_600_000_000_000);
    assert!(!r.should_emit());
    r.force_emit();
    assert!(r.should_emit());
    assert!(!r.should_emit());
}
