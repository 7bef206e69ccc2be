use base64::Engine;
use sync_agent::{
    any_match, batch_url, bearer, classify, compute_crc32c_hash, crc32c_field, device_fingerprint,
    file_check_item, get_relative_path, ingest_verdict, is_success_status, lexical_relative_path,
    lower_hex, match_results, metadata_url, relative_path_from, should_ignore_file, to_be_bytes,
    EventKind, FileCheckResult, FileStat, HeartbeatConfig, HeartbeatResponse, HeartbeatStatus,
    Limiter, SyncState, TickAction, UploadConfig, UploadItem, UploadQueue, UploadStatus, Verdict,
    VerdictAction,
};

fn item(path: &str, rel: &str, ts: u64) -> UploadItem {
    UploadItem { path: path.to_string(), relative_path: rel.to_string(), timestamp: ts, retry_count: 0 }
}

fn result(name: &str, status: &str) -> FileCheckResult {
    FileCheckResult {
        file_name: name.to_string(),
        crc32c: None,
        status: status.to_string(),
        file_id: format!("id-{}", name),
        upload_url: None,
    }
}

fn patterns(p: &[&str]) -> Vec<String> {
    p.iter().map(|s| s.to_string()).collect()
}

#[test]
fn crc32c_of_empty_content() {
    assert_eq!(compute_crc32c_hash(b""), "AAAAAA==");
}

#[test]
fn crc32c_of_check_string() {
    assert_eq!(compute_crc32c_hash(b"123456789"), "4waSgw==");
    assert_eq!(compute_crc32c_hash(b"hello world"), "yZRlqg==");
}

#[test]
fn crc32c_field_decodes_to_big_endian() {
    let field = compute_crc32c_hash(b"123456789");
    let bytes = base64::engine::general_purpose::STANDARD.decode(field).unwrap();
    assert_eq!(bytes, vec![0xE3, 0x06, 0x92, 0x83]);
    assert_eq!(crc32c_field(0x01020304), "AQIDBA==");
}

#[test]
fn big_endian_bytes() {
    assert_eq!(to_be_bytes(0xE3069283), vec![0xE3, 0x06, 0x92, 0x83]);
    assert_eq!(to_be_bytes(0), vec![0, 0, 0, 0]);
}

#[test]
fn hex_and_fingerprint() {
    assert_eq!(lower_hex(&[0x00, 0xAB, 0x0F]), "00ab0f");
    assert_eq!(
        device_fingerprint("abc"),
        "ba7816bf8f01cfea414140de5dae2223b00361a396177a9cb410ff61f20015ad"
    );
}

#[test]
fn relative_path_by_text() {
    assert_eq!(lexical_relative_path("/w/a.txt", "/w"), "a.txt");
    assert_eq!(lexical_relative_path("/w//\\\\x", "/w"), "x");
    assert_eq!(lexical_relative_path("abab/x", "ab"), "ab/x");
    assert_eq!(lexical_relative_path("/w/w/x", "/w"), "w/x");
    assert_eq!(lexical_relative_path("/other/a.txt", "/w"), "/other/a.txt");
    assert_eq!(lexical_relative_path("/w", "/w"), "");
}

#[test]
fn relative_path_prefers_resolved_form() {
    assert_eq!(relative_path_from("/w/a.txt", "/w", Some("sub/a.txt".to_string())), "sub/a.txt");
    assert_eq!(relative_path_from("/w/a.txt", "/w", None), "a.txt");
}

#[test]
fn relative_path_of_missing_file_falls_back() {
    assert_eq!(get_relative_path("/no/such/root/dir/f.txt", "/no/such/root"), "dir/f.txt");
    assert_eq!(get_relative_path("/no/such/w/no/such/w/x", "/no/such/w"), "no/such/w/x");
}

#[test]
fn relative_path_of_existing_dirs_is_resolved() {
    assert_eq!(get_relative_path("/usr/../usr/bin", "/usr/"), "bin");
    assert_eq!(lexical_relative_path("/usr/../usr/bin", "/usr/"), "../usr/bin");
}

#[test]
fn ignore_matching() {
    let p = patterns(&["*.tmp", ".git/**", "node_modules/**", ".DS_Store"]);
    assert!(should_ignore_file("scratch.tmp", &p));
    assert!(should_ignore_file(".git/config", &p));
    assert!(should_ignore_file(".DS_Store", &p));
    assert!(!should_ignore_file("a.txt", &p));
    assert!(!should_ignore_file("a.txt", &[]));
}

#[test]
fn invalid_pattern_matches_nothing() {
    let p = patterns(&["a/***/b", "[", "*.log"]);
    assert!(!should_ignore_file("a/x/b", &p));
    assert!(!should_ignore_file("[", &p));
    assert!(should_ignore_file("x.log", &p));
}

#[test]
fn any_match_outcomes() {
    assert!(!any_match(&[]));
    assert!(!any_match(&[None, Some(false)]));
    assert!(any_match(&[None, Some(true)]));
}

#[test]
fn ingest_decisions() {
    let mut c = UploadConfig::default();
    assert_eq!(ingest_verdict(&c, EventKind::Modified, false, FileStat::File), Some(UploadStatus::Queued));
    assert_eq!(ingest_verdict(&c, EventKind::Modified, false, FileStat::NotFile), Some(UploadStatus::Ignored));
    assert_eq!(ingest_verdict(&c, EventKind::Modified, false, FileStat::Unavailable), None);
    assert_eq!(ingest_verdict(&c, EventKind::Modified, true, FileStat::File), Some(UploadStatus::Ignored));
    c.ignore_existing_files = true;
    assert_eq!(ingest_verdict(&c, EventKind::Initial, false, FileStat::File), Some(UploadStatus::Ignored));
    c.enabled = false;
    assert_eq!(ingest_verdict(&c, EventKind::Modified, false, FileStat::Unavailable), Some(UploadStatus::Ignored));
}

#[test]
fn disabled_ingestion_reports_ignored() {
    let mut c = UploadConfig::default();
    c.enabled = false;
    let mut state = SyncState::new(c);
    let r = state.trigger_manual_upload("/w/a.txt".to_string(), "/w".to_string(), FileStat::File, 1);
    assert_eq!(r.expect("an event").status, UploadStatus::Ignored);
    assert_eq!(state.get_queue_size(), 0);
    assert!(matches!(state.begin_tick(100_000), TickAction::Disabled));
}

#[test]
fn unavailable_file_reports_nothing() {
    let mut state = SyncState::new(UploadConfig::default());
    let r = state.trigger_manual_upload("/w/gone.txt".to_string(), "/w".to_string(), FileStat::Unavailable, 1);
    assert!(r.is_none());
    assert_eq!(state.get_queue_size(), 0);
}

#[test]
fn reenqueue_of_ignored_path_is_inert() {
    let mut state = SyncState::new(UploadConfig::default());
    state.trigger_manual_upload("/w/keep.txt".to_string(), "/w".to_string(), FileStat::File, 1);
    for _ in 0..3 {
        let r = state.trigger_manual_upload("/w/x.tmp".to_string(), "/w".to_string(), FileStat::File, 2);
        assert_eq!(r.expect("an event").status, UploadStatus::Ignored);
        assert_eq!(state.get_queue_size(), 1);
    }
}

#[test]
fn default_config() {
    let c = UploadConfig::default();
    assert!(c.enabled);
    assert_eq!(c.server_url, "http://localhost:3000");
    assert_eq!(c.ignored_patterns, patterns(&["*.tmp", ".git/**", "node_modules/**", ".DS_Store"]));
    assert_eq!(c.upload_delay_ms, 2000);
    assert_eq!(c.max_concurrent_uploads, 5);
    assert!(!c.ignore_existing_files);
}

#[test]
fn queue_dedup_keeps_latest() {
    let mut q = UploadQueue::new();
    q.push_dedup(item("/w/a", "a", 1));
    q.push_dedup(item("/w/b", "b", 2));
    q.push_dedup(item("/w/a", "a", 3));
    assert_eq!(q.len(), 2);
    assert_eq!(q.items()[0].path, "/w/b");
    assert_eq!(q.items()[1].path, "/w/a");
    assert_eq!(q.items()[1].timestamp, 3);
}

#[test]
fn queue_restore_yields_to_newer_item() {
    let mut q = UploadQueue::new();
    q.push_dedup(item("/w/a", "a", 5));
    q.restore(item("/w/a", "a", 1));
    assert_eq!(q.len(), 1);
    assert_eq!(q.items()[0].timestamp, 5);
    q.restore(item("/w/b", "b", 1));
    assert_eq!(q.len(), 2);
    q.clear();
    assert_eq!(q.len(), 0);
}

#[test]
fn drain_takes_only_ready_items_in_order() {
    let mut q = UploadQueue::new();
    q.push_dedup(item("/w/a", "a", 1));
    q.push_dedup(item("/w/b", "b", 9));
    q.push_dedup(item("/w/c", "c", 2));
    let taken = q.drain_ready(4_000, 2_000);
    assert_eq!(taken.len(), 2);
    assert_eq!(taken[0].path, "/w/a");
    assert_eq!(taken[1].path, "/w/c");
    assert_eq!(q.len(), 1);
    assert_eq!(q.items()[0].path, "/w/b");
}

#[test]
fn drain_readiness_edge() {
    let mut q = UploadQueue::new();
    q.push_dedup(item("/w/a", "a", 10));
    assert_eq!(q.drain_ready(10_499, 500).len(), 0);
    assert_eq!(q.drain_ready(10_500, 500).len(), 1);
}

#[test]
fn zero_delay_is_ready_at_once() {
    let mut q = UploadQueue::new();
    q.push_dedup(item("/w/a", "a", 7));
    assert_eq!(q.drain_ready(7_000, 0).len(), 1);
}

#[test]
fn future_timestamp_is_not_ready() {
    let mut q = UploadQueue::new();
    q.push_dedup(item("/w/a", "a", u64::MAX));
    assert_eq!(q.drain_ready(u64::MAX, 0).len(), 0);
    assert_eq!(q.len(), 1);
}

#[test]
fn batch_boundary_of_1001_items() {
    let mut q = UploadQueue::new();
    for i in 0..1001 {
        q.push_dedup(item(&format!("/w/f{}", i), &format!("f{}", i), 1));
    }
    let first = q.drain_ready(10_000, 0);
    assert_eq!(first.len(), 1000);
    assert_eq!(first[0].path, "/w/f0");
    let second = q.drain_ready(10_000, 0);
    assert_eq!(second.len(), 1);
    assert_eq!(second[0].path, "/w/f1000");
    assert_eq!(q.len(), 0);
}

#[test]
fn single_slot_limiter() {
    let mut l = Limiter::new(1);
    let p = l.try_acquire().expect("first permit");
    assert!(l.try_acquire().is_none());
    l.release(p);
    assert_eq!(l.in_flight(), 0);
    assert!(l.try_acquire().is_some());
}

#[test]
fn limiter_resize_starts_afresh() {
    let mut l = Limiter::new(1);
    let old = l.try_acquire().expect("first permit");
    l.resize(2);
    assert_eq!(l.cap(), 2);
    assert_eq!(l.in_flight(), 0);
    let fresh = l.try_acquire().expect("a permit of the new cap");
    l.release(old);
    assert_eq!(l.in_flight(), 1);
    l.release(fresh);
    assert_eq!(l.in_flight(), 0);
    l.resize(2);
    assert_eq!(l.cap(), 2);
}

#[test]
fn missing_upload_url_requeues_without_attempt() {
    let mut state = SyncState::new(UploadConfig::default());
    let mut it = item("/w/a", "a", 1);
    it.retry_count = 1;
    let verdict = classify(result("a", "needs_upload"));
    assert!(matches!(state.on_verdict(it, verdict), VerdictAction::Requeued));
    assert_eq!(state.queue.len(), 1);
    assert_eq!(state.queue.items()[0].retry_count, 1);
    assert_eq!(state.queue.items()[0].timestamp, 1);
}

#[test]
fn probe_failure_restores_batch() {
    let mut state = SyncState::new(UploadConfig::default());
    state.trigger_manual_upload("/w/a.txt".to_string(), "/w".to_string(), FileStat::File, 1);
    state.trigger_manual_upload("/w/b.txt".to_string(), "/w".to_string(), FileStat::File, 1);
    let batch = match state.begin_tick(10_000) {
        TickAction::Probe(b) => b,
        _ => panic!("expected a batch"),
    };
    assert_eq!(state.get_upload_progress().total_queued, 0);
    state.on_probe_failed(batch);
    assert_eq!(state.get_queue_size(), 2);
    assert_eq!(state.queue.items()[0].timestamp, 1);
    assert_eq!(state.queue.items()[1].path, "/w/b.txt");
}

#[test]
fn unknown_status_is_skipped() {
    let mut state = SyncState::new(UploadConfig::default());
    let v = classify(result("a", "pending"));
    assert!(matches!(v, Verdict::Unrecognized));
    assert!(matches!(state.on_verdict(item("/w/a", "a", 1), v), VerdictAction::Skipped));
    assert_eq!(state.get_queue_size(), 0);
}

#[test]
fn results_pair_with_first_item_of_name() {
    let items = vec![item("/w/a", "a", 1), item("/v/a", "a", 2), item("/w/b", "b", 3)];
    let results = vec![result("b", "exists"), result("zz", "exists"), result("a", "needs_upload")];
    let pairs = match_results(&items, results);
    assert_eq!(pairs.len(), 2);
    assert_eq!(pairs[0].0.path, "/w/b");
    assert_eq!(pairs[0].1.status, "exists");
    assert_eq!(pairs[1].0.path, "/w/a");
    assert_eq!(pairs[1].1.file_id, "id-a");
}

#[test]
fn check_item_fields() {
    let e = file_check_item(&item("/w/notes.txt", "notes.txt", 1), b"123456789");
    assert_eq!(e.file_name, "notes.txt");
    assert_eq!(e.content_type, "text/plain");
    assert_eq!(e.crc32c, Some("4waSgw==".to_string()));
    let f = file_check_item(&item("/w/blob.qqzz", "blob.qqzz", 1), b"");
    assert_eq!(f.content_type, "application/octet-stream");
}

#[test]
fn endpoint_addresses() {
    assert_eq!(batch_url("http://h:1"), "http://h:1/api/sync/get_presigned_batch");
    assert_eq!(metadata_url("http://h:1", "f9"), "http://h:1/api/sync/f9/update_metadata");
    assert_eq!(bearer("tok"), "Bearer tok");
}

#[test]
fn success_statuses() {
    assert!(is_success_status(200));
    assert!(is_success_status(299));
    assert!(!is_success_status(199));
    assert!(!is_success_status(300));
    assert!(!is_success_status(503));
}

#[test]
fn heartbeat_states() {
    let config = HeartbeatConfig::new("http://h", "/api/hb", "t".to_string(), "fp".to_string(), "1.0".to_string());
    assert_eq!(config.url, "http://h/api/hb");
    let req = config.request();
    assert_eq!(req.device_fingerprint, "fp");
    let ok = HeartbeatStatus::succeeded(HeartbeatResponse {
        status: "online".to_string(),
        first_seen: "a".to_string(),
        last_seen: "b".to_string(),
        app_version: "1.0".to_string(),
    });
    let failed = ok.failed("down".to_string());
    let kept = failed.status.expect("the last record");
    assert_eq!(kept.status, "offline");
    assert_eq!(kept.last_seen, "b");
    assert_eq!(failed.error, Some("down".to_string()));
    let none = HeartbeatStatus::stopped().failed("x".to_string());
    assert!(none.status.is_none());
}

#[test]
fn change_kinds() {
    assert!(sync_agent::ChangeKind::Created.triggers_upload());
    assert!(sync_agent::ChangeKind::Modified.triggers_upload());
    assert!(!sync_agent::ChangeKind::Deleted.triggers_upload());
    assert!(!sync_agent::ChangeKind::Other.triggers_upload());
    assert_eq!(sync_agent::ChangeKind::Deleted.as_str(), "deleted");
}

#[test]
fn folder_labels() {
    assert_eq!(sync_agent::folder_entry_label("docs", true), "📁 docs");
    assert_eq!(sync_agent::folder_entry_label("a.txt", false), "📄 a.txt");
}

#[test]
fn status_names() {
    assert_eq!(UploadStatus::Queued.as_str(), "queued");
    assert_eq!(UploadStatus::Ignored.as_str(), "ignored");
    assert_eq!(UploadStatus::Failed.as_str(), "failed");
    assert!(UploadStatus::Failed.is_terminal());
    assert!(!UploadStatus::Uploading.is_terminal());
}
