use sync_agent::{
    classify, EventKind, FileCheckResult, FileStat, SyncState, TickAction, UploadConfig,
    UploadItem, UploadOutcome, UploadStatus, Verdict, VerdictAction,
};

fn config(delay_ms: u64, patterns: &[&str], ignore_existing: bool) -> UploadConfig {
    UploadConfig {
        enabled: true,
        server_url: "http://localhost:3000".to_string(),
        ignored_patterns: patterns.iter().map(|p| p.to_string()).collect(),
        upload_delay_ms: delay_ms,
        max_concurrent_uploads: 5,
        ignore_existing_files: ignore_existing,
    }
}

fn answer(name: &str, status: &str, url: Option<&str>) -> FileCheckResult {
    FileCheckResult {
        file_name: name.to_string(),
        crc32c: None,
        status: status.to_string(),
        file_id: "id-1".to_string(),
        upload_url: url.map(|u| u.to_string()),
    }
}

fn take_batch(state: &mut SyncState, now_ms: u64) -> Vec<UploadItem> {
    match state.begin_tick(now_ms) {
        TickAction::Probe(batch) => batch,
        _ => panic!("expected a batch"),
    }
}

fn dispatch(state: &mut SyncState, item: UploadItem) -> UploadItem {
    let verdict = classify(answer(&item.relative_path.clone(), "needs_upload", Some("http://store/put")));
    match state.on_verdict(item, verdict) {
        VerdictAction::Dispatch { item, upload_url, file_id } => {
            assert_eq!(upload_url, "http://store/put");
            assert_eq!(file_id, "id-1");
            item
        }
        _ => panic!("expected a dispatch"),
    }
}

#[test]
fn debounced_coalescing() {
    let mut state = SyncState::new(config(500, &[], false));
    let mut queued = 0;
    let first = state.trigger_manual_upload("/w/a.txt".to_string(), "/w".to_string(), FileStat::File, 0);
    if let Some(s) = first {
        assert_eq!(s.status, UploadStatus::Queued);
        queued += 1;
    }
    let second = state.trigger_manual_upload("/w/a.txt".to_string(), "/w".to_string(), FileStat::File, 0);
    if let Some(s) = second {
        assert_eq!(s.status, UploadStatus::Queued);
        queued += 1;
    }
    assert_eq!(queued, 2);
    assert_eq!(state.get_queue_size(), 1);
    assert!(matches!(state.begin_tick(400), TickAction::Idle));
    assert_eq!(state.get_queue_size(), 1);
    let batch = take_batch(&mut state, 650);
    assert_eq!(batch.len(), 1);
    assert_eq!(state.get_queue_size(), 0);
    let item = dispatch(&mut state, batch.into_iter().next().unwrap());
    let permit = state.try_acquire().expect("a free slot");
    match state.on_upload_finished(item, permit, Ok(()), 1) {
        UploadOutcome::Uploaded(s) => {
            assert_eq!(s.relative_path, "a.txt");
            assert_eq!(s.status, UploadStatus::Uploaded);
        }
        _ => panic!("expected success"),
    }
    assert_eq!(state.get_upload_progress().total_uploaded, 1);
}

#[test]
fn server_side_dedupe() {
    let mut state = SyncState::new(config(500, &[], false));
    state.trigger_manual_upload("/w/b.bin".to_string(), "/w".to_string(), FileStat::File, 10);
    let batch = take_batch(&mut state, 10_500);
    assert_eq!(batch.len(), 1);
    let item = batch.into_iter().next().unwrap();
    let verdict = classify(answer("b.bin", "exists", None));
    assert!(matches!(verdict, Verdict::Exists));
    match state.on_verdict(item, verdict) {
        VerdictAction::AlreadyStored(s) => {
            assert_eq!(s.relative_path, "b.bin");
            assert_eq!(s.status, UploadStatus::Uploaded);
        }
        _ => panic!("no upload expected"),
    }
    assert_eq!(state.get_upload_progress().total_uploaded, 1);
    assert_eq!(state.limiter.in_flight(), 0);
}

#[test]
fn transient_upload_failure() {
    let mut state = SyncState::new(config(0, &[], false));
    state.trigger_manual_upload("/w/c.txt".to_string(), "/w".to_string(), FileStat::File, 1);
    let mut seen = Vec::new();
    let mut now_secs = 1;
    for attempt in 1..=3 {
        let batch = take_batch(&mut state, now_secs * 1000);
        let item = dispatch(&mut state, batch.into_iter().next().unwrap());
        let permit = state.try_acquire().expect("a free slot");
        let outcome = if attempt < 3 { Err("HTTP 503".to_string()) } else { Ok(()) };
        now_secs += 1;
        match state.on_upload_finished(item, permit, outcome, now_secs) {
            UploadOutcome::Retrying { retry_count } => seen.push(retry_count),
            UploadOutcome::Uploaded(s) => assert_eq!(s.status, UploadStatus::Uploaded),
            UploadOutcome::Failed(_) => panic!("no failure expected"),
        }
    }
    assert_eq!(seen, vec![1, 2]);
    let progress = state.get_upload_progress();
    assert_eq!(progress.total_failed, 0);
    assert_eq!(progress.total_uploaded, 1);
}

#[test]
fn permanent_upload_failure() {
    let mut state = SyncState::new(config(0, &[], false));
    state.trigger_manual_upload("/w/d.txt".to_string(), "/w".to_string(), FileStat::File, 1);
    let mut last = None;
    for attempt in 1..=3 {
        let batch = take_batch(&mut state, (attempt + 1) * 1000);
        let item = dispatch(&mut state, batch.into_iter().next().unwrap());
        let permit = state.try_acquire().expect("a free slot");
        let error = format!("HTTP 400 on attempt {}", attempt);
        last = Some(state.on_upload_finished(item, permit, Err(error), attempt + 1));
    }
    match last {
        Some(UploadOutcome::Failed(s)) => {
            assert_eq!(s.status, UploadStatus::Failed);
            assert_eq!(s.error, Some("HTTP 400 on attempt 3".to_string()));
        }
        _ => panic!("expected a terminal failure"),
    }
    assert_eq!(state.get_upload_progress().total_failed, 1);
    assert_eq!(state.get_queue_size(), 0);
}

#[test]
fn ignore_pattern() {
    let mut state = SyncState::new(config(0, &["*.tmp"], false));
    let r = state.trigger_manual_upload("/w/scratch.tmp".to_string(), "/w".to_string(), FileStat::File, 1);
    let s = r.expect("an event");
    assert_eq!(s.status, UploadStatus::Ignored);
    assert_eq!(s.relative_path, "scratch.tmp");
    assert_eq!(state.get_queue_size(), 0);
}

#[test]
fn initial_scan_suppression() {
    let mut state = SyncState::new(config(0, &[], true));
    let first = sync_agent::add_to_upload_queue_with_event_type(
        "/w/old.dat".to_string(),
        "/w".to_string(),
        &mut state.queue,
        &state.config,
        EventKind::Initial,
        FileStat::File,
        1,
    );
    assert_eq!(first.expect("an event").status, UploadStatus::Ignored);
    assert_eq!(state.get_queue_size(), 0);
    let second = sync_agent::add_to_upload_queue_sync(
        "/w/old.dat".to_string(),
        "/w".to_string(),
        &mut state.queue,
        &state.config,
        FileStat::File,
        1,
    );
    assert_eq!(second.expect("an event").status, UploadStatus::Queued);
    let batch = take_batch(&mut state, 1000);
    let item = dispatch(&mut state, batch.into_iter().next().unwrap());
    let permit = state.try_acquire().expect("a free slot");
    assert!(matches!(state.on_upload_finished(item, permit, Ok(()), 2), UploadOutcome::Uploaded(_)));
}
