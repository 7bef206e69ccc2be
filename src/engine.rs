use vstd::prelude::*;
use crate::ignore::{ignored_by, should_ignore_file};
use crate::limiter::{Limiter, Permit};
use crate::model::{
    EventKind, FileStat, FileUploadStatus, UploadConfig, UploadItem, UploadProgress, UploadStatus,
    DEFAULT_MAX_CONCURRENT_UPLOADS, MAX_BATCH_SIZE, MAX_RETRY_COUNT,
};
use crate::paths::{get_relative_path, lexical_relative, path_below};
use crate::probe::Verdict;
use crate::queue::{
    has_path, lemma_drained_absent, paths_distinct, restore_all, restore_one, split_ready,
    without_path, UploadQueue,
};

verus! {

/// What ingestion does with a file: `Some(Ignored)`, `Some(Queued)`, or
/// `None` where the file cannot be looked up and nothing is reported.
pub open spec fn ingest_outcome(
    enabled: bool,
    ignore_existing_files: bool,
    kind: EventKind,
    ignored: bool,
    stat: FileStat,
) -> Option<UploadStatus> {
    if !enabled {
        Some(UploadStatus::Ignored)
    } else if ignore_existing_files && kind == EventKind::Initial {
        Some(UploadStatus::Ignored)
    } else if ignored {
        Some(UploadStatus::Ignored)
    } else {
        match stat {
            FileStat::File => Some(UploadStatus::Queued),
            FileStat::NotFile => Some(UploadStatus::Ignored),
            FileStat::Unavailable => None,
        }
    }
}

/// The queue `new_q` and the reported event `r` are what ingesting the file
/// at `path`, shown as `rel`, does to the queue `old_q`.
pub open spec fn ingested(
    old_q: Seq<UploadItem>,
    new_q: Seq<UploadItem>,
    config: UploadConfig,
    path: Seq<char>,
    rel: Seq<char>,
    kind: EventKind,
    stat: FileStat,
    now_secs: u64,
    r: Option<FileUploadStatus>,
) -> bool {
    let outcome = ingest_outcome(
        config.enabled,
        config.ignore_existing_files,
        kind,
        ignored_by(rel, config.ignored_patterns@),
        stat,
    );
    &&& match r {
        Some(s) => outcome == Some(s.status) && s.relative_path@ == rel && s.error is None,
        None => outcome is None,
    }
    &&& if outcome == Some(UploadStatus::Queued) {
        &&& new_q.len() > 0
        &&& new_q.drop_last() == without_path(old_q, path)
        &&& new_q.last().path@ == path
        &&& new_q.last().relative_path@ == rel
        &&& new_q.last().timestamp == now_secs
        &&& new_q.last().retry_count == 0
    } else {
        new_q == old_q
    }
}

/// Re-ingesting a path that an exclusion pattern matches leaves the queue
/// as it is and reports nothing but `ignored`.
pub proof fn lemma_ignored_path_is_inert(
    old_q: Seq<UploadItem>,
    new_q: Seq<UploadItem>,
    config: UploadConfig,
    path: Seq<char>,
    rel: Seq<char>,
    kind: EventKind,
    stat: FileStat,
    now_secs: u64,
    r: Option<FileUploadStatus>,
)
    requires
        ingested(old_q, new_q, config, path, rel, kind, stat, now_secs, r),
        ignored_by(rel, config.ignored_patterns@),
    ensures
        new_q == old_q,
        r matches Some(s) && s.status == UploadStatus::Ignored,
{
}

/// The ingestion decision for one file.
pub fn ingest_verdict(config: &UploadConfig, event_type: EventKind, ignored: bool, stat: FileStat) -> (r:
    Option<UploadStatus>)
    ensures
        r == ingest_outcome(config.enabled, config.ignore_existing_files, event_type, ignored, stat),
{
    if !config.enabled {
        Some(UploadStatus::Ignored)
    } else if config.ignore_existing_files && event_type == EventKind::Initial {
        Some(UploadStatus::Ignored)
    } else if ignored {
        Some(UploadStatus::Ignored)
    } else {
        match stat {
            FileStat::File => Some(UploadStatus::Queued),
            FileStat::NotFile => Some(UploadStatus::Ignored),
            FileStat::Unavailable => None,
        }
    }
}

/// Ingests the file at `file_path`, shown as `relative_path`, whose lookup
/// found `stat`, at time `now_secs` (seconds since the epoch); returns the
/// event to report, if any.
pub fn enqueue_resolved(
    upload_queue: &mut UploadQueue,
    upload_config: &UploadConfig,
    file_path: String,
    relative_path: String,
    event_type: EventKind,
    stat: FileStat,
    now_secs: u64,
) -> (r: Option<FileUploadStatus>)
    ensures
        ingested(
            old(upload_queue)@,
            final(upload_queue)@,
            *upload_config,
            file_path@,
            relative_path@,
            event_type,
            stat,
            now_secs,
            r,
        ),
{
    let screened = upload_config.enabled && !(upload_config.ignore_existing_files && event_type
        == EventKind::Initial);
    let ignored = screened && should_ignore_file(
        relative_path.as_str(),
        upload_config.ignored_patterns.as_slice(),
    );
    match ingest_verdict(upload_config, event_type, ignored, stat) {
        Some(UploadStatus::Queued) => {
            let item = UploadItem {
                path: file_path,
                relative_path: relative_path.clone(),
                timestamp: now_secs,
                retry_count: 0,
            };
            upload_queue.push_dedup(item);
            assert(upload_queue@.drop_last() =~= without_path(old(upload_queue)@, file_path@));
            Some(FileUploadStatus::new(relative_path, UploadStatus::Queued))
        },
        Some(status) => {
            assert(status != UploadStatus::Queued);
            Some(FileUploadStatus::new(relative_path, status))
        },
        None => None,
    }
}

/// Ingests the file at `file_path` found under the watched root `base_path`:
/// the relative path is resolved first, then the file is dropped, ignored or
/// queued as `enqueue_resolved` says.
pub fn add_to_upload_queue_with_event_type(
    file_path: String,
    base_path: String,
    upload_queue: &mut UploadQueue,
    upload_config: &UploadConfig,
    event_type: EventKind,
    stat: FileStat,
    now_secs: u64,
) -> (r: Option<FileUploadStatus>)
    ensures
        exists|rel: Seq<char>|
            (rel == lexical_relative(file_path@, base_path@) || exists|a: Seq<char>, b: Seq<char>|
                path_below(a, b) == Some(rel)) && #[trigger] ingested(
                old(upload_queue)@,
                final(upload_queue)@,
                *upload_config,
                file_path@,
                rel,
                event_type,
                stat,
                now_secs,
                r,
            ),
{
    let relative_path = get_relative_path(file_path.as_str(), base_path.as_str());
    enqueue_resolved(
        upload_queue,
        upload_config,
        file_path,
        relative_path,
        event_type,
        stat,
        now_secs,
    )
}

/// Ingests a file reported changed by the watcher.
pub fn add_to_upload_queue_sync(
    file_path: String,
    base_path: String,
    upload_queue: &mut UploadQueue,
    upload_config: &UploadConfig,
    stat: FileStat,
    now_secs: u64,
) -> (r: Option<FileUploadStatus>)
    ensures
        exists|rel: Seq<char>|
            (rel == lexical_relative(file_path@, base_path@) || exists|a: Seq<char>, b: Seq<char>|
                path_below(a, b) == Some(rel)) && #[trigger] ingested(
                old(upload_queue)@,
                final(upload_queue)@,
                *upload_config,
                file_path@,
                rel,
                EventKind::Modified,
                stat,
                now_secs,
                r,
            ),
{
    add_to_upload_queue_with_event_type(
        file_path,
        base_path,
        upload_queue,
        upload_config,
        EventKind::Modified,
        stat,
        now_secs,
    )
}

/// `x` plus one, held at the largest value.
pub open spec fn bumped(x: usize) -> usize {
    if x < usize::MAX {
        (x + 1) as usize
    } else {
        x
    }
}

fn bump(x: usize) -> (r: usize)
    ensures
        r == bumped(x),
{
    if x < usize::MAX {
        x + 1
    } else {
        x
    }
}

/// The retry count after one more failed attempt, held at the largest value.
pub open spec fn next_retry(n: u32) -> u32 {
    if n < u32::MAX {
        (n + 1) as u32
    } else {
        n
    }
}

/// Whether an upload attempt of `item` that succeeded (or not) ends the
/// item: a success, or a failure with no attempt left.
pub open spec fn attempt_is_terminal(item: UploadItem, succeeded: bool) -> bool {
    succeeded || next_retry(item.retry_count) >= MAX_RETRY_COUNT
}

/// The queue `q` after an upload attempt of `item` at `now_secs`: unchanged
/// where the attempt ends the item, else with the item back for a retry,
/// its count raised and its debounce window started afresh.
pub open spec fn queue_after_attempt(
    q: Seq<UploadItem>,
    item: UploadItem,
    succeeded: bool,
    now_secs: u64,
) -> Seq<UploadItem> {
    if attempt_is_terminal(item, succeeded) {
        q
    } else {
        without_path(q, item.path@).push(
            UploadItem { timestamp: now_secs, retry_count: next_retry(item.retry_count), ..item },
        )
    }
}

/// An item that reaches a terminal status has left the queue for good: once
/// drained, and its last attempt over, no item of its path is pending, since
/// neither the drain nor the attempt puts one back. Only a new ingestion of
/// the file can queue that path again.
pub proof fn lemma_terminal_item_gone(
    q: Seq<UploadItem>,
    now_ms: u64,
    delay_ms: u64,
    i: int,
    succeeded: bool,
    now_secs: u64,
)
    requires
        paths_distinct(q),
        0 <= i < split_ready(q, now_ms, delay_ms, MAX_BATCH_SIZE as nat).0.len(),
        attempt_is_terminal(split_ready(q, now_ms, delay_ms, MAX_BATCH_SIZE as nat).0[i], succeeded),
    ensures
        ({
            let (t, k) = split_ready(q, now_ms, delay_ms, MAX_BATCH_SIZE as nat);
            !has_path(queue_after_attempt(k, t[i], succeeded, now_secs), t[i].path@)
        }),
{
    lemma_drained_absent(q, now_ms, delay_ms, MAX_BATCH_SIZE as nat);
}

/// A fresh item gets three attempts: the first two failures send it back
/// with retry counts 1 and 2, the third failure ends it, and a success
/// ends it at any attempt.
pub proof fn lemma_three_attempts(item: UploadItem, now1: u64, now2: u64)
    requires
        item.retry_count == 0,
    ensures
        ({
            let second = UploadItem { timestamp: now1, retry_count: 1, ..item };
            let third = UploadItem { timestamp: now2, retry_count: 2, ..item };
            &&& !attempt_is_terminal(item, false) && next_retry(item.retry_count) == 1
            &&& !attempt_is_terminal(second, false) && next_retry(second.retry_count) == 2
            &&& attempt_is_terminal(third, false)
            &&& attempt_is_terminal(item, true) && attempt_is_terminal(second, true)
                && attempt_is_terminal(third, true)
        }),
{
}

/// An answer that asks for an upload but gives no address sends the item
/// back as it was, retry count and timestamp kept, where no newer item of
/// its path is pending; no attempt is counted.
pub proof fn lemma_missing_url_requeues(q: Seq<UploadItem>, item: UploadItem)
    requires
        !has_path(q, item.path@),
    ensures
        restore_one(q, item) == q.push(item),
        restore_one(q, item).last().retry_count == item.retry_count,
        restore_one(q, item).last().timestamp == item.timestamp,
{
}

/// What the scheduler does at the start of an iteration.
pub enum TickAction {
    /// Uploads are switched off: wait `DISABLED_CHECK_INTERVAL_MS`.
    Disabled,
    /// Nothing is ready: wait `QUEUE_PROCESSING_INTERVAL_MS`.
    Idle,
    /// Probe the server for these items, taken out of the queue.
    Probe(Vec<UploadItem>),
}

/// What follows one verdict of a probe.
pub enum VerdictAction {
    /// The server holds the content: report it uploaded.
    AlreadyStored(FileUploadStatus),
    /// The answer lacked an address: the item went back to the queue.
    Requeued,
    /// Send the content of `item` to `upload_url`, once a permit is held.
    Dispatch { item: UploadItem, upload_url: String, file_id: String },
    /// A status this client does not know: nothing is done.
    Skipped,
}

/// What follows the end of one upload attempt.
pub enum UploadOutcome {
    /// The content is stored: report it.
    Uploaded(FileUploadStatus),
    /// The attempt failed and the item went back to the queue.
    Retrying { retry_count: u32 },
    /// The last allowed attempt failed: report it.
    Failed(FileUploadStatus),
}

/// The whole state of the upload pipeline: queue, settings, counters and
/// the cap on uploads in flight.
pub struct SyncState {
    pub queue: UploadQueue,
    pub config: UploadConfig,
    pub progress: UploadProgress,
    pub limiter: Limiter,
}

/// A copy of a list of strings.
pub fn copy_strings(v: &Vec<String>) -> (r: Vec<String>)
    ensures
        r@ == v@,
{
    let mut out: Vec<String> = Vec::new();
    let mut i: usize = 0;
    while i < v.len()
        invariant
            i <= v@.len(),
            out@ == v@.take(i as int),
        decreases v@.len() - i,
    {
        out.push(v[i].clone());
        assert(out@ =~= v@.take(i + 1));
        i = i + 1;
    }
    assert(v@.take(i as int) =~= v@);
    out
}

impl UploadConfig {
    /// A field-by-field copy.
    pub fn copy(&self) -> (r: Self)
        ensures
            r.enabled == self.enabled,
            r.server_url == self.server_url,
            r.ignored_patterns@ == self.ignored_patterns@,
            r.upload_delay_ms == self.upload_delay_ms,
            r.max_concurrent_uploads == self.max_concurrent_uploads,
            r.ignore_existing_files == self.ignore_existing_files,
    {
        UploadConfig {
            enabled: self.enabled,
            server_url: self.server_url.clone(),
            ignored_patterns: copy_strings(&self.ignored_patterns),
            upload_delay_ms: self.upload_delay_ms,
            max_concurrent_uploads: self.max_concurrent_uploads,
            ignore_existing_files: self.ignore_existing_files,
        }
    }
}

impl UploadProgress {
    /// A field-by-field copy.
    pub fn copy(&self) -> (r: Self)
        ensures
            r == *self,
    {
        UploadProgress {
            total_queued: self.total_queued,
            total_uploaded: self.total_uploaded,
            total_failed: self.total_failed,
            current_uploading: crate::probe::copy_option(&self.current_uploading),
        }
    }
}

impl SyncState {
    /// An empty pipeline under `config`, with the default concurrency cap
    /// until the first iteration reads the configured one.
    pub fn new(config: UploadConfig) -> (r: Self)
        ensures
            r.queue@ == Seq::<UploadItem>::empty(),
            r.config == config,
            r.progress == UploadProgress::new_spec(),
            r.limiter.spec_cap() == DEFAULT_MAX_CONCURRENT_UPLOADS,
            r.limiter.spec_in_flight() == 0,
    {
        SyncState {
            queue: UploadQueue::new(),
            config,
            progress: UploadProgress::new(),
            limiter: Limiter::new(DEFAULT_MAX_CONCURRENT_UPLOADS),
        }
    }

    /// A copy of the settings.
    pub fn get_upload_config(&self) -> (r: UploadConfig)
        ensures
            r.enabled == self.config.enabled,
            r.server_url == self.config.server_url,
            r.ignored_patterns@ == self.config.ignored_patterns@,
            r.upload_delay_ms == self.config.upload_delay_ms,
            r.max_concurrent_uploads == self.config.max_concurrent_uploads,
            r.ignore_existing_files == self.config.ignore_existing_files,
    {
        self.config.copy()
    }

    /// Replaces the settings.
    pub fn set_upload_config(&mut self, config: UploadConfig)
        ensures
            final(self).config == config,
            final(self).queue == old(self).queue,
            final(self).progress == old(self).progress,
            final(self).limiter == old(self).limiter,
    {
        self.config = config;
    }

    /// A copy of the counters.
    pub fn get_upload_progress(&self) -> (r: UploadProgress)
        ensures
            r == self.progress,
    {
        self.progress.copy()
    }

    /// Drops every pending item; uploads in flight go on.
    pub fn clear_upload_queue(&mut self)
        ensures
            final(self).queue@ == Seq::<UploadItem>::empty(),
            final(self).config == old(self).config,
            final(self).progress == old(self).progress,
            final(self).limiter == old(self).limiter,
    {
        self.queue.clear();
    }

    /// Number of pending items.
    pub fn get_queue_size(&self) -> (r: usize)
        ensures
            r == self.queue@.len(),
    {
        self.queue.len()
    }

    /// Ingests a file on the user's request, as a changed file.
    pub fn trigger_manual_upload(
        &mut self,
        file_path: String,
        base_path: String,
        stat: FileStat,
        now_secs: u64,
    ) -> (r: Option<FileUploadStatus>)
        ensures
            exists|rel: Seq<char>|
                (rel == lexical_relative(file_path@, base_path@) || exists|
                    a: Seq<char>,
                    b: Seq<char>,
                | path_below(a, b) == Some(rel)) && #[trigger] ingested(
                    old(self).queue@,
                    final(self).queue@,
                    old(self).config,
                    file_path@,
                    rel,
                    EventKind::Modified,
                    stat,
                    now_secs,
                    r,
                ),
            final(self).config == old(self).config,
            final(self).progress == old(self).progress,
            final(self).limiter == old(self).limiter,
    {
        let ghost path = file_path@;
        let ghost base = base_path@;
        let r = add_to_upload_queue_with_event_type(
            file_path,
            base_path,
            &mut self.queue,
            &self.config,
            EventKind::Modified,
            stat,
            now_secs,
        );
        proof {
            let rel = choose|rel: Seq<char>|
                (rel == lexical_relative(path, base) || exists|a: Seq<char>, b: Seq<char>|
                    path_below(a, b) == Some(rel)) && #[trigger] ingested(
                    old(self).queue@,
                    self.queue@,
                    self.config,
                    path,
                    rel,
                    EventKind::Modified,
                    stat,
                    now_secs,
                    r,
                );
            assert(ingested(
                old(self).queue@,
                self.queue@,
                old(self).config,
                path,
                rel,
                EventKind::Modified,
                stat,
                now_secs,
                r,
            ));
        }
        r
    }

    /// Starts a scheduler iteration at `now_ms` (milliseconds since the
    /// epoch): adopts the configured cap, then takes out the ready items.
    pub fn begin_tick(&mut self, now_ms: u64) -> (r: TickAction)
        ensures
            final(self).config == old(self).config,
            !old(self).config.enabled ==> r is Disabled && *final(self) == *old(self),
            old(self).config.enabled ==> {
                let (t, k) = split_ready(
                    old(self).queue@,
                    now_ms,
                    old(self).config.upload_delay_ms,
                    MAX_BATCH_SIZE as nat,
                );
                &&& final(self).queue@ == k
                &&& final(self).limiter.spec_cap() == old(self).config.max_concurrent_uploads
                &&& (old(self).limiter.spec_cap() == old(self).config.max_concurrent_uploads
                    ==> final(self).limiter == old(self).limiter)
                &&& (old(self).limiter.spec_cap() != old(self).config.max_concurrent_uploads
                    ==> final(self).limiter.spec_in_flight() == 0)
                &&& t.len() == 0 ==> r is Idle && final(self).progress == old(self).progress
                &&& t.len() > 0 ==> (r matches TickAction::Probe(v) && v@ == t)
                    && final(self).progress == (UploadProgress {
                    total_queued: k.len() as usize,
                    ..old(self).progress
                })
            },
    {
        if !self.config.enabled {
            return TickAction::Disabled;
        }
        self.limiter.resize(self.config.max_concurrent_uploads);
        let batch = self.queue.drain_ready(now_ms, self.config.upload_delay_ms);
        if batch.len() == 0 {
            TickAction::Idle
        } else {
            self.progress.total_queued = self.queue.len();
            TickAction::Probe(batch)
        }
    }

    /// The probe failed: the whole batch goes back, with its timestamps and
    /// retry counts as they were.
    pub fn on_probe_failed(&mut self, batch: Vec<UploadItem>)
        ensures
            final(self).queue@ == restore_all(old(self).queue@, batch@),
            final(self).config == old(self).config,
            final(self).progress == old(self).progress,
            final(self).limiter == old(self).limiter,
    {
        let mut i: usize = 0;
        assert(batch@.take(0) =~= Seq::<UploadItem>::empty());
        while i < batch.len()
            invariant
                i <= batch@.len(),
                self.queue@ == restore_all(old(self).queue@, batch@.take(i as int)),
                self.config == old(self).config,
                self.progress == old(self).progress,
                self.limiter == old(self).limiter,
            decreases batch@.len() - i,
        {
            assert(batch@.take(i + 1).drop_last() =~= batch@.take(i as int));
            self.queue.restore(batch[i].clone());
            i = i + 1;
        }
        assert(batch@.take(i as int) =~= batch@);
    }

    /// Acts on the server's verdict for `item`.
    pub fn on_verdict(&mut self, item: UploadItem, verdict: Verdict) -> (r: VerdictAction)
        ensures
            final(self).config == old(self).config,
            final(self).limiter == old(self).limiter,
            match verdict {
                Verdict::Exists => {
                    &&& r == VerdictAction::AlreadyStored(FileUploadStatus {
                        relative_path: item.relative_path,
                        status: UploadStatus::Uploaded,
                        error: None,
                    })
                    &&& final(self).queue == old(self).queue
                    &&& final(self).progress == (UploadProgress {
                        total_uploaded: bumped(old(self).progress.total_uploaded),
                        ..old(self).progress
                    })
                },
                Verdict::NeedsUpload { upload_url: None, file_id: _ } => {
                    &&& r is Requeued
                    &&& final(self).queue@ == restore_one(old(self).queue@, item)
                    &&& final(self).progress == old(self).progress
                },
                Verdict::NeedsUpload { upload_url: Some(url), file_id } => {
                    &&& r == (VerdictAction::Dispatch { item, upload_url: url, file_id })
                    &&& final(self).queue == old(self).queue
                    &&& final(self).progress == old(self).progress
                },
                Verdict::Unrecognized => {
                    &&& r is Skipped
                    &&& final(self).queue == old(self).queue
                    &&& final(self).progress == old(self).progress
                },
            },
    {
        match verdict {
            Verdict::Exists => {
                self.progress.total_uploaded = bump(self.progress.total_uploaded);
                VerdictAction::AlreadyStored(
                    FileUploadStatus::new(item.relative_path, UploadStatus::Uploaded),
                )
            },
            Verdict::NeedsUpload { upload_url: None, file_id: _ } => {
                self.queue.restore(item);
                VerdictAction::Requeued
            },
            Verdict::NeedsUpload { upload_url: Some(url), file_id } => {
                VerdictAction::Dispatch { item, upload_url: url, file_id }
            },
            Verdict::Unrecognized => VerdictAction::Skipped,
        }
    }

    /// Takes a permit for one upload when a slot is free.
    pub fn try_acquire(&mut self) -> (r: Option<Permit>)
        ensures
            r.is_some() == (old(self).limiter.spec_in_flight() < old(self).limiter.spec_cap()),
            final(self).limiter.spec_in_flight() <= final(self).limiter.spec_cap(),
            final(self).limiter.spec_cap() == old(self).limiter.spec_cap(),
            final(self).limiter.spec_generation() == old(self).limiter.spec_generation(),
            final(self).limiter.spec_in_flight() as int == if r.is_some() {
                old(self).limiter.spec_in_flight() as int + 1
            } else {
                old(self).limiter.spec_in_flight() as int
            },
            r matches Some(p) ==> p.spec_generation() == old(self).limiter.spec_generation(),
            final(self).queue == old(self).queue,
            final(self).config == old(self).config,
            final(self).progress == old(self).progress,
    {
        self.limiter.try_acquire()
    }

    /// An upload of `item` under `permit` ended with `outcome`, at
    /// `now_secs`: the permit is given back, and the item is counted,
    /// retried with a fresh debounce window, or given up.
    pub fn on_upload_finished(
        &mut self,
        item: UploadItem,
        permit: Permit,
        outcome: Result<(), String>,
        now_secs: u64,
    ) -> (r: UploadOutcome)
        ensures
            final(self).config == old(self).config,
            final(self).queue@ == queue_after_attempt(old(self).queue@, item, outcome is Ok, now_secs),
            (r is Uploaded || r is Failed) == attempt_is_terminal(item, outcome is Ok),
            final(self).limiter.spec_cap() == old(self).limiter.spec_cap(),
            final(self).limiter.spec_in_flight() as int == if permit.spec_generation() == old(
                self,
            ).limiter.spec_generation() && old(self).limiter.spec_in_flight() > 0 {
                old(self).limiter.spec_in_flight() - 1
            } else {
                old(self).limiter.spec_in_flight() as int
            },
            match outcome {
                Ok(()) => {
                    &&& r == UploadOutcome::Uploaded(FileUploadStatus {
                        relative_path: item.relative_path,
                        status: UploadStatus::Uploaded,
                        error: None,
                    })
                    &&& final(self).queue == old(self).queue
                    &&& final(self).progress == (UploadProgress {
                        total_uploaded: bumped(old(self).progress.total_uploaded),
                        total_queued: old(self).queue@.len() as usize,
                        ..old(self).progress
                    })
                },
                Err(e) => if next_retry(item.retry_count) < MAX_RETRY_COUNT {
                    &&& r == (UploadOutcome::Retrying { retry_count: next_retry(item.retry_count) })
                    &&& final(self).queue@ == without_path(old(self).queue@, item.path@).push(
                        UploadItem {
                            timestamp: now_secs,
                            retry_count: next_retry(item.retry_count),
                            ..item
                        },
                    )
                    &&& final(self).progress == old(self).progress
                } else {
                    &&& r == UploadOutcome::Failed(FileUploadStatus {
                        relative_path: item.relative_path,
                        status: UploadStatus::Failed,
                        error: Some(e),
                    })
                    &&& final(self).queue == old(self).queue
                    &&& final(self).progress == (UploadProgress {
                        total_failed: bumped(old(self).progress.total_failed),
                        total_queued: old(self).queue@.len() as usize,
                        ..old(self).progress
                    })
                },
            },
    {
        self.limiter.release(permit);
        match outcome {
            Ok(()) => {
                self.progress.total_uploaded = bump(self.progress.total_uploaded);
                self.progress.total_queued = self.queue.len();
                UploadOutcome::Uploaded(
                    FileUploadStatus::new(item.relative_path, UploadStatus::Uploaded),
                )
            },
            Err(e) => {
                let retry_count = if item.retry_count < u32::MAX {
                    item.retry_count + 1
                } else {
                    item.retry_count
                };
                if retry_count < MAX_RETRY_COUNT {
                    let again = UploadItem {
                        path: item.path,
                        relative_path: item.relative_path,
                        timestamp: now_secs,
                        retry_count,
                    };
                    self.queue.push_dedup(again);
                    UploadOutcome::Retrying { retry_count }
                } else {
                    self.progress.total_failed = bump(self.progress.total_failed);
                    self.progress.total_queued = self.queue.len();
                    UploadOutcome::Failed(
                        FileUploadStatus {
                            relative_path: item.relative_path,
                            status: UploadStatus::Failed,
                            error: Some(e),
                        },
                    )
                }
            },
        }
    }
}

} // verus!
