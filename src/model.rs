use vstd::prelude::*;

verus! {

/// Largest number of items sent in one existence probe.
pub const MAX_BATCH_SIZE: usize = 1000;

/// Pause of the scheduler when nothing is ready, in milliseconds.
pub const QUEUE_PROCESSING_INTERVAL_MS: u64 = 200;

/// Number of failed upload attempts after which an item is given up.
pub const MAX_RETRY_COUNT: u32 = 3;

/// Pause after a failed probe, in seconds.
pub const RETRY_DELAY_SECS: u64 = 5;

/// Debounce window of a fresh configuration, in milliseconds.
pub const DEFAULT_UPLOAD_DELAY_MS: u64 = 2000;

/// Concurrency cap of a fresh configuration.
pub const DEFAULT_MAX_CONCURRENT_UPLOADS: usize = 5;

/// Pause between two dispatched uploads, in milliseconds.
pub const UPLOAD_SPAWN_DELAY_MS: u64 = 10;

/// Pause after a processed batch, in milliseconds.
pub const BATCH_PROCESSING_DELAY_MS: u64 = 100;

/// Pause of the scheduler while uploads are switched off, in milliseconds.
pub const DISABLED_CHECK_INTERVAL_MS: u64 = 1000;

/// Settings that govern ingestion and the scheduler.
pub struct UploadConfig {
    pub enabled: bool,
    pub server_url: String,
    pub ignored_patterns: Vec<String>,
    /// Minimum age of an item before it is ready, in milliseconds.
    pub upload_delay_ms: u64,
    /// Ceiling on uploads in flight.
    pub max_concurrent_uploads: usize,
    /// Whether files found by the initial scan are dropped.
    pub ignore_existing_files: bool,
}

/// One pending upload.
pub struct UploadItem {
    /// Absolute path: the identity of the item in the queue.
    pub path: String,
    /// Path relative to the watched root, used for display and matching.
    pub relative_path: String,
    /// Time of the last enqueue, in seconds since the epoch.
    pub timestamp: u64,
    /// Number of failed upload attempts so far.
    pub retry_count: u32,
}

/// Aggregate counters shown to the user.
pub struct UploadProgress {
    pub total_queued: usize,
    pub total_uploaded: usize,
    pub total_failed: usize,
    pub current_uploading: Option<String>,
}

/// Lifecycle stage of one file.
#[derive(PartialEq, Eq, Structural, Clone, Copy, Debug)]
pub enum UploadStatus {
    Ignored,
    Queued,
    Uploading,
    Uploaded,
    Failed,
}

/// Per-file lifecycle event.
pub struct FileUploadStatus {
    pub relative_path: String,
    pub status: UploadStatus,
    pub error: Option<String>,
}

/// Where an ingestion request comes from.
#[derive(PartialEq, Eq, Structural, Clone, Copy, Debug)]
pub enum EventKind {
    /// A file found by the scan that runs when watching starts.
    Initial,
    /// A file created or changed while watching, or a manual trigger.
    Modified,
}

/// What a metadata lookup of a path found.
#[derive(PartialEq, Eq, Structural, Clone, Copy, Debug)]
pub enum FileStat {
    /// A regular file.
    File,
    /// Something other than a regular file (a directory, ...).
    NotFile,
    /// The lookup failed.
    Unavailable,
}

impl UploadStatus {
    /// Wire name of the status.
    pub fn as_str(&self) -> (r: &'static str)
        ensures
            r@ == match *self {
                UploadStatus::Ignored => "ignored"@,
                UploadStatus::Queued => "queued"@,
                UploadStatus::Uploading => "uploading"@,
                UploadStatus::Uploaded => "uploaded"@,
                UploadStatus::Failed => "failed"@,
            },
    {
        match self {
            UploadStatus::Ignored => "ignored",
            UploadStatus::Queued => "queued",
            UploadStatus::Uploading => "uploading",
            UploadStatus::Uploaded => "uploaded",
            UploadStatus::Failed => "failed",
        }
    }

    /// Whether no further event follows for the current attempt.
    pub open spec fn spec_is_terminal(&self) -> bool {
        *self == UploadStatus::Ignored || *self == UploadStatus::Uploaded || *self
            == UploadStatus::Failed
    }

    #[verifier::when_used_as_spec(spec_is_terminal)]
    pub fn is_terminal(&self) -> (r: bool)
        ensures
            r == self.spec_is_terminal(),
    {
        match self {
            UploadStatus::Ignored | UploadStatus::Uploaded | UploadStatus::Failed => true,
            _ => false,
        }
    }
}

impl Default for UploadConfig {
    fn default() -> (r: Self)
        ensures
            r.enabled,
            r.server_url@ == "http://localhost:3000"@,
            r.ignored_patterns@.len() == 4,
            r.ignored_patterns@[0]@ == "*.tmp"@,
            r.ignored_patterns@[1]@ == ".git/**"@,
            r.ignored_patterns@[2]@ == "node_modules/**"@,
            r.ignored_patterns@[3]@ == ".DS_Store"@,
            r.upload_delay_ms == DEFAULT_UPLOAD_DELAY_MS,
            r.max_concurrent_uploads == DEFAULT_MAX_CONCURRENT_UPLOADS,
            !r.ignore_existing_files,
    {
        UploadConfig {
            enabled: true,
            server_url: "http://localhost:3000".to_owned(),
            ignored_patterns: vec![
                "*.tmp".to_owned(),
                ".git/**".to_owned(),
                "node_modules/**".to_owned(),
                ".DS_Store".to_owned(),
            ],
            upload_delay_ms: DEFAULT_UPLOAD_DELAY_MS,
            max_concurrent_uploads: DEFAULT_MAX_CONCURRENT_UPLOADS,
            ignore_existing_files: false,
        }
    }
}

impl Clone for UploadItem {
    fn clone(&self) -> (r: Self)
        ensures
            r == *self,
    {
        UploadItem {
            path: self.path.clone(),
            relative_path: self.relative_path.clone(),
            timestamp: self.timestamp,
            retry_count: self.retry_count,
        }
    }
}

impl FileUploadStatus {
    /// An event without an error message.
    pub fn new(relative_path: String, status: UploadStatus) -> (r: Self)
        ensures
            r.relative_path == relative_path,
            r.status == status,
            r.error.is_none(),
    {
        FileUploadStatus { relative_path, status, error: None }
    }
}

impl UploadProgress {
    /// All counters at zero.
    pub open spec fn new_spec() -> Self {
        UploadProgress { total_queued: 0, total_uploaded: 0, total_failed: 0, current_uploading: None }
    }

    /// All counters at zero.
    pub fn new() -> (r: Self)
        ensures
            r == Self::new_spec(),
    {
        UploadProgress { total_queued: 0, total_uploaded: 0, total_failed: 0, current_uploading: None }
    }
}

} // verus!
