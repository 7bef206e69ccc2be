//! Core of a desktop file-synchronisation agent: the debounced upload queue,
//! the batched existence probe and the retrying, bounded-concurrency uploader,
//! written as verified state transitions that a host program drives.

pub mod model;
pub mod paths;
pub mod queue;
pub mod ignore;
pub mod digest;
pub mod probe;
pub mod limiter;
pub mod engine;
pub mod heartbeat;
pub mod watch;

pub use digest::{compute_crc32c_hash, crc32c_field, device_fingerprint, lower_hex, to_be_bytes};
pub use engine::{
    add_to_upload_queue_sync, add_to_upload_queue_with_event_type, enqueue_resolved,
    ingest_verdict, SyncState, TickAction, UploadOutcome, VerdictAction,
};
pub use heartbeat::{HeartbeatConfig, HeartbeatRequest, HeartbeatResponse, HeartbeatStatus};
pub use ignore::{any_match, should_ignore_file};
pub use limiter::{Limiter, Permit};
pub use model::{
    EventKind, FileStat, FileUploadStatus, UploadConfig, UploadItem, UploadProgress, UploadStatus,
};
pub use paths::{get_relative_path, lexical_relative_path, relative_path_from};
pub use probe::{
    batch_url, bearer, classify, content_type_of, file_check_item, is_success_status, match_results, metadata_url,
    FileCheckItem, FileCheckResult, Verdict,
};
pub use queue::UploadQueue;
pub use watch::{folder_entry_label, ChangeKind};
