//! Transfer orchestration and progress aggregation for peer-to-peer file sharing.
//!
//! The library decides what a share contains, how per-file progress folds into one
//! transfer snapshot, how often snapshots are published, and where downloads land.
//! Network, storage and file-system work is done by the caller, which hands the
//! library plain values and applies the updates it returns.

pub mod error;
pub mod manifest;
pub mod placement;
pub mod plan;
mod platform;
pub mod progress;
pub mod summary;
pub mod tasks;
pub mod text;
pub mod ticket;
pub mod utils;
pub mod worker;

pub use error::GinsengError;
pub use manifest::{
    build_share_metadata, collect_uploaded, DownloadResult, FileInfo, ShareBundle, ShareMetadata, ShareType,
};
pub use placement::{determine_target_directory, target_directory};
pub use plan::{
    collect_file_paths, determine_share_type, plan_share, validate_paths_are_files, validate_paths_exist,
    PathKind, ScannedEntry, ScannedPath, SharePlan, SourceFile,
};
pub use progress::{
    format_bytes, FileProgress, FileStatus, FileUpdate, ProgressEvent, ProgressTracker, RateLimiter,
    TransferProgress, TransferStage, TransferType,
};
pub use tasks::{initialize_download_tasks, initialize_upload_tasks, DownloadFileTask, UploadFileTask};
pub use ticket::{create_share_ticket, parse_file_hash, parse_ticket};
pub use utils::{
    calculate_relative_path, calculate_total_size, extract_directory_name, extract_file_name,
    get_downloads_directory, join_path, validate_paths_not_empty,
};
pub use worker::{AddEvent, DownloadEvent, DownloadWorker, UploadWorker, WorkerStep};
