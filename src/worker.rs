//! The decisions of one upload or download worker.
//!
//! A worker consumes the events that the store or the transport reports for its file
//! and answers each with a [`WorkerStep`]: what to record on the file's progress,
//! whether to publish a snapshot at once, and whether to stop. The caller performs the
//! I/O, applies the step to the tracker and the limiter, and feeds the next event.

use vstd::prelude::*;
use vstd::string::StringExecFns;

use crate::error::GinsengError;
use crate::manifest::FileInfo;
use crate::platform::{available_cpus, system_time_nanos, NANOS_PER_SEC};
use crate::progress::{
    after_file_update, FileUpdate, ProgressTracker, RateLimiter, RateLimiterView, TransferProgress,
    TransferProgressView,
};
use crate::tasks::{DownloadFileTask, UploadFileTask};
use crate::utils::{
    calculate_relative_path, extract_file_name, file_name_or, join_path, joined_path,
    relative_path_error, relative_path_of,
};

verus! {

/// Most uploads that run at once.
pub const UPLOAD_CONCURRENCY_LIMIT: usize = 8;

/// Downloads that run at once.
pub const DOWNLOAD_CONCURRENCY: usize = 6;

/// How many uploads run at once given `cpus` available CPUs: one per CPU, at most eight.
pub fn upload_concurrency_for(cpus: usize) -> (r: usize)
    ensures
        r == upload_bound(cpus),
{
    if cpus < UPLOAD_CONCURRENCY_LIMIT {
        cpus
    } else {
        UPLOAD_CONCURRENCY_LIMIT
    }
}

/// How many uploads run at once on this machine: one per available CPU, at most eight.
pub fn upload_concurrency() -> (r: usize)
    ensures
        1 <= r <= UPLOAD_CONCURRENCY_LIMIT,
        exists|cpus: usize|
            cpus >= 1 && r == #[trigger] upload_bound(cpus),
{
    upload_concurrency_for(available_cpus())
}

/// The upload bound for `cpus` available CPUs.
pub open spec fn upload_bound(cpus: usize) -> usize {
    if cpus < UPLOAD_CONCURRENCY_LIMIT {
        cpus
    } else {
        UPLOAD_CONCURRENCY_LIMIT
    }
}

/// How many downloads run at once.
pub fn download_concurrency() -> (r: usize)
    ensures
        r == DOWNLOAD_CONCURRENCY,
{
    DOWNLOAD_CONCURRENCY
}

/// An event reported while the store ingests one file.
#[derive(Debug)]
pub enum AddEvent {
    /// The file's size is known.
    Size(u64),
    /// Bytes copied into the store so far.
    CopyProgress(u64),
    /// Bytes of the verification data computed so far.
    OutboardProgress(u64),
    /// Copying has finished.
    CopyDone,
    /// Ingestion is done; the content has this hash.
    Done(String),
    /// Ingestion failed.
    Error(String),
}

/// An event reported while one file is fetched from a peer.
#[derive(Debug)]
pub enum DownloadEvent {
    /// Bytes received so far.
    Progress(u64),
    /// The transfer reported an error.
    Error(String),
    /// The download failed outright.
    DownloadError,
    /// Anything else the transport reports.
    Other,
}

/// What a worker asks for after one event.
#[derive(Debug)]
pub enum WorkerStep {
    /// Nothing to record.
    Idle,
    /// Apply the update to the worker's file.
    Record(FileUpdate),
    /// Apply the update, then publish a snapshot whatever the limiter says.
    Finish(FileUpdate),
    /// Record the failure on the worker's file and stop with this error.
    Abort(GinsengError),
}

impl WorkerStep {
    /// The update the step records on the worker's file: an abort records its message as
    /// the failure.
    pub open spec fn recorded_update(self) -> Option<FileUpdate> {
        match self {
            WorkerStep::Idle => None,
            WorkerStep::Record(u) => Some(u),
            WorkerStep::Finish(u) => Some(u),
            WorkerStep::Abort(e) => Some(FileUpdate::Failed(e.message_string())),
        }
    }

    /// The update to apply to the worker's file: an abort records its message as the failure.
    pub fn file_update(&self) -> (r: Option<FileUpdate>)
        ensures
            match self {
                WorkerStep::Idle => r is None,
                WorkerStep::Record(u) => r == Some(*u),
                WorkerStep::Finish(u) => r == Some(*u),
                WorkerStep::Abort(e) => r matches Some(FileUpdate::Failed(m)) && m@ == e.message_view(),
            },
            r == self.recorded_update(),
    {
        match self {
            WorkerStep::Idle => None,
            WorkerStep::Record(u) => Some(u.clone()),
            WorkerStep::Finish(u) => Some(u.clone()),
            WorkerStep::Abort(e) => Some(FileUpdate::Failed(e.message())),
        }
    }

    /// The step asks for a snapshot to be published at once.
    pub fn forces_publish(&self) -> (r: bool)
        ensures
            r == (self is Finish),
    {
        match self {
            WorkerStep::Finish(_) => true,
            _ => false,
        }
    }
}

/// The progress after a step's update is applied at time `now_nanos` (nanoseconds since
/// the Unix epoch).
pub open spec fn progress_after_step(
    v: TransferProgressView,
    file_id: Seq<char>,
    step: WorkerStep,
    now_nanos: u128,
) -> TransferProgressView {
    match step.recorded_update() {
        Some(u) => after_file_update(v, file_id, u, (now_nanos / NANOS_PER_SEC) as u64),
        None => v,
    }
}

/// The limiter after a step: a finished file forces an emission; every step but an abort
/// is then checked against the limiter.
pub open spec fn limiter_after_step(l: RateLimiterView, step: WorkerStep, now_nanos: u128) -> RateLimiterView {
    match step {
        WorkerStep::Abort(_) => l,
        WorkerStep::Finish(_) => l.forced().after_check(now_nanos),
        _ => l.after_check(now_nanos),
    }
}

/// How many snapshots a step publishes: none after an abort, two for a finished file
/// (the forced one, then the check that the forced emission lets through), otherwise one
/// when the limiter allows it.
pub open spec fn publications(l: RateLimiterView, step: WorkerStep, now_nanos: u128) -> nat {
    match step {
        WorkerStep::Abort(_) => 0,
        WorkerStep::Finish(_) => 2,
        _ => if l.allows(now_nanos) {
            1
        } else {
            0
        },
    }
}

/// `step` took the tracker from `t0` to `t1` and the limiter from `l0` to `l1` at time
/// `now_nanos`, and `r` is what it yields: the snapshots to publish, or the error that
/// stops the worker.
pub open spec fn step_applied(
    t0: TransferProgressView,
    t1: TransferProgressView,
    l0: RateLimiterView,
    l1: RateLimiterView,
    file_id: Seq<char>,
    step: WorkerStep,
    now_nanos: u128,
    r: Result<Vec<TransferProgress>, GinsengError>,
) -> bool {
    &&& t1 == progress_after_step(t0, file_id, step, now_nanos)
    &&& l1 == limiter_after_step(l0, step, now_nanos)
    &&& match step {
        WorkerStep::Abort(e) => r == Err::<Vec<TransferProgress>, GinsengError>(e),
        _ => r matches Ok(snapshots) && snapshots@.len() == publications(l0, step, now_nanos) && forall|k: int|
            0 <= k < snapshots@.len() ==> (#[trigger] snapshots@[k])@ == t1,
    }
}

/// Applies one worker step at time `now_nanos`: records its update on the file, then
/// publishes as it asks or as the limiter allows, or stops on an abort.
pub fn apply_step_at(
    tracker: &mut ProgressTracker,
    limiter: &mut RateLimiter,
    file_id: &str,
    step: WorkerStep,
    now_nanos: u128,
) -> (r: Result<Vec<TransferProgress>, GinsengError>)
    requires
        now_nanos / NANOS_PER_SEC <= u64::MAX,
    ensures
        step_applied(old(tracker)@, final(tracker)@, old(limiter)@, final(limiter)@, file_id@, step, now_nanos, r),
{
    let now_secs = (now_nanos / NANOS_PER_SEC) as u64;
    if let Some(update) = step.file_update() {
        tracker.update_file_at(file_id, update, now_secs);
    }
    let mut snapshots: Vec<TransferProgress> = Vec::new();
    match step {
        WorkerStep::Abort(e) => {
            return Err(e);
        },
        WorkerStep::Finish(_) => {
            limiter.force_emit();
            snapshots.push(tracker.get_snapshot());
        },
        _ => {},
    }
    if limiter.should_emit_at(now_nanos) {
        snapshots.push(tracker.get_snapshot());
    }
    Ok(snapshots)
}

/// Applies one worker step as of the system clock.
pub fn apply_step(tracker: &mut ProgressTracker, limiter: &mut RateLimiter, file_id: &str, step: WorkerStep) -> (r:
    Result<Vec<TransferProgress>, GinsengError>)
    ensures
        exists|now_nanos: u128|
            #[trigger] step_applied(
                old(tracker)@,
                final(tracker)@,
                old(limiter)@,
                final(limiter)@,
                file_id@,
                step,
                now_nanos,
                r,
            ),
{
    apply_step_at(tracker, limiter, file_id, step, system_time_nanos())
}

/// Records a failure that ended a worker outside its event stream, and hands the error back.
pub fn record_failure(tracker: &mut ProgressTracker, file_id: &str, error: GinsengError) -> (r: GinsengError)
    ensures
        r == error,
        exists|now: u64|
            final(tracker)@ == #[trigger] after_file_update(
                old(tracker)@,
                file_id@,
                FileUpdate::Failed(error.message_string()),
                now,
            ),
{
    let now = (system_time_nanos() / NANOS_PER_SEC) as u64;
    tracker.update_file_at(file_id, FileUpdate::Failed(error.message()), now);
    error
}

/// Bytes of an upload shown as transferred: the further of the copy and the
/// verification progress, never beyond the file's size.
pub open spec fn upload_progress(copy: u64, outboard: u64, total: u64) -> u64 {
    let further = if copy >= outboard {
        copy
    } else {
        outboard
    };
    if further <= total {
        further
    } else {
        total
    }
}

/// The message of a failed ingestion.
pub open spec fn add_error_message(msg: Seq<char>) -> Seq<char> {
    "Add progress error: "@ + msg
}

/// The message of an ingestion that ended without a result.
pub open spec fn incomplete_upload_message() -> Seq<char> {
    "Upload did not complete successfully"@
}

/// State of one upload: what has been seen of the file so far.
#[derive(Debug)]
pub struct UploadWorker {
    pub name: String,
    pub relative_path: String,
    pub copy_bytes: u64,
    pub outboard_bytes: u64,
    /// The size, once the store has reported it.
    pub total_bytes: Option<u64>,
    /// The finished file, once the store has reported its hash.
    pub result: Option<FileInfo>,
}

impl UploadWorker {
    /// A worker for the task's file, named after it and placed relative to its share root.
    pub fn start(task: &UploadFileTask) -> (r: Result<Self, GinsengError>)
        ensures
            match relative_path_of(task.absolute_path@, task.share_root@) {
                Some(rel) => r matches Ok(w) && w.name@ == file_name_or(task.absolute_path@, "unknown"@)
                    && w.relative_path@ == rel && w.copy_bytes == 0 && w.outboard_bytes == 0
                    && w.total_bytes is None && w.result is None,
                None => r matches Err(e) && e.is_filesystem(
                    relative_path_error(task.absolute_path@, task.share_root@),
                ),
            },
            task.absolute_path@ == task.share_root@ ==> (r matches Ok(w) && w.relative_path@ == file_name_or(
                task.absolute_path@,
                "unknown"@,
            )),
    {
        let name = extract_file_name(task.absolute_path.as_str());
        let relative_path = calculate_relative_path(task.absolute_path.as_str(), task.share_root.as_str())?;
        Ok(UploadWorker {
            name,
            relative_path,
            copy_bytes: 0,
            outboard_bytes: 0,
            total_bytes: None,
            result: None,
        })
    }

    /// Takes in one ingestion event.
    pub fn on_event(&mut self, event: AddEvent) -> (step: WorkerStep)
        ensures
            match event {
                AddEvent::Size(n) => *final(self) == (UploadWorker { total_bytes: Some(n), ..*old(self) })
                    && step == WorkerStep::Record(FileUpdate::TotalIfUnknown(n)),
                AddEvent::CopyProgress(n) => *final(self) == (UploadWorker { copy_bytes: n, ..*old(self) })
                    && step == match old(self).total_bytes {
                    Some(t) => WorkerStep::Record(
                        FileUpdate::Transferred(upload_progress(n, old(self).outboard_bytes, t)),
                    ),
                    None => WorkerStep::Idle,
                },
                AddEvent::OutboardProgress(n) => *final(self) == (UploadWorker {
                    outboard_bytes: n,
                    ..*old(self)
                }) && step == match old(self).total_bytes {
                    Some(t) => WorkerStep::Record(
                        FileUpdate::Transferred(upload_progress(old(self).copy_bytes, n, t)),
                    ),
                    None => WorkerStep::Idle,
                },
                AddEvent::CopyDone => *final(self) == *old(self) && step is Idle,
                AddEvent::Done(hash) => *final(self) == (UploadWorker {
                    result: Some(
                        FileInfo {
                            name: old(self).name,
                            relative_path: old(self).relative_path,
                            size: match old(self).total_bytes {
                                Some(t) => t,
                                None => 0,
                            },
                            hash,
                        },
                    ),
                    ..*old(self)
                }) && step == WorkerStep::Finish(FileUpdate::Completed),
                AddEvent::Error(msg) => *final(self) == *old(self) && (step matches WorkerStep::Abort(e)
                    && e.is_storage(add_error_message(msg@))),
            },
    {
        match event {
            AddEvent::Size(n) => {
                self.total_bytes = Some(n);
                WorkerStep::Record(FileUpdate::TotalIfUnknown(n))
            },
            AddEvent::CopyProgress(n) => {
                self.copy_bytes = n;
                self.progress_step()
            },
            AddEvent::OutboardProgress(n) => {
                self.outboard_bytes = n;
                self.progress_step()
            },
            AddEvent::CopyDone => WorkerStep::Idle,
            AddEvent::Done(hash) => {
                let size = match self.total_bytes {
                    Some(t) => t,
                    None => 0,
                };
                self.result = Some(
                    FileInfo {
                        name: self.name.clone(),
                        relative_path: self.relative_path.clone(),
                        size,
                        hash,
                    },
                );
                WorkerStep::Finish(FileUpdate::Completed)
            },
            AddEvent::Error(msg) => {
                let mut message = String::from_str("Add progress error: ");
                message.append(msg.as_str());
                WorkerStep::Abort(GinsengError::Storage(message))
            },
        }
    }

    fn progress_step(&self) -> (step: WorkerStep)
        ensures
            step == match self.total_bytes {
                Some(t) => WorkerStep::Record(
                    FileUpdate::Transferred(upload_progress(self.copy_bytes, self.outboard_bytes, t)),
                ),
                None => WorkerStep::Idle,
            },
    {
        match self.total_bytes {
            Some(t) => {
                let further = if self.copy_bytes >= self.outboard_bytes {
                    self.copy_bytes
                } else {
                    self.outboard_bytes
                };
                let shown = if further <= t {
                    further
                } else {
                    t
                };
                WorkerStep::Record(FileUpdate::Transferred(shown))
            },
            None => WorkerStep::Idle,
        }
    }

    /// The uploaded file, once the stream of events has ended.
    pub fn finish(self) -> (r: Result<FileInfo, GinsengError>)
        ensures
            match self.result {
                Some(info) => r == Ok::<FileInfo, GinsengError>(info),
                None => r matches Err(e) && e.is_storage(incomplete_upload_message()),
            },
    {
        match self.result {
            Some(info) => Ok(info),
            None => Err(GinsengError::Storage(String::from_str("Upload did not complete successfully"))),
        }
    }
}

/// The message of a download that reported an error.
pub open spec fn download_error_message(msg: Seq<char>) -> Seq<char> {
    "Download error: "@ + msg
}

/// The message of a download that failed outright.
pub open spec fn download_failed_message(name: Seq<char>) -> Seq<char> {
    "Download failed for file '"@ + name + "'"@
}

/// State of one download: the file as the manifest declares it.
#[derive(Debug)]
pub struct DownloadWorker {
    pub name: String,
    pub declared_size: u64,
}

impl DownloadWorker {
    /// A worker for the task's file.
    pub fn new(task: &DownloadFileTask) -> (r: Self)
        ensures
            r.name == task.file_info.name,
            r.declared_size == task.file_info.size,
    {
        DownloadWorker { name: task.file_info.name.clone(), declared_size: task.file_info.size }
    }

    /// Takes in one transport event. Received bytes are shown capped at the declared size.
    pub fn on_event(&self, event: DownloadEvent) -> (step: WorkerStep)
        ensures
            match event {
                DownloadEvent::Progress(n) => step == WorkerStep::Record(
                    FileUpdate::Transferred(
                        if n <= self.declared_size {
                            n
                        } else {
                            self.declared_size
                        },
                    ),
                ),
                DownloadEvent::Error(msg) => step matches WorkerStep::Abort(e) && e.is_network(
                    download_error_message(msg@),
                ),
                DownloadEvent::DownloadError => step matches WorkerStep::Abort(e) && e.is_network(
                    download_failed_message(self.name@),
                ),
                DownloadEvent::Other => step is Idle,
            },
    {
        match event {
            DownloadEvent::Progress(n) => {
                let shown = if n <= self.declared_size {
                    n
                } else {
                    self.declared_size
                };
                WorkerStep::Record(FileUpdate::Transferred(shown))
            },
            DownloadEvent::Error(msg) => {
                let mut message = String::from_str("Download error: ");
                message.append(msg.as_str());
                WorkerStep::Abort(GinsengError::Network(message))
            },
            DownloadEvent::DownloadError => {
                let mut message = String::from_str("Download failed for file '");
                message.append(self.name.as_str());
                message.append("'");
                WorkerStep::Abort(GinsengError::Network(message))
            },
            DownloadEvent::Other => WorkerStep::Idle,
        }
    }

    /// The step once the file is written: the whole file is done, published at once.
    pub fn finish_step(&self) -> (step: WorkerStep)
        ensures
            step == WorkerStep::Finish(FileUpdate::Completed),
    {
        WorkerStep::Finish(FileUpdate::Completed)
    }
}

/// Where a downloaded file is written: its relative path under the target directory.
pub fn download_target_path(target_directory: &str, task: &DownloadFileTask) -> (r: String)
    ensures
        r@ == joined_path(target_directory@, task.file_info.relative_path@),
{
    join_path(target_directory, task.file_info.relative_path.as_str())
}

} // verus!
