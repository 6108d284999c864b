//! Progress of multi-file transfers: per-file state, the aggregate snapshot, the
//! tracker that keeps the aggregate in step with its files, and the limiter that
//! throttles how often snapshots are published.

use vstd::prelude::*;
use vstd::string::StringExecFns;

use crate::platform::{random_uuid_text, system_time_nanos, NANOS_PER_SEC};
use crate::text::{decimal, digit_char, digit_text, push_decimal};

verus! {

/// Identifier of one transfer.
pub type TransferId = String;

/// Identifier of one file within a transfer.
pub type FileId = String;

/// Direction of a transfer.
#[derive(Debug, Clone, Copy, PartialEq, Eq, Structural)]
pub enum TransferType {
    /// Files are offered to a peer.
    Upload,
    /// Files are fetched from a peer.
    Download,
}

/// Coarse lifecycle phase of a transfer.
#[derive(Debug, Clone, Copy, PartialEq, Eq, Structural)]
pub enum TransferStage {
    Initializing,
    Connecting,
    Transferring,
    Finalizing,
    Completed,
    Failed,
    Cancelled,
}

/// Lifecycle state of one file within a transfer.
#[derive(Debug, Clone, Copy, PartialEq, Eq, Structural)]
pub enum FileStatus {
    Pending,
    Transferring,
    Completed,
    Failed,
    Skipped,
}

/// Progress of one file of a transfer.
#[derive(Debug)]
pub struct FileProgress {
    pub file_id: FileId,
    /// File name without directories.
    pub name: String,
    /// Path relative to the root of the share.
    pub relative_path: String,
    pub total_bytes: u64,
    pub transferred_bytes: u64,
    pub status: FileStatus,
    /// Bytes per second, once known.
    pub transfer_rate: Option<u64>,
    /// Why the file failed, if it did.
    pub error: Option<String>,
}

impl Clone for FileProgress {
    fn clone(&self) -> (r: Self)
        ensures
            r == *self,
    {
        FileProgress {
            file_id: self.file_id.clone(),
            name: self.name.clone(),
            relative_path: self.relative_path.clone(),
            total_bytes: self.total_bytes,
            transferred_bytes: self.transferred_bytes,
            status: self.status,
            transfer_rate: self.transfer_rate,
            error: self.error.clone(),
        }
    }
}

impl FileProgress {
    /// The file has reached a terminal state: completed, failed or skipped.
    pub open spec fn spec_is_complete(&self) -> bool {
        self.status == FileStatus::Completed || self.status == FileStatus::Failed
            || self.status == FileStatus::Skipped
    }

    /// A pending file with nothing transferred yet, under the given identifier.
    pub open spec fn pending(file_id: String, name: String, relative_path: String, total_bytes: u64) -> FileProgress {
        FileProgress {
            file_id,
            name,
            relative_path,
            total_bytes,
            transferred_bytes: 0,
            status: FileStatus::Pending,
            transfer_rate: None,
            error: None,
        }
    }

    /// A pending file with a fresh random identifier.
    pub fn new(name: String, relative_path: String, total_bytes: u64) -> (r: Self)
        ensures
            r == FileProgress::pending(r.file_id, name, relative_path, total_bytes),
    {
        Self::with_id(random_uuid_text(), name, relative_path, total_bytes)
    }

    /// A pending file under the given identifier.
    pub fn with_id(file_id: FileId, name: String, relative_path: String, total_bytes: u64) -> (r: Self)
        ensures
            r == FileProgress::pending(file_id, name, relative_path, total_bytes),
    {
        FileProgress {
            file_id,
            name,
            relative_path,
            total_bytes,
            transferred_bytes: 0,
            status: FileStatus::Pending,
            transfer_rate: None,
            error: None,
        }
    }

    /// Whether the file has reached a terminal state.
    pub fn is_complete(&self) -> (r: bool)
        ensures
            r == self.spec_is_complete(),
    {
        match self.status {
            FileStatus::Completed | FileStatus::Failed | FileStatus::Skipped => true,
            _ => false,
        }
    }

    /// Applies one update; a file in a terminal state is left as it is.
    pub fn apply(&mut self, update: FileUpdate)
        ensures
            *final(self) == update.applied_to(*old(self)),
    {
        if self.is_complete() {
            return;
        }
        match update {
            FileUpdate::Status(status) => {
                self.status = status;
            },
            FileUpdate::Transferred(n) => {
                self.transferred_bytes = n;
            },
            FileUpdate::TotalIfUnknown(n) => {
                if self.total_bytes == 0 {
                    self.total_bytes = n;
                }
            },
            FileUpdate::Completed => {
                self.transferred_bytes = self.total_bytes;
                self.status = FileStatus::Completed;
            },
            FileUpdate::Failed(message) => {
                self.status = FileStatus::Failed;
                self.error = Some(message);
            },
        }
    }
}

/// One change to a file's progress, applied by the tracker under its guard.
#[derive(Debug, PartialEq, Eq)]
pub enum FileUpdate {
    /// Move the file to this status.
    Status(FileStatus),
    /// Set the number of bytes transferred so far.
    Transferred(u64),
    /// Set the file's size, if it was not known (zero) yet.
    TotalIfUnknown(u64),
    /// The whole file is done: transferred equals total, status Completed.
    Completed,
    /// The file failed with this message.
    Failed(String),
}

impl Clone for FileUpdate {
    fn clone(&self) -> (r: Self)
        ensures
            r == *self,
    {
        match self {
            FileUpdate::Status(status) => FileUpdate::Status(*status),
            FileUpdate::Transferred(n) => FileUpdate::Transferred(*n),
            FileUpdate::TotalIfUnknown(n) => FileUpdate::TotalIfUnknown(*n),
            FileUpdate::Completed => FileUpdate::Completed,
            FileUpdate::Failed(message) => FileUpdate::Failed(message.clone()),
        }
    }
}

impl FileUpdate {
    /// The file after this update; files in a terminal state do not change.
    pub open spec fn applied_to(self, f: FileProgress) -> FileProgress {
        if f.spec_is_complete() {
            f
        } else {
            match self {
                FileUpdate::Status(status) => FileProgress { status, ..f },
                FileUpdate::Transferred(n) => FileProgress { transferred_bytes: n, ..f },
                FileUpdate::TotalIfUnknown(n) => if f.total_bytes == 0 {
                    FileProgress { total_bytes: n, ..f }
                } else {
                    f
                },
                FileUpdate::Completed => FileProgress {
                    transferred_bytes: f.total_bytes,
                    status: FileStatus::Completed,
                    ..f
                },
                FileUpdate::Failed(message) => FileProgress {
                    status: FileStatus::Failed,
                    error: Some(message),
                    ..f
                },
            }
        }
    }
}

// ---------------------------------------------------------------------------
// The aggregate snapshot of a transfer
// ---------------------------------------------------------------------------

/// Overall progress of one transfer: counters, rates and every file's progress.
#[derive(Debug)]
pub struct TransferProgress {
    pub transfer_id: TransferId,
    pub transfer_type: TransferType,
    pub stage: TransferStage,
    pub total_files: u64,
    /// Files whose status is Completed.
    pub completed_files: u64,
    /// Files whose status is Failed.
    pub failed_files: u64,
    pub total_bytes: u64,
    pub transferred_bytes: u64,
    /// Average bytes per second since the start, once known.
    pub transfer_rate: Option<u64>,
    /// Unix time, in seconds, at which the transfer started.
    pub start_time: u64,
    /// Estimated seconds left, once known.
    pub eta_seconds: Option<u64>,
    pub files: Vec<FileProgress>,
    /// Why the transfer failed, if it did.
    pub error: Option<String>,
}

/// The mathematical value of a [`TransferProgress`]: its fields, with the file list as a sequence.
pub struct TransferProgressView {
    pub transfer_id: TransferId,
    pub transfer_type: TransferType,
    pub stage: TransferStage,
    pub total_files: u64,
    pub completed_files: u64,
    pub failed_files: u64,
    pub total_bytes: u64,
    pub transferred_bytes: u64,
    pub transfer_rate: Option<u64>,
    pub start_time: u64,
    pub eta_seconds: Option<u64>,
    pub files: Seq<FileProgress>,
    pub error: Option<String>,
}

impl View for TransferProgress {
    type V = TransferProgressView;

    open spec fn view(&self) -> TransferProgressView {
        TransferProgressView {
            transfer_id: self.transfer_id,
            transfer_type: self.transfer_type,
            stage: self.stage,
            total_files: self.total_files,
            completed_files: self.completed_files,
            failed_files: self.failed_files,
            total_bytes: self.total_bytes,
            transferred_bytes: self.transferred_bytes,
            transfer_rate: self.transfer_rate,
            start_time: self.start_time,
            eta_seconds: self.eta_seconds,
            files: self.files@,
            error: self.error,
        }
    }
}

impl Clone for TransferProgress {
    fn clone(&self) -> (r: Self)
        ensures
            r@ == self@,
    {
        let files = self.files.clone();
        assert(files@ =~= self.files@);
        TransferProgress {
            transfer_id: self.transfer_id.clone(),
            transfer_type: self.transfer_type,
            stage: self.stage,
            total_files: self.total_files,
            completed_files: self.completed_files,
            failed_files: self.failed_files,
            total_bytes: self.total_bytes,
            transferred_bytes: self.transferred_bytes,
            transfer_rate: self.transfer_rate,
            start_time: self.start_time,
            eta_seconds: self.eta_seconds,
            files,
            error: self.error.clone(),
        }
    }
}

/// `n` if it fits in 64 bits, else `u64::MAX`.
pub open spec fn saturate(n: nat) -> u64 {
    if n <= u64::MAX {
        n as u64
    } else {
        u64::MAX
    }
}

/// Sum of the transferred bytes of the files.
pub open spec fn sum_transferred(files: Seq<FileProgress>) -> nat
    decreases files.len(),
{
    if files.len() == 0 {
        0
    } else {
        sum_transferred(files.drop_last()) + files.last().transferred_bytes as nat
    }
}

/// Number of files with the given status.
pub open spec fn count_status(files: Seq<FileProgress>, status: FileStatus) -> nat
    decreases files.len(),
{
    if files.len() == 0 {
        0
    } else {
        count_status(files.drop_last(), status) + if files.last().status == status {
            1nat
        } else {
            0
        }
    }
}

/// `i` is the first position of a file with identifier `id`.
pub open spec fn first_with_id(files: Seq<FileProgress>, id: Seq<char>, i: int) -> bool {
    &&& 0 <= i < files.len()
    &&& files[i].file_id@ == id
    &&& forall|j: int| 0 <= j < i ==> files[j].file_id@ != id
}

/// Some file has identifier `id`.
pub open spec fn has_id(files: Seq<FileProgress>, id: Seq<char>) -> bool {
    exists|i: int| 0 <= i < files.len() && files[i].file_id@ == id
}

/// The progress after `update` is applied to the first file with identifier `id` at
/// Unix time `now`; without such a file nothing changes.
pub open spec fn after_file_update(v: TransferProgressView, id: Seq<char>, update: FileUpdate, now: u64) -> TransferProgressView {
    if has_id(v.files, id) {
        v.with_file_update(choose|i: int| first_with_id(v.files, id, i), update).with_rates(now)
    } else {
        v
    }
}

impl TransferProgressView {
    /// A fresh transfer: Initializing, no files, all counters zero, nothing known of rates.
    pub open spec fn initial(transfer_id: TransferId, transfer_type: TransferType, start_time: u64) -> Self {
        TransferProgressView {
            transfer_id,
            transfer_type,
            stage: TransferStage::Initializing,
            total_files: 0,
            completed_files: 0,
            failed_files: 0,
            total_bytes: 0,
            transferred_bytes: 0,
            transfer_rate: None,
            start_time,
            eta_seconds: None,
            files: Seq::empty(),
            error: None,
        }
    }

    /// The aggregate counters recomputed from the file list (byte sums saturate).
    pub open spec fn with_totals(self) -> Self {
        TransferProgressView {
            transferred_bytes: saturate(sum_transferred(self.files)),
            completed_files: saturate(count_status(self.files, FileStatus::Completed)),
            failed_files: saturate(count_status(self.files, FileStatus::Failed)),
            ..self
        }
    }

    /// Rate and time left at Unix time `now`: the average rate since the start and the
    /// remaining bytes at that rate. Nothing changes until some time has elapsed and
    /// some bytes have moved; the estimate is kept while the rate rounds down to zero.
    pub open spec fn with_rates(self, now: u64) -> Self {
        let elapsed: int = if now >= self.start_time {
            now - self.start_time
        } else {
            0
        };
        if elapsed > 0 && self.transferred_bytes > 0 {
            let rate: int = self.transferred_bytes as int / elapsed;
            if rate > 0 {
                let remaining: int = if self.total_bytes >= self.transferred_bytes {
                    self.total_bytes - self.transferred_bytes
                } else {
                    0
                };
                TransferProgressView {
                    transfer_rate: Some(rate as u64),
                    eta_seconds: Some((remaining / rate) as u64),
                    ..self
                }
            } else {
                TransferProgressView { transfer_rate: Some(rate as u64), ..self }
            }
        } else {
            self
        }
    }

    /// The transfer moved to `stage`.
    pub open spec fn with_stage(self, stage: TransferStage) -> Self {
        TransferProgressView { stage, ..self }
    }

    /// The file at position `i` updated, then the counters recomputed.
    pub open spec fn with_file_update(self, i: int, update: FileUpdate) -> Self {
        TransferProgressView {
            files: self.files.update(i, update.applied_to(self.files[i])),
            ..self
        }.with_totals()
    }
}

/// Unix time in whole seconds, from the system clock.
fn unix_seconds_now() -> (r: u64) {
    let nanos = system_time_nanos();
    (nanos / NANOS_PER_SEC) as u64
}

impl TransferProgress {
    /// A fresh transfer in the Initializing stage, started now.
    pub fn new(transfer_id: TransferId, transfer_type: TransferType) -> (r: Self)
        ensures
            r@ == TransferProgressView::initial(transfer_id, transfer_type, r.start_time),
    {
        Self::new_at(transfer_id, transfer_type, unix_seconds_now())
    }

    /// A fresh transfer in the Initializing stage, started at Unix time `start_time`.
    pub fn new_at(transfer_id: TransferId, transfer_type: TransferType, start_time: u64) -> (r: Self)
        ensures
            r@ == TransferProgressView::initial(transfer_id, transfer_type, start_time),
    {
        let r = TransferProgress {
            transfer_id,
            transfer_type,
            stage: TransferStage::Initializing,
            total_files: 0,
            completed_files: 0,
            failed_files: 0,
            total_bytes: 0,
            transferred_bytes: 0,
            transfer_rate: None,
            start_time,
            eta_seconds: None,
            files: Vec::new(),
            error: None,
        };
        assert(r@.files =~= Seq::<FileProgress>::empty());
        r
    }

    /// Recomputes rate and time left from the clock.
    pub fn update_rates(&mut self)
        ensures
            exists|now: u64| final(self)@ == #[trigger] old(self)@.with_rates(now),
    {
        self.update_rates_at(unix_seconds_now());
    }

    /// Recomputes rate and time left as of Unix time `now`.
    pub fn update_rates_at(&mut self, now: u64)
        ensures
            final(self)@ == old(self)@.with_rates(now),
    {
        let elapsed = now.saturating_sub(self.start_time);
        if elapsed > 0 && self.transferred_bytes > 0 {
            let rate = self.transferred_bytes / elapsed;
            self.transfer_rate = Some(rate);
            if rate > 0 {
                let remaining = self.total_bytes.saturating_sub(self.transferred_bytes);
                self.eta_seconds = Some(remaining / rate);
            }
        }
    }

    /// Recomputes transferred bytes and the completed and failed counts from the files.
    pub fn recalculate_totals(&mut self)
        ensures
            final(self)@ == old(self)@.with_totals(),
    {
        let mut transferred: u64 = 0;
        let mut completed: u64 = 0;
        let mut failed: u64 = 0;
        let n = self.files.len();
        let mut i: usize = 0;
        while i < n
            invariant
                n == self.files@.len(),
                self@ == old(self)@,
                0 <= i <= n,
                transferred == saturate(sum_transferred(self.files@.take(i as int))),
                completed == saturate(count_status(self.files@.take(i as int), FileStatus::Completed)),
                failed == saturate(count_status(self.files@.take(i as int), FileStatus::Failed)),
            decreases n - i,
        {
            let f = &self.files[i];
            proof {
                let s = self.files@.take(i as int + 1);
                assert(s.drop_last() =~= self.files@.take(i as int));
                assert(s.last() == self.files@[i as int]);
            }
            transferred = transferred.saturating_add(f.transferred_bytes);
            if f.status == FileStatus::Completed {
                completed = completed.saturating_add(1);
            }
            if f.status == FileStatus::Failed {
                failed = failed.saturating_add(1);
            }
            i = i + 1;
        }
        assert(self.files@.take(n as int) =~= self.files@);
        self.transferred_bytes = transferred;
        self.completed_files = completed;
        self.failed_files = failed;
    }
}

// ---------------------------------------------------------------------------
// Events published to the host
// ---------------------------------------------------------------------------

/// A notification about a transfer, carrying a snapshot of its state.
#[derive(Debug)]
pub enum ProgressEvent {
    /// The transfer has started.
    TransferStarted { transfer: TransferProgress },
    /// The aggregate progress changed.
    TransferProgress { transfer: TransferProgress },
    /// One file's progress changed.
    FileProgress { transfer_id: TransferId, file: FileProgress },
    /// The transfer entered a new stage.
    StageChanged { transfer_id: TransferId, stage: TransferStage, message: Option<String> },
    /// The transfer has completed.
    TransferCompleted { transfer: TransferProgress },
    /// The transfer has failed.
    TransferFailed { transfer: TransferProgress, error: String },
}

// ---------------------------------------------------------------------------
// The tracker: the one owner of a transfer's progress
// ---------------------------------------------------------------------------

/// Owner of one transfer's progress. Every change goes through its methods, which keep
/// the counters in step with the file list. Callers that share it between workers put
/// it behind one exclusive guard.
pub struct ProgressTracker {
    inner: TransferProgress,
}

impl View for ProgressTracker {
    type V = TransferProgressView;

    closed spec fn view(&self) -> TransferProgressView {
        self.inner@
    }
}

impl ProgressTracker {
    /// A tracker for a fresh transfer, started now.
    pub fn new(transfer_id: TransferId, transfer_type: TransferType) -> (r: Self)
        ensures
            r@ == TransferProgressView::initial(transfer_id, transfer_type, r@.start_time),
    {
        ProgressTracker { inner: TransferProgress::new(transfer_id, transfer_type) }
    }

    /// A tracker for a fresh transfer, started at Unix time `start_time`.
    pub fn new_at(transfer_id: TransferId, transfer_type: TransferType, start_time: u64) -> (r: Self)
        ensures
            r@ == TransferProgressView::initial(transfer_id, transfer_type, start_time),
    {
        ProgressTracker { inner: TransferProgress::new_at(transfer_id, transfer_type, start_time) }
    }

    /// A full copy of the current progress, to publish without holding the tracker.
    pub fn get_snapshot(&self) -> (r: TransferProgress)
        ensures
            r@ == self@,
    {
        self.inner.clone()
    }

    /// Moves the transfer to `stage`.
    pub fn set_stage(&mut self, stage: TransferStage)
        ensures
            final(self)@ == old(self)@.with_stage(stage),
    {
        self.inner.stage = stage;
    }

    /// Registers one more file: one more file and its size in the totals (saturating).
    pub fn add_file(&mut self, file: FileProgress)
        ensures
            final(self)@ == (TransferProgressView {
                total_files: saturate((old(self)@.total_files + 1) as nat),
                total_bytes: saturate((old(self)@.total_bytes + file.total_bytes) as nat),
                files: old(self)@.files.push(file),
                ..old(self)@
            }),
    {
        self.inner.total_files = self.inner.total_files.saturating_add(1);
        self.inner.total_bytes = self.inner.total_bytes.saturating_add(file.total_bytes);
        self.inner.files.push(file);
    }

    /// Applies `update` to the first file with identifier `file_id`, then recomputes the
    /// counters from the file list and the rates from the clock. Without such a file
    /// nothing changes.
    pub fn update_file(&mut self, file_id: &str, update: FileUpdate)
        ensures
            !has_id(old(self)@.files, file_id@) ==> final(self)@ == old(self)@,
            forall|i: int|
                first_with_id(old(self)@.files, file_id@, i) ==> exists|now: u64|
                    final(self)@ == #[trigger] old(self)@.with_file_update(i, update).with_rates(now),
    {
        let now = unix_seconds_now();
        self.update_file_at(file_id, update, now);
    }

    /// Applies `update` to the first file with identifier `file_id`, then recomputes the
    /// counters from the file list and the rates as of Unix time `now`. Without such a
    /// file nothing changes.
    pub fn update_file_at(&mut self, file_id: &str, update: FileUpdate, now: u64)
        ensures
            !has_id(old(self)@.files, file_id@) ==> final(self)@ == old(self)@,
            forall|i: int|
                first_with_id(old(self)@.files, file_id@, i) ==> final(self)@
                    == old(self)@.with_file_update(i, update).with_rates(now),
            final(self)@ == after_file_update(old(self)@, file_id@, update, now),
    {
        let target = String::from_str(file_id);
        let n = self.inner.files.len();
        let mut i: usize = 0;
        while i < n
            invariant
                n == self.inner.files@.len(),
                self@ == old(self)@,
                target@ == file_id@,
                0 <= i <= n,
                forall|j: int| 0 <= j < i ==> self.inner.files@[j].file_id@ != file_id@,
            decreases n - i,
        {
            if self.inner.files[i].file_id == target {
                let mut file = self.inner.files[i].clone();
                file.apply(update);
                self.inner.files.set(i, file);
                self.inner.recalculate_totals();
                self.inner.update_rates_at(now);
                proof {
                    assert(first_with_id(old(self)@.files, file_id@, i as int));
                    assert forall|k: int| first_with_id(old(self)@.files, file_id@, k) implies k == i by {
                        if k < i {
                        } else if k > i {
                            assert(old(self)@.files[i as int].file_id@ == file_id@);
                        }
                    }
                    assert(self@ == old(self)@.with_file_update(i as int, update).with_rates(now));
                    assert(has_id(old(self)@.files, file_id@));
                    let k = choose|k: int| first_with_id(old(self)@.files, file_id@, k);
                    assert(k == i);
                }
                return;
            }
            i = i + 1;
        }
    }

    /// Records the transfer's failure: the message is kept and the stage becomes Failed.
    pub fn set_error(&mut self, error: String)
        ensures
            final(self)@ == (TransferProgressView {
                error: Some(error),
                stage: TransferStage::Failed,
                ..old(self)@
            }),
    {
        self.inner.error = Some(error);
        self.inner.stage = TransferStage::Failed;
    }

    /// Marks the transfer Completed and recomputes the final rates from the clock.
    pub fn complete(&mut self)
        ensures
            exists|now: u64|
                final(self)@ == #[trigger] old(self)@.with_stage(TransferStage::Completed).with_rates(now),
    {
        let now = unix_seconds_now();
        self.complete_at(now);
    }

    /// Marks the transfer Completed and recomputes the final rates as of Unix time `now`.
    pub fn complete_at(&mut self, now: u64)
        ensures
            final(self)@ == old(self)@.with_stage(TransferStage::Completed).with_rates(now),
    {
        self.inner.stage = TransferStage::Completed;
        self.inner.update_rates_at(now);
    }
}

// ---------------------------------------------------------------------------
// Throttling of published snapshots
// ---------------------------------------------------------------------------

/// The state of a [`RateLimiter`]: when it last let an emission through (nanoseconds
/// since the Unix epoch; `None` once an emission has been forced) and the minimum gap.
pub struct RateLimiterView {
    pub last_emission: Option<u128>,
    pub min_interval: u128,
}

impl RateLimiterView {
    /// A check at time `now` lets an emission through: none is recorded, or at least
    /// the minimum interval has passed since the last one (a clock that went backwards
    /// counts as no time passed).
    pub open spec fn allows(self, now: u128) -> bool {
        match self.last_emission {
            None => true,
            Some(last) => {
                let elapsed: int = if now >= last {
                    now - last
                } else {
                    0
                };
                elapsed >= self.min_interval
            },
        }
    }

    /// The state after a check at time `now`: a passing check records `now`.
    pub open spec fn after_check(self, now: u128) -> Self {
        if self.allows(now) {
            RateLimiterView { last_emission: Some(now), ..self }
        } else {
            self
        }
    }

    /// The state after an emission is forced: the next check passes.
    pub open spec fn forced(self) -> Self {
        RateLimiterView { last_emission: None, ..self }
    }
}

/// Throttles how often progress is published: at most one emission per minimum
/// interval, unless one is forced.
pub struct RateLimiter {
    last_emission: Option<u128>,
    min_interval: u128,
}

impl View for RateLimiter {
    type V = RateLimiterView;

    closed spec fn view(&self) -> RateLimiterView {
        RateLimiterView { last_emission: self.last_emission, min_interval: self.min_interval }
    }
}

impl RateLimiter {
    /// A limiter with a minimum interval of `min_interval_nanos` nanoseconds, counting its
    /// creation (now) as an emission.
    pub fn new(min_interval_nanos: u128) -> (r: Self)
        ensures
            r@.min_interval == min_interval_nanos,
            r@.last_emission is Some,
    {
        Self::starting_at(min_interval_nanos, system_time_nanos())
    }

    /// A limiter with a minimum interval of `min_interval_nanos`, whose last emission was
    /// at `now` (nanoseconds since the Unix epoch).
    pub fn starting_at(min_interval_nanos: u128, now: u128) -> (r: Self)
        ensures
            r@ == (RateLimiterView { last_emission: Some(now), min_interval: min_interval_nanos }),
    {
        RateLimiter { last_emission: Some(now), min_interval: min_interval_nanos }
    }

    /// Whether an emission may happen now; a passing check records the time.
    pub fn should_emit(&mut self) -> (r: bool)
        ensures
            exists|now: u128|
                r == old(self)@.allows(now) && final(self)@ == #[trigger] old(self)@.after_check(now),
            old(self)@.last_emission is None ==> r,
    {
        let now = system_time_nanos();
        self.should_emit_at(now)
    }

    /// Whether an emission may happen at time `now`; a passing check records `now`.
    pub fn should_emit_at(&mut self, now: u128) -> (r: bool)
        ensures
            r == old(self)@.allows(now),
            final(self)@ == old(self)@.after_check(now),
    {
        let allowed = match self.last_emission {
            None => true,
            Some(last) => now.saturating_sub(last) >= self.min_interval,
        };
        if allowed {
            self.last_emission = Some(now);
        }
        allowed
    }

    /// Lets the next check pass whatever the time.
    pub fn force_emit(&mut self)
        ensures
            final(self)@ == old(self)@.forced(),
    {
        self.last_emission = None;
    }
}

/// Two checks less than the minimum interval apart cannot both let an emission through.
pub proof fn lemma_checks_within_interval(limiter: RateLimiterView, t1: u128, t2: u128)
    requires
        limiter.allows(t1),
        t1 <= t2 < t1 + limiter.min_interval,
    ensures
        !limiter.after_check(t1).allows(t2),
{
}

/// After a forced emission the next check lets an emission through, whatever the time.
pub proof fn lemma_forced_check_passes(limiter: RateLimiterView, now: u128)
    ensures
        limiter.forced().allows(now),
{
}

/// After any file update the snapshot's transferred bytes are the sum over the files
/// (saturating), and its completed and failed counts are the numbers of files with
/// those statuses: whatever sequence of updates led there.
pub proof fn lemma_update_keeps_totals(p: TransferProgressView, i: int, update: FileUpdate, now: u64)
    ensures
        ({
            let q = p.with_file_update(i, update).with_rates(now);
            &&& q.transferred_bytes == saturate(sum_transferred(q.files))
            &&& q.completed_files == saturate(count_status(q.files, FileStatus::Completed))
            &&& q.failed_files == saturate(count_status(q.files, FileStatus::Failed))
        }),
{
}

// ---------------------------------------------------------------------------
// Human-readable byte counts
// ---------------------------------------------------------------------------

/// `base` raised to `e`.
pub open spec fn power(base: nat, e: nat) -> nat
    decreases e,
{
    if e == 0 {
        1
    } else {
        base * power(base, (e - 1) as nat)
    }
}

/// Below this bound every integer is exactly representable as a 64-bit float.
pub const EXACT_FLOAT_BOUND: u128 = 0x20_0000_0000_0000;

/// How many low bits of `b` a 64-bit float cannot keep (its significand holds 53).
pub open spec fn dropped_bits(b: nat) -> nat
    decreases b,
{
    if b < EXACT_FLOAT_BOUND {
        0
    } else {
        1 + dropped_bits(b / 2)
    }
}

/// `num / den` rounded to the nearest integer, ties going to the even neighbour.
pub open spec fn round_half_even(num: nat, den: nat) -> nat
    recommends
        den > 0,
{
    let q = num / den;
    let r = num % den;
    if 2 * r > den || (2 * r == den && q % 2 == 1) {
        q + 1
    } else {
        q
    }
}

/// The value of `b` once converted to a 64-bit float (round to nearest, ties to even).
pub open spec fn float_value(b: nat) -> nat {
    let step = power(2, dropped_bits(b));
    round_half_even(b, step) * step
}

/// The unit a value is shown in: the largest power of 1024 not above it, capped at TB.
pub open spec fn unit_index(v: nat) -> nat {
    if v >= power(1024, 4) {
        4
    } else if v >= power(1024, 3) {
        3
    } else if v >= power(1024, 2) {
        2
    } else if v >= 1024 {
        1
    } else {
        0
    }
}

/// The name of a unit.
pub open spec fn unit_name(k: nat) -> Seq<char> {
    if k == 0 {
        seq!['B']
    } else if k == 1 {
        seq!['K', 'B']
    } else if k == 2 {
        seq!['M', 'B']
    } else if k == 3 {
        seq!['G', 'B']
    } else {
        seq!['T', 'B']
    }
}

/// The text of a byte count: "0 B" for zero; otherwise the count in its unit with two
/// decimals, rounded half to even from the float value of the count.
pub open spec fn bytes_text(bytes: u64) -> Seq<char> {
    if bytes == 0 {
        seq!['0', ' ', 'B']
    } else {
        let v = float_value(bytes as nat);
        let k = unit_index(v);
        let h = round_half_even(v * 100, power(1024, k));
        decimal(h / 100) + seq!['.', digit_char((h % 100) / 10), digit_char(h % 10)] + seq![' ']
            + unit_name(k)
    }
}

proof fn lemma_power_step(base: nat, e: nat)
    ensures
        power(base, e + 1) == base * power(base, e),
{
}

proof fn lemma_power_1024()
    ensures
        power(1024, 0) == 1,
        power(1024, 1) == 1024,
        power(1024, 2) == 0x10_0000,
        power(1024, 3) == 0x4000_0000,
        power(1024, 4) == 0x100_0000_0000,
{
    reveal_with_fuel(power, 5);
}

/// The float value of `bytes`, computed exactly.
fn float_value_of(bytes: u64) -> (v: u128)
    ensures
        v == float_value(bytes as nat),
        v <= bytes + 4096,
{
    let b = bytes as u128;
    let mut step: u128 = 1;
    let ghost mut shift: nat = 0;
    proof {
        reveal_with_fuel(power, 1);
    }
    while b / step >= EXACT_FLOAT_BOUND
        invariant
            b == bytes as u128,
            step == power(2, shift),
            1 <= step <= 4096,
            dropped_bits(b as nat) == shift + dropped_bits((b / step) as nat),
        decreases 8192 - step,
    {
        proof {
            assert(step < 2048) by (nonlinear_arith)
                requires
                    b / step >= EXACT_FLOAT_BOUND,
                    b < 0x1_0000_0000_0000_0000,
                    step >= 1,
            ;
            vstd::arithmetic::div_mod::lemma_div_denominator(b as int, step as int, 2);
            lemma_power_step(2, shift);
            shift = shift + 1;
        }
        step = step * 2;
    }
    proof {
        assert(dropped_bits((b / step) as nat) == 0);
    }
    let q = b / step;
    let r = b % step;
    let rounded = if 2 * r > step || (2 * r == step && q % 2 == 1) {
        q + 1
    } else {
        q
    };
    proof {
        assert(rounded * step <= b + step) by (nonlinear_arith)
            requires
                q == b / step,
                rounded <= q + 1,
                step >= 1,
        ;
    }
    rounded * step
}

/// Formats a byte count for people: "0 B", "1.00 KB", "1.50 KB", "1.00 MB", ...
/// Units step by 1024 up to TB; the value is shown with two decimals.
pub fn format_bytes(bytes: u64) -> (r: String)
    ensures
        r@ == bytes_text(bytes),
{
    if bytes == 0 {
        proof { reveal_strlit("0 B"); }
        return String::from_str("0 B");
    }
    let v = float_value_of(bytes);
    proof {
        lemma_power_1024();
    }
    let (k, divisor): (u128, u128) = if v >= 0x100_0000_0000 {
        (4, 0x100_0000_0000)
    } else if v >= 0x4000_0000 {
        (3, 0x4000_0000)
    } else if v >= 0x10_0000 {
        (2, 0x10_0000)
    } else if v >= 1024 {
        (1, 1024)
    } else {
        (0, 1)
    };
    assert(k == unit_index(v as nat) && divisor == power(1024, k as nat));
    let scaled = v * 100;
    let q = scaled / divisor;
    let rem = scaled % divisor;
    let h = if 2 * rem > divisor || (2 * rem == divisor && q % 2 == 1) {
        q + 1
    } else {
        q
    };
    let mut s = String::new();
    push_decimal(&mut s, h / 100);
    proof { reveal_strlit("."); }
    s.append(".");
    s.append(digit_text((h % 100) / 10));
    s.append(digit_text(h % 10));
    proof { reveal_strlit(" "); }
    s.append(" ");
    let unit = if k == 0 {
        proof { reveal_strlit("B"); }
        "B"
    } else if k == 1 {
        proof { reveal_strlit("KB"); }
        "KB"
    } else if k == 2 {
        proof { reveal_strlit("MB"); }
        "MB"
    } else if k == 3 {
        proof { reveal_strlit("GB"); }
        "GB"
    } else {
        proof { reveal_strlit("TB"); }
        "TB"
    };
    s.append(unit);
    assert(s@ =~= bytes_text(bytes));
    s
}

} // verus!
