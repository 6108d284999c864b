//! Registration of a transfer's files with its tracker, one task per file.
//!
//! Every file gets its progress entry before any transfer starts, so the aggregate
//! is meaningful from the first event; each task carries the identifier of its entry.

use vstd::prelude::*;
use vstd::string::StringExecFns;

use crate::error::GinsengError;
use crate::manifest::{FileInfo, ShareMetadata};
use crate::plan::SourceFile;
use crate::progress::{saturate, FileProgress, FileStatus, ProgressTracker, TransferProgressView};
use crate::utils::{
    calculate_relative_path, extract_file_name, file_name_or, relative_path_error, relative_path_of,
};

verus! {

/// A file to upload, with the root of its share and its progress entry.
#[derive(Debug)]
pub struct UploadFileTask {
    pub absolute_path: String,
    pub share_root: String,
    pub file_id: String,
}

/// A file to download, as the manifest declares it, with its progress entry.
#[derive(Debug)]
pub struct DownloadFileTask {
    pub file_info: FileInfo,
    pub file_id: String,
}

/// Sum of the sizes of the files.
pub open spec fn sum_total_bytes(files: Seq<FileProgress>) -> nat
    decreases files.len(),
{
    if files.len() == 0 {
        0
    } else {
        sum_total_bytes(files.drop_last()) + files.last().total_bytes as nat
    }
}

/// The progress after registering `added`, one file after the other.
pub open spec fn with_registered(v: TransferProgressView, added: Seq<FileProgress>) -> TransferProgressView {
    TransferProgressView {
        total_files: saturate((v.total_files + added.len()) as nat),
        total_bytes: saturate((v.total_bytes + sum_total_bytes(added)) as nat),
        files: v.files + added,
        ..v
    }
}

/// Message for a file whose size could not be read.
pub open spec fn size_error_message(p: Seq<char>) -> Seq<char> {
    "Failed to get file size for '"@ + p + "'"@
}

/// Why a source cannot be registered: no relative path, or no known size.
pub open spec fn source_failure(s: SourceFile) -> Option<Seq<char>> {
    match relative_path_of(s.absolute_path@, s.share_root@) {
        None => Some(relative_path_error(s.absolute_path@, s.share_root@)),
        Some(_) => match s.size {
            None => Some(size_error_message(s.absolute_path@)),
            Some(_) => None,
        },
    }
}

/// `i` is the first source that cannot be registered.
pub open spec fn first_failing_source(sources: Seq<SourceFile>, i: int) -> bool {
    &&& 0 <= i < sources.len()
    &&& source_failure(sources[i]) is Some
    &&& forall|j: int| 0 <= j < i ==> source_failure(sources[j]) is None
}

/// `fp` is the fresh progress entry of source `s`, and `task` the upload task for it.
pub open spec fn registered_upload(fp: FileProgress, task: UploadFileTask, s: SourceFile) -> bool {
    &&& fp.file_id == task.file_id
    &&& fp.name@ == file_name_or(s.absolute_path@, "unknown"@)
    &&& relative_path_of(s.absolute_path@, s.share_root@) == Some(fp.relative_path@)
    &&& s.absolute_path@ == s.share_root@ ==> fp.relative_path@ == file_name_or(s.absolute_path@, "unknown"@)
    &&& s.size == Some(fp.total_bytes)
    &&& fp.transferred_bytes == 0
    &&& fp.status == FileStatus::Pending
    &&& fp.transfer_rate is None
    &&& fp.error is None
    &&& task.absolute_path == s.absolute_path
    &&& task.share_root == s.share_root
}

/// `fp` is the fresh progress entry of the declared file `info`, and `task` the
/// download task for it.
pub open spec fn registered_download(fp: FileProgress, task: DownloadFileTask, info: FileInfo) -> bool {
    &&& fp == FileProgress::pending(task.file_id, info.name, info.relative_path, info.size)
    &&& task.file_info == info
}

proof fn lemma_register_step(v: TransferProgressView, added: Seq<FileProgress>, f: FileProgress)
    ensures
        (TransferProgressView {
            total_files: saturate((with_registered(v, added).total_files + 1) as nat),
            total_bytes: saturate((with_registered(v, added).total_bytes + f.total_bytes) as nat),
            files: with_registered(v, added).files.push(f),
            ..with_registered(v, added)
        }) == with_registered(v, added.push(f)),
{
    assert(added.push(f).drop_last() =~= added);
    assert((v.files + added).push(f) =~= v.files + added.push(f));
}

/// One file ready to register.
struct PreparedFile {
    name: String,
    relative_path: String,
    size: u64,
}

/// Registers one progress entry per source and returns one upload task per source,
/// in order. A source without a relative path or a known size fails the whole call
/// before anything is registered.
pub fn initialize_upload_tasks(sources: &[SourceFile], tracker: &mut ProgressTracker) -> (r: Result<
    Vec<UploadFileTask>,
    GinsengError,
>)
    ensures
        r is Ok <==> forall|i: int| 0 <= i < sources@.len() ==> source_failure(#[trigger] sources@[i]) is None,
        forall|i: int|
            first_failing_source(sources@, i) ==> (r matches Err(e) && e.is_filesystem(
                source_failure(sources@[i])->0,
            )),
        r is Err ==> final(tracker)@ == old(tracker)@,
        r matches Ok(tasks) ==> {
            let n = old(tracker)@.files.len();
            &&& tasks@.len() == sources@.len()
            &&& final(tracker)@.files.len() == n + sources@.len()
            &&& final(tracker)@ == with_registered(
                old(tracker)@,
                final(tracker)@.files.subrange(n as int, final(tracker)@.files.len() as int),
            )
            &&& forall|i: int|
                0 <= i < tasks@.len() ==> registered_upload(
                    #[trigger] final(tracker)@.files[n + i],
                    tasks@[i],
                    sources@[i],
                )
        },
{
    let mut prepared: Vec<PreparedFile> = Vec::new();
    let mut i: usize = 0;
    while i < sources.len()
        invariant
            0 <= i <= sources@.len(),
            prepared@.len() == i,
            forall|j: int| 0 <= j < i ==> source_failure(#[trigger] sources@[j]) is None,
            forall|j: int|
                0 <= j < i ==> {
                    let s = #[trigger] sources@[j];
                    &&& prepared@[j].name@ == file_name_or(s.absolute_path@, "unknown"@)
                    &&& relative_path_of(s.absolute_path@, s.share_root@) == Some(prepared@[j].relative_path@)
                    &&& s.absolute_path@ == s.share_root@ ==> prepared@[j].relative_path@ == file_name_or(
                        s.absolute_path@,
                        "unknown"@,
                    )
                    &&& s.size == Some(prepared@[j].size)
                },
        decreases sources@.len() - i,
    {
        let s = &sources[i];
        let name = extract_file_name(s.absolute_path.as_str());
        let relative_path = match calculate_relative_path(s.absolute_path.as_str(), s.share_root.as_str()) {
            Ok(p) => p,
            Err(e) => {
                proof {
                    assert(first_failing_source(sources@, i as int));
                    assert forall|k: int| first_failing_source(sources@, k) implies k == i by {
                        if k < i {
                        } else if k > i {
                            assert(source_failure(sources@[i as int]) is Some);
                        }
                    }
                }
                return Err(e);
            },
        };
        let size = match s.size {
            Some(n) => n,
            None => {
                proof {
                    assert(first_failing_source(sources@, i as int));
                    assert forall|k: int| first_failing_source(sources@, k) implies k == i by {
                        if k < i {
                        } else if k > i {
                            assert(source_failure(sources@[i as int]) is Some);
                        }
                    }
                }
                let mut message = String::from_str("Failed to get file size for '");
                message.append(s.absolute_path.as_str());
                message.append("'");
                return Err(GinsengError::Filesystem(message));
            },
        };
        prepared.push(PreparedFile { name, relative_path, size });
        i = i + 1;
    }
    let ghost start = tracker@;
    let ghost n = start.files.len();
    let mut tasks: Vec<UploadFileTask> = Vec::new();
    let mut k: usize = 0;
    while k < prepared.len()
        invariant
            prepared@.len() == sources@.len(),
            0 <= k <= prepared@.len(),
            start == old(tracker)@,
            n == start.files.len(),
            tasks@.len() == k,
            tracker@.files.len() == n + k,
            tracker@ == with_registered(start, tracker@.files.subrange(n as int, (n + k) as int)),
            forall|j: int|
                0 <= j < sources@.len() ==> {
                    let s = #[trigger] sources@[j];
                    &&& prepared@[j].name@ == file_name_or(s.absolute_path@, "unknown"@)
                    &&& relative_path_of(s.absolute_path@, s.share_root@) == Some(prepared@[j].relative_path@)
                    &&& s.absolute_path@ == s.share_root@ ==> prepared@[j].relative_path@ == file_name_or(
                        s.absolute_path@,
                        "unknown"@,
                    )
                    &&& s.size == Some(prepared@[j].size)
                },
            forall|j: int|
                0 <= j < k ==> registered_upload(#[trigger] tracker@.files[n + j], tasks@[j], sources@[j]),
        decreases prepared@.len() - k,
    {
        let p = &prepared[k];
        let s = &sources[k];
        let fp = FileProgress::new(p.name.clone(), p.relative_path.clone(), p.size);
        let file_id = fp.file_id.clone();
        let ghost added = tracker@.files.subrange(n as int, (n + k) as int);
        proof {
            lemma_register_step(start, added, fp);
        }
        tracker.add_file(fp);
        tasks.push(
            UploadFileTask {
                absolute_path: s.absolute_path.clone(),
                share_root: s.share_root.clone(),
                file_id,
            },
        );
        proof {
            assert(tracker@.files.subrange(n as int, (n + k + 1) as int) =~= added.push(fp));
            assert(tracker@.files[n + k as int] == fp);
        }
        k = k + 1;
    }
    Ok(tasks)
}

/// Registers one progress entry per file the manifest declares and returns one
/// download task per file, in order.
pub fn initialize_download_tasks(metadata: &ShareMetadata, tracker: &mut ProgressTracker) -> (r: Vec<
    DownloadFileTask,
>)
    ensures
        ({
            let n = old(tracker)@.files.len();
            &&& r@.len() == metadata.files@.len()
            &&& final(tracker)@.files.len() == n + metadata.files@.len()
            &&& final(tracker)@ == with_registered(
                old(tracker)@,
                final(tracker)@.files.subrange(n as int, final(tracker)@.files.len() as int),
            )
            &&& forall|i: int|
                0 <= i < r@.len() ==> registered_download(
                    #[trigger] final(tracker)@.files[n + i],
                    r@[i],
                    metadata.files@[i],
                )
        }),
{
    let ghost start = tracker@;
    let ghost n = start.files.len();
    let mut tasks: Vec<DownloadFileTask> = Vec::new();
    let mut k: usize = 0;
    while k < metadata.files.len()
        invariant
            0 <= k <= metadata.files@.len(),
            start == old(tracker)@,
            n == start.files.len(),
            tasks@.len() == k,
            tracker@.files.len() == n + k,
            tracker@ == with_registered(start, tracker@.files.subrange(n as int, (n + k) as int)),
            forall|j: int|
                0 <= j < k ==> registered_download(
                    #[trigger] tracker@.files[n + j],
                    tasks@[j],
                    metadata.files@[j],
                ),
        decreases metadata.files@.len() - k,
    {
        let info = &metadata.files[k];
        let fp = FileProgress::new(info.name.clone(), info.relative_path.clone(), info.size);
        let file_id = fp.file_id.clone();
        let ghost added = tracker@.files.subrange(n as int, (n + k) as int);
        proof {
            lemma_register_step(start, added, fp);
        }
        tracker.add_file(fp);
        tasks.push(DownloadFileTask { file_info: info.clone(), file_id });
        proof {
            assert(tracker@.files.subrange(n as int, (n + k + 1) as int) =~= added.push(fp));
            assert(tracker@.files[n + k as int] == fp);
        }
        k = k + 1;
    }
    tasks
}

} // verus!
