//! From a user's selection to the list of files to transfer.
//!
//! The caller scans the file system (existence, file or directory, the regular files
//! under a directory, sizes) and hands the results over as [`ScannedPath`] values; this
//! module validates the selection, decides the share type and lists the sources.

use vstd::prelude::*;
use vstd::string::StringExecFns;

use crate::error::GinsengError;
use crate::manifest::{lemma_all_uploads_listed, successes, FileInfo, ShareMetadata, ShareType};
use crate::utils::{extract_directory_name, file_name_or, relative_path_of, validate_paths_not_empty};

verus! {

/// One entry met while walking a shared directory.
#[derive(Debug)]
pub struct ScannedEntry {
    pub path: String,
    /// The entry is a regular file (symbolic links followed).
    pub is_file: bool,
    /// Its size in bytes, when it could be read.
    pub size: Option<u64>,
}

/// What a selected path turned out to be.
#[derive(Debug)]
pub enum PathKind {
    /// Nothing exists there.
    Missing,
    /// A regular file, with its size when it could be read.
    File { size: Option<u64> },
    /// A directory, with every entry found under it.
    Directory { entries: Vec<ScannedEntry> },
    /// Something else (a socket, a device, ...).
    Other,
}

/// A path of the user's selection, after canonicalization, with what was found there.
#[derive(Debug)]
pub struct ScannedPath {
    pub path: String,
    pub kind: PathKind,
}

/// A file to share and the root its relative path is computed from.
#[derive(Debug)]
pub struct SourceFile {
    pub absolute_path: String,
    pub share_root: String,
    pub size: Option<u64>,
}

/// A validated selection: its share type and the files it holds.
#[derive(Debug)]
pub struct SharePlan {
    pub share_type: ShareType,
    pub sources: Vec<SourceFile>,
}

/// The path holds nothing.
pub open spec fn is_missing(p: ScannedPath) -> bool {
    p.kind is Missing
}

/// The path is not a regular file.
pub open spec fn is_not_file(p: ScannedPath) -> bool {
    !(p.kind is File)
}

/// `i` is the first position whose path satisfies `pred`.
pub open spec fn first_where(paths: Seq<ScannedPath>, i: int, pred: spec_fn(ScannedPath) -> bool) -> bool {
    &&& 0 <= i < paths.len()
    &&& pred(paths[i])
    &&& forall|j: int| 0 <= j < i ==> !pred(paths[j])
}

/// Some path satisfies `pred`.
pub open spec fn any_where(paths: Seq<ScannedPath>, pred: spec_fn(ScannedPath) -> bool) -> bool {
    exists|i: int| 0 <= i < paths.len() && pred(paths[i])
}

/// The path at the first position satisfying `pred`.
pub open spec fn first_path_where(paths: Seq<ScannedPath>, pred: spec_fn(ScannedPath) -> bool) -> Seq<char> {
    paths[choose|i: int| first_where(paths, i, pred)].path@
}

proof fn lemma_first_where_unique(
    paths: Seq<ScannedPath>,
    pred: spec_fn(ScannedPath) -> bool,
    i: int,
    k: int,
)
    requires
        first_where(paths, i, pred),
        first_where(paths, k, pred),
    ensures
        i == k,
{
    if i < k {
        assert(!pred(paths[i]));
    } else if k < i {
        assert(!pred(paths[k]));
    }
}

proof fn lemma_first_path_at(paths: Seq<ScannedPath>, pred: spec_fn(ScannedPath) -> bool, i: int)
    requires
        first_where(paths, i, pred),
    ensures
        first_path_where(paths, pred) == paths[i].path@,
{
    let k = choose|k: int| first_where(paths, k, pred);
    lemma_first_where_unique(paths, pred, i, k);
}

/// Message for a path that does not exist.
pub open spec fn not_found_message(p: Seq<char>) -> Seq<char> {
    "Path does not exist: "@ + p
}

/// Message for a path that is not a file while only files were asked for.
pub open spec fn not_a_file_message(p: Seq<char>) -> Seq<char> {
    "Path is not a file (use without --files-only to share directories): "@ + p
}

/// Message for a selection of several paths that is not made of files only.
pub open spec fn mixed_selection_message(p: Seq<char>) -> Seq<char> {
    "Path is not a file (a selection of several paths may hold files only): "@ + p
}

/// Message for a single path that is neither a file nor a directory.
pub open spec fn unsupported_path_message(p: Seq<char>) -> Seq<char> {
    "Path is neither a file nor a directory: "@ + p
}

/// The position of the first path satisfying `pred`, if any.
fn position_where(paths: &[ScannedPath], want_missing: bool) -> (r: Option<usize>)
    ensures
        ({
            let pred = if want_missing {
                |p: ScannedPath| is_missing(p)
            } else {
                |p: ScannedPath| is_not_file(p)
            };
            &&& r matches Some(i) ==> first_where(paths@, i as int, pred)
            &&& r is None ==> !any_where(paths@, pred)
        }),
{
    let ghost pred = if want_missing {
        |p: ScannedPath| is_missing(p)
    } else {
        |p: ScannedPath| is_not_file(p)
    };
    let mut i: usize = 0;
    while i < paths.len()
        invariant
            0 <= i <= paths@.len(),
            pred == (if want_missing {
                |p: ScannedPath| is_missing(p)
            } else {
                |p: ScannedPath| is_not_file(p)
            }),
            forall|j: int| 0 <= j < i ==> !pred(paths@[j]),
        decreases paths@.len() - i,
    {
        let hit = match &paths[i].kind {
            PathKind::Missing => true,
            PathKind::File { .. } => false,
            _ => !want_missing,
        };
        if hit {
            return Some(i);
        }
        i = i + 1;
    }
    None
}

/// Checks that every path exists.
pub fn validate_paths_exist(paths: &[ScannedPath]) -> (r: Result<(), GinsengError>)
    ensures
        r is Ok <==> !any_where(paths@, |p: ScannedPath| is_missing(p)),
        r matches Err(e) ==> e.is_input_validation(
            not_found_message(first_path_where(paths@, |p: ScannedPath| is_missing(p))),
        ),
{
    match position_where(paths, true) {
        Some(i) => {
            proof {
                lemma_first_path_at(paths@, |p: ScannedPath| is_missing(p), i as int);
            }
            let mut message = String::from_str("Path does not exist: ");
            message.append(paths[i].path.as_str());
            Err(GinsengError::InputValidation(message))
        },
        None => Ok(()),
    }
}

/// Checks that every path is a regular file.
pub fn validate_paths_are_files(paths: &[ScannedPath]) -> (r: Result<(), GinsengError>)
    ensures
        r is Ok <==> !any_where(paths@, |p: ScannedPath| is_not_file(p)),
        r matches Err(e) ==> e.is_input_validation(
            not_a_file_message(first_path_where(paths@, |p: ScannedPath| is_not_file(p))),
        ),
{
    match position_where(paths, false) {
        Some(i) => {
            proof {
                lemma_first_path_at(paths@, |p: ScannedPath| is_not_file(p), i as int);
            }
            let mut message = String::from_str(
                "Path is not a file (use without --files-only to share directories): ",
            );
            message.append(paths[i].path.as_str());
            Err(GinsengError::InputValidation(message))
        },
        None => Ok(()),
    }
}

/// The share type of a selection: one file, one directory (named after it), or several files.
pub open spec fn share_type_of(paths: Seq<ScannedPath>, t: ShareType) -> bool {
    if paths.len() == 1 {
        if paths[0].kind is File {
            t is SingleFile
        } else {
            t matches ShareType::Directory { name } && name@ == file_name_or(paths[0].path@, "folder"@)
        }
    } else {
        t is MultipleFiles
    }
}

/// Decides the share type of a selection.
pub fn determine_share_type(paths: &[ScannedPath]) -> (r: ShareType)
    ensures
        share_type_of(paths@, r),
{
    if paths.len() == 1 {
        match &paths[0].kind {
            PathKind::File { .. } => ShareType::SingleFile,
            _ => ShareType::Directory { name: extract_directory_name(paths[0].path.as_str()) },
        }
    } else {
        ShareType::MultipleFiles
    }
}

/// The regular files among a directory's entries, each rooted at `root`.
pub open spec fn entry_sources(entries: Seq<ScannedEntry>, root: String) -> Seq<SourceFile>
    decreases entries.len(),
{
    if entries.len() == 0 {
        Seq::empty()
    } else {
        let rest = entry_sources(entries.drop_last(), root);
        let e = entries.last();
        if e.is_file {
            rest.push(SourceFile { absolute_path: e.path, share_root: root, size: e.size })
        } else {
            rest
        }
    }
}

/// The files a selected path contributes: itself, the regular files under it, or none.
pub open spec fn path_sources(p: ScannedPath) -> Seq<SourceFile> {
    match p.kind {
        PathKind::File { size } => seq![SourceFile { absolute_path: p.path, share_root: p.path, size }],
        PathKind::Directory { entries } => entry_sources(entries@, p.path),
        _ => Seq::empty(),
    }
}

/// The files of a whole selection, path after path.
pub open spec fn all_sources(paths: Seq<ScannedPath>) -> Seq<SourceFile>
    decreases paths.len(),
{
    if paths.len() == 0 {
        Seq::empty()
    } else {
        all_sources(paths.drop_last()) + path_sources(paths.last())
    }
}

/// Lists the files of a selection, each paired with the root of its share.
pub fn collect_file_paths(paths: &[ScannedPath]) -> (r: Vec<SourceFile>)
    ensures
        r@ == all_sources(paths@),
{
    let mut out: Vec<SourceFile> = Vec::new();
    let mut i: usize = 0;
    while i < paths.len()
        invariant
            0 <= i <= paths@.len(),
            out@ == all_sources(paths@.take(i as int)),
        decreases paths@.len() - i,
    {
        let p = &paths[i];
        let ghost before = out@;
        match &p.kind {
            PathKind::File { size } => {
                out.push(SourceFile { absolute_path: p.path.clone(), share_root: p.path.clone(), size: *size });
                assert(out@ =~= before + path_sources(*p));
            },
            PathKind::Directory { entries } => {
                let mut j: usize = 0;
                while j < entries.len()
                    invariant
                        0 <= j <= entries@.len(),
                        out@ == before + entry_sources(entries@.take(j as int), p.path),
                    decreases entries@.len() - j,
                {
                    let e = &entries[j];
                    proof {
                        assert(entries@.take(j as int + 1).drop_last() =~= entries@.take(j as int));
                    }
                    if e.is_file {
                        out.push(SourceFile { absolute_path: e.path.clone(), share_root: p.path.clone(), size: e.size });
                    }
                    assert(out@ =~= before + entry_sources(entries@.take(j as int + 1), p.path));
                    j = j + 1;
                }
                assert(entries@.take(j as int) =~= entries@);
            },
            _ => {
                assert(out@ =~= before + path_sources(*p));
            },
        }
        proof {
            assert(paths@.take(i as int + 1).drop_last() =~= paths@.take(i as int));
        }
        i = i + 1;
    }
    assert(paths@.take(i as int) =~= paths@);
    out
}

/// Why a selection cannot be shared, if it cannot: it is empty; a path is missing;
/// only files were asked for and a path is not one; several paths were selected and
/// one is not a file; the single path is neither a file nor a directory.
pub open spec fn plan_failure(paths: Seq<ScannedPath>, files_only: bool) -> Option<Seq<char>> {
    if paths.len() == 0 {
        Some("no files provided"@)
    } else if any_where(paths, |p: ScannedPath| is_missing(p)) {
        Some(not_found_message(first_path_where(paths, |p: ScannedPath| is_missing(p))))
    } else if files_only && any_where(paths, |p: ScannedPath| is_not_file(p)) {
        Some(not_a_file_message(first_path_where(paths, |p: ScannedPath| is_not_file(p))))
    } else if paths.len() > 1 && any_where(paths, |p: ScannedPath| is_not_file(p)) {
        Some(mixed_selection_message(first_path_where(paths, |p: ScannedPath| is_not_file(p))))
    } else if paths.len() == 1 && paths[0].kind is Other {
        Some(unsupported_path_message(paths[0].path@))
    } else {
        None
    }
}

/// Validates a selection and lists what it shares. With `files_only`, every path must
/// be a regular file; a selection of several paths must be made of files in any case.
pub fn plan_share(paths: &[ScannedPath], files_only: bool) -> (r: Result<SharePlan, GinsengError>)
    ensures
        match plan_failure(paths@, files_only) {
            Some(message) => r matches Err(e) && e.is_input_validation(message),
            None => r matches Ok(plan) && share_type_of(paths@, plan.share_type)
                && plan.sources@ == all_sources(paths@),
        },
{
    validate_paths_not_empty(paths)?;
    validate_paths_exist(paths)?;
    if files_only {
        validate_paths_are_files(paths)?;
    }
    if paths.len() > 1 {
        if let Some(i) = position_where(paths, false) {
            proof {
                lemma_first_path_at(paths@, |p: ScannedPath| is_not_file(p), i as int);
            }
            let mut message = String::from_str(
                "Path is not a file (a selection of several paths may hold files only): ",
            );
            message.append(paths[i].path.as_str());
            return Err(GinsengError::InputValidation(message));
        }
    }
    if paths.len() == 1 {
        if let PathKind::Other = &paths[0].kind {
            let mut message = String::from_str("Path is neither a file nor a directory: ");
            message.append(paths[0].path.as_str());
            return Err(GinsengError::InputValidation(message));
        }
    }
    Ok(SharePlan { share_type: determine_share_type(paths), sources: collect_file_paths(paths) })
}

/// Number of regular files among the entries.
pub open spec fn count_files(entries: Seq<ScannedEntry>) -> nat
    decreases entries.len(),
{
    if entries.len() == 0 {
        0
    } else {
        count_files(entries.drop_last()) + if entries.last().is_file {
            1nat
        } else {
            0
        }
    }
}

proof fn lemma_entry_sources(entries: Seq<ScannedEntry>, root: String)
    ensures
        entry_sources(entries, root).len() == count_files(entries),
        forall|k: int|
            0 <= k < entry_sources(entries, root).len() ==> (#[trigger] entry_sources(entries, root)[k]).share_root
                == root,
    decreases entries.len(),
{
    if entries.len() > 0 {
        lemma_entry_sources(entries.drop_last(), root);
    }
}

proof fn lemma_sources_of_one(paths: Seq<ScannedPath>)
    requires
        paths.len() == 1,
    ensures
        all_sources(paths) == path_sources(paths[0]),
{
    assert(paths.drop_last() =~= Seq::<ScannedPath>::empty());
    assert(all_sources(paths.drop_last()) == Seq::<SourceFile>::empty());
    assert(all_sources(paths) =~= path_sources(paths[0]));
}

/// A selection of one regular file is a single-file share of exactly one file.
pub proof fn lemma_single_file_share(paths: Seq<ScannedPath>, files_only: bool)
    requires
        paths.len() == 1,
        paths[0].kind is File,
    ensures
        plan_failure(paths, files_only) is None,
        forall|t: ShareType| share_type_of(paths, t) ==> t is SingleFile,
        all_sources(paths).len() == 1,
        all_sources(paths)[0].absolute_path == paths[0].path,
{
    assert(!is_missing(paths[0]));
    assert(!is_not_file(paths[0]));
    lemma_sources_of_one(paths);
}

/// A selection of one directory shares one file per regular file found under it, each
/// rooted at that directory, and the share is named after the directory.
pub proof fn lemma_directory_share(paths: Seq<ScannedPath>)
    requires
        paths.len() == 1,
        paths[0].kind is Directory,
    ensures
        plan_failure(paths, false) is None,
        forall|t: ShareType|
            share_type_of(paths, t) ==> (t matches ShareType::Directory { name } && name@ == file_name_or(
                paths[0].path@,
                "folder"@,
            )),
        all_sources(paths).len() == count_files(paths[0].kind->Directory_entries@),
        forall|k: int|
            0 <= k < all_sources(paths).len() ==> (#[trigger] all_sources(paths)[k]).share_root
                == paths[0].path,
{
    assert(!is_missing(paths[0]));
    lemma_sources_of_one(paths);
    lemma_entry_sources(paths[0].kind->Directory_entries@, paths[0].path);
}

/// A share of one regular file whose upload succeeded is a single-file share whose
/// manifest lists exactly one file, placed under the file's own name (the upload of a
/// file that is its own share root is named after the file).
pub proof fn lemma_single_file_manifest(
    paths: Seq<ScannedPath>,
    share_type: ShareType,
    results: Seq<Result<FileInfo, GinsengError>>,
    m: ShareMetadata,
)
    requires
        paths.len() == 1,
        paths[0].kind is File,
        share_type_of(paths, share_type),
        results.len() == all_sources(paths).len(),
        forall|k: int|
            0 <= k < results.len() ==> (#[trigger] results[k] matches Ok(f) && f.relative_path@ == file_name_or(
                all_sources(paths)[k].absolute_path@,
                "unknown"@,
            )),
        m.files@ == successes(results),
        m.share_type == share_type,
    ensures
        m.share_type is SingleFile,
        m.files@.len() == 1,
        m.files@[0].relative_path@ == file_name_or(paths[0].path@, "unknown"@),
{
    lemma_single_file_share(paths, false);
    lemma_all_uploads_listed(results);
    assert(results[0] == Ok::<FileInfo, GinsengError>(successes(results)[0]));
}

/// A share of one directory holding N regular files, all uploaded, is named after the
/// directory and lists N files, each placed at its path relative to that directory.
pub proof fn lemma_directory_manifest(
    paths: Seq<ScannedPath>,
    share_type: ShareType,
    results: Seq<Result<FileInfo, GinsengError>>,
    m: ShareMetadata,
)
    requires
        paths.len() == 1,
        paths[0].kind is Directory,
        share_type_of(paths, share_type),
        results.len() == all_sources(paths).len(),
        forall|k: int|
            0 <= k < results.len() ==> (#[trigger] results[k] matches Ok(f) && relative_path_of(
                all_sources(paths)[k].absolute_path@,
                all_sources(paths)[k].share_root@,
            ) == Some(f.relative_path@)),
        m.files@ == successes(results),
        m.share_type == share_type,
    ensures
        m.share_type matches ShareType::Directory { name } && name@ == file_name_or(paths[0].path@, "folder"@),
        m.files@.len() == count_files(paths[0].kind->Directory_entries@),
        forall|k: int|
            0 <= k < m.files@.len() ==> relative_path_of(
                all_sources(paths)[k].absolute_path@,
                paths[0].path@,
            ) == Some((#[trigger] m.files@[k]).relative_path@),
{
    lemma_directory_share(paths);
    lemma_all_uploads_listed(results);
    assert forall|k: int| 0 <= k < m.files@.len() implies relative_path_of(
        all_sources(paths)[k].absolute_path@,
        paths[0].path@,
    ) == Some((#[trigger] m.files@[k]).relative_path@) by {
        assert(results[k] == Ok::<FileInfo, GinsengError>(successes(results)[k]));
        assert(all_sources(paths)[k].share_root == paths[0].path);
    }
}

} // verus!
