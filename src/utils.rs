//! Path text helpers and small validations used when building a share.
//!
//! Paths are carried as strings. How a path splits into components is std's
//! `Path`; joining and the rules on top are this module's own.

use vstd::prelude::*;
use vstd::string::{StrSliceExecFns, StringExecFns};

use crate::error::GinsengError;
use crate::platform::{platform_download_dir, platform_home_dir};

verus! {

/// The final normal component of path `p`, as `std::path::Path::file_name` gives it.
pub uninterp spec fn path_file_name(p: Seq<char>) -> Option<Seq<char>>;

/// What remains of path `p` once the leading components of `base` are removed, as
/// `std::path::Path::strip_prefix` gives it; `None` when `base` is not a prefix.
pub uninterp spec fn path_strip_prefix(p: Seq<char>, base: Seq<char>) -> Option<Seq<char>>;

/// Whether two paths are equal as `std::path::Path` compares them (component-wise).
pub uninterp spec fn path_eq(a: Seq<char>, b: Seq<char>) -> bool;

/// Relies on `std::path::Path::file_name`: the last normal component of the path.
#[verifier::external_body]
fn file_name_of(p: &str) -> (r: Option<String>)
    ensures
        r is None <==> path_file_name(p@) is None,
        r matches Some(n) ==> path_file_name(p@) == Some(n@),
{
    std::path::Path::new(p).file_name().map(|n| n.to_string_lossy().into_owned())
}

/// Relies on `std::path::Path::strip_prefix`: the path relative to `base`.
#[verifier::external_body]
fn strip_path_prefix(p: &str, base: &str) -> (r: Option<String>)
    ensures
        r is None <==> path_strip_prefix(p@, base@) is None,
        r matches Some(rest) ==> path_strip_prefix(p@, base@) == Some(rest@),
{
    std::path::Path::new(p).strip_prefix(base).ok().map(|rest| rest.to_string_lossy().into_owned())
}

/// Relies on `PartialEq` for `std::path::Path`, an equivalence: equal text is an equal path.
#[verifier::external_body]
fn same_path(a: &str, b: &str) -> (r: bool)
    ensures
        r == path_eq(a@, b@),
        a@ == b@ ==> r,
{
    std::path::Path::new(a) == std::path::Path::new(b)
}

/// The file name of `p`, or `default` when it has none.
pub open spec fn file_name_or(p: Seq<char>, default: Seq<char>) -> Seq<char> {
    match path_file_name(p) {
        Some(n) => n,
        None => default,
    }
}

/// Extracts the file name from a path, "unknown" when it has none.
pub fn extract_file_name(file_path: &str) -> (r: String)
    ensures
        r@ == file_name_or(file_path@, "unknown"@),
{
    match file_name_of(file_path) {
        Some(name) => name,
        None => String::from_str("unknown"),
    }
}

/// Extracts the directory name from a path, "folder" when it has none.
pub fn extract_directory_name(dir_path: &str) -> (r: String)
    ensures
        r@ == file_name_or(dir_path@, "folder"@),
{
    match file_name_of(dir_path) {
        Some(name) => name,
        None => String::from_str("folder"),
    }
}

/// The message of a failed relative-path computation.
pub open spec fn relative_path_error(file_path: Seq<char>, base_path: Seq<char>) -> Seq<char> {
    "Failed to calculate relative path: "@ + file_path + " is not under "@ + base_path
}

/// The path of `file_path` relative to `base_path`: the file's own name when the two
/// are the same path, otherwise `file_path` with the components of `base_path` removed;
/// `None` when `base_path` is not a prefix of `file_path`.
pub open spec fn relative_path_of(file_path: Seq<char>, base_path: Seq<char>) -> Option<Seq<char>> {
    if path_eq(file_path, base_path) {
        Some(file_name_or(file_path, "unknown"@))
    } else {
        path_strip_prefix(file_path, base_path)
    }
}

/// Computes the path of `file_path` relative to `base_path`.
pub fn calculate_relative_path(file_path: &str, base_path: &str) -> (r: Result<String, GinsengError>)
    ensures
        file_path@ == base_path@ ==> (r matches Ok(p) && p@ == file_name_or(file_path@, "unknown"@)),
        match relative_path_of(file_path@, base_path@) {
            Some(rel) => r matches Ok(p) && p@ == rel,
            None => r matches Err(e) && e.is_filesystem(relative_path_error(file_path@, base_path@)),
        },
{
    if same_path(file_path, base_path) {
        Ok(extract_file_name(file_path))
    } else {
        match strip_path_prefix(file_path, base_path) {
            Some(rest) => Ok(rest),
            None => {
                let mut message = String::from_str("Failed to calculate relative path: ");
                message.append(file_path);
                message.append(" is not under ");
                message.append(base_path);
                Err(GinsengError::Filesystem(message))
            },
        }
    }
}

/// `base` joined with `rel` as `PathBuf::join` does on Unix: an absolute `rel` replaces
/// `base`; otherwise a separator goes between them unless `base` is empty or ends in one.
pub open spec fn joined_path(base: Seq<char>, rel: Seq<char>) -> Seq<char> {
    if rel.len() > 0 && rel[0] == '/' {
        rel
    } else if base.len() == 0 || base.last() == '/' {
        base + rel
    } else {
        base + seq!['/'] + rel
    }
}

/// Joins a relative path onto a directory path.
pub fn join_path(base: &str, rel: &str) -> (r: String)
    ensures
        r@ == joined_path(base@, rel@),
{
    let rel_len = rel.unicode_len();
    if rel_len > 0 && rel.get_char(0) == '/' {
        return String::from_str(rel);
    }
    let base_len = base.unicode_len();
    let mut joined = String::from_str(base);
    if base_len > 0 && base.get_char(base_len - 1) != '/' {
        proof { reveal_strlit("/"); }
        joined.append("/");
    }
    joined.append(rel);
    proof {
        if !(base@.len() == 0 || base@.last() == '/') {
            assert(joined@ =~= base@ + seq!['/'] + rel@);
        }
    }
    joined
}

/// Sum of the sizes.
pub open spec fn total_of(sizes: Seq<u64>) -> nat
    decreases sizes.len(),
{
    if sizes.len() == 0 {
        0
    } else {
        total_of(sizes.drop_last()) + sizes.last() as nat
    }
}

/// Adds up a collection of file sizes.
pub fn calculate_total_size(sizes: &[u64]) -> (r: u64)
    requires
        total_of(sizes@) <= u64::MAX,
    ensures
        r == total_of(sizes@),
{
    let mut total: u64 = 0;
    let mut i: usize = 0;
    while i < sizes.len()
        invariant
            0 <= i <= sizes@.len(),
            total == total_of(sizes@.take(i as int)),
            total_of(sizes@) <= u64::MAX,
        decreases sizes@.len() - i,
    {
        proof {
            assert(sizes@.take(i as int + 1).drop_last() =~= sizes@.take(i as int));
            lemma_total_of_prefix(sizes@, i as int + 1);
        }
        total = total + sizes[i];
        i = i + 1;
    }
    assert(sizes@.take(i as int) =~= sizes@);
    total
}

/// A prefix adds up to no more than the whole.
pub proof fn lemma_total_of_prefix(sizes: Seq<u64>, n: int)
    requires
        0 <= n <= sizes.len(),
    ensures
        total_of(sizes.take(n)) <= total_of(sizes),
    decreases sizes.len(),
{
    if n < sizes.len() {
        assert(sizes.drop_last().take(n) =~= sizes.take(n));
        lemma_total_of_prefix(sizes.drop_last(), n);
    } else {
        assert(sizes.take(n) =~= sizes);
    }
}

/// Checks that a selection of paths holds at least one path.
pub fn validate_paths_not_empty<T>(paths: &[T]) -> (r: Result<(), GinsengError>)
    ensures
        r is Ok <==> paths@.len() > 0,
        r is Err ==> r->Err_0.is_input_validation("no files provided"@),
{
    if paths.len() == 0 {
        return Err(GinsengError::InputValidation(String::from_str("no files provided")));
    }
    Ok(())
}

/// The text of an optional string.
pub open spec fn optional_text(s: Option<String>) -> Option<Seq<char>> {
    match s {
        Some(t) => Some(t@),
        None => None,
    }
}

/// The folder made under the working directory when no download directory is known.
pub open spec fn fallback_downloads_name() -> Seq<char> {
    "ginseng_downloads"@
}

/// The first of: the system's download directory, `Downloads` in the home directory,
/// a fixed folder under the current directory.
pub open spec fn downloads_choice(
    system: Option<Seq<char>>,
    home: Option<Seq<char>>,
    current: Option<Seq<char>>,
) -> Option<Seq<char>> {
    match system {
        Some(d) => Some(d),
        None => match home {
            Some(h) => Some(joined_path(h, "Downloads"@)),
            None => match current {
                Some(c) => Some(joined_path(c, fallback_downloads_name())),
                None => None,
            },
        },
    }
}

/// Picks the downloads directory among the candidates, in order of preference.
pub fn resolve_downloads_directory(
    system: Option<String>,
    home: Option<String>,
    current: Option<String>,
) -> (r: Result<String, GinsengError>)
    ensures
        match downloads_choice(optional_text(system), optional_text(home), optional_text(current)) {
            Some(d) => r matches Ok(p) && p@ == d,
            None => r matches Err(e) && e.is_filesystem("Could not determine downloads directory"@),
        },
{
    match system {
        Some(d) => Ok(d),
        None => match home {
            Some(h) => Ok(join_path(h.as_str(), "Downloads")),
            None => match current {
                Some(c) => Ok(join_path(c.as_str(), "ginseng_downloads")),
                None => Err(
                    GinsengError::Filesystem(String::from_str("Could not determine downloads directory")),
                ),
            },
        },
    }
}

/// The user's downloads directory: the platform's download directory, else
/// `Downloads` in the home directory, else a fixed folder under `current_dir` (the
/// process's working directory, which the caller reads).
pub fn get_downloads_directory(current_dir: Option<String>) -> (r: Result<String, GinsengError>)
    ensures
        current_dir is Some ==> r is Ok,
        r matches Err(e) ==> e.is_filesystem("Could not determine downloads directory"@),
{
    resolve_downloads_directory(platform_download_dir(), platform_home_dir(), current_dir)
}

} // verus!
