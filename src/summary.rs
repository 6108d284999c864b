//! The text shown to a person about a share or a finished download.
//!
//! Each function returns the lines to print, in order; printing is the caller's.

use vstd::prelude::*;
use vstd::string::StringExecFns;

use crate::manifest::{FileInfo, ShareMetadata, ShareType};
use crate::plan::{count_files, PathKind, ScannedEntry, ScannedPath};
use crate::progress::{bytes_text, format_bytes, saturate};
use crate::text::{decimal, push_decimal};

verus! {

/// Files listed by name before the rest is only counted.
pub const LISTING_LIMIT: usize = 10;

/// File count and total size of the regular files found under a directory.
#[derive(Debug, Clone, Copy, PartialEq, Eq)]
pub struct DirectorySummary {
    pub file_count: usize,
    /// Sum of the sizes that could be read (saturating).
    pub total_size: u64,
}

/// Sum of the known sizes of the regular files among the entries.
pub open spec fn known_file_sizes(entries: Seq<ScannedEntry>) -> nat
    decreases entries.len(),
{
    if entries.len() == 0 {
        0
    } else {
        known_file_sizes(entries.drop_last()) + match entries.last() {
            ScannedEntry { is_file: true, size: Some(n), .. } => n as nat,
            _ => 0nat,
        }
    }
}

proof fn lemma_count_files_bound(entries: Seq<ScannedEntry>)
    ensures
        count_files(entries) <= entries.len(),
    decreases entries.len(),
{
    if entries.len() > 0 {
        lemma_count_files_bound(entries.drop_last());
    }
}

/// Counts the regular files under a directory and adds up their sizes; entries whose
/// size could not be read count as files but add nothing.
pub fn calculate_directory_summary(entries: &[ScannedEntry]) -> (r: DirectorySummary)
    ensures
        r.file_count == count_files(entries@),
        r.total_size == saturate(known_file_sizes(entries@)),
{
    let mut file_count: usize = 0;
    let mut total_size: u64 = 0;
    let mut i: usize = 0;
    while i < entries.len()
        invariant
            0 <= i <= entries@.len(),
            file_count == count_files(entries@.take(i as int)),
            file_count <= i,
            total_size == saturate(known_file_sizes(entries@.take(i as int))),
        decreases entries@.len() - i,
    {
        proof {
            assert(entries@.take(i as int + 1).drop_last() =~= entries@.take(i as int));
        }
        let e = &entries[i];
        if e.is_file {
            file_count = file_count + 1;
            if let Some(n) = e.size {
                total_size = total_size.saturating_add(n);
            }
        }
        i = i + 1;
    }
    assert(entries@.take(i as int) =~= entries@);
    DirectorySummary { file_count, total_size }
}

/// How a share type is described.
pub open spec fn share_type_text(t: ShareType) -> Seq<char> {
    match t {
        ShareType::SingleFile => "Single file"@,
        ShareType::MultipleFiles => "Multiple files"@,
        ShareType::Directory { name } => "Directory ("@ + name@ + ")"@,
    }
}

/// Describes a share type.
pub fn share_type_description(share_type: &ShareType) -> (r: String)
    ensures
        r@ == share_type_text(*share_type),
{
    match share_type {
        ShareType::SingleFile => String::from_str("Single file"),
        ShareType::MultipleFiles => String::from_str("Multiple files"),
        ShareType::Directory { name } => {
            let mut text = String::from_str("Directory (");
            text.append(name.as_str());
            text.append(")");
            text
        },
    }
}

/// The listing line of one file: its relative path and its size.
pub open spec fn listing_line(f: FileInfo) -> Seq<char> {
    "  • "@ + f.relative_path@ + " ("@ + bytes_text(f.size) + ")"@
}

/// The heading of a file listing.
pub open spec fn listing_heading(n: nat) -> Seq<char> {
    if n <= LISTING_LIMIT {
        "\n📋 Files:"@
    } else {
        "\n📋 Files (showing first 10 of "@ + decimal(n) + "):"@
    }
}

/// The lines listing the files: a heading, at most ten files, and a count of the rest.
pub open spec fn listing_lines_spec(files: Seq<FileInfo>, lines: Seq<String>) -> bool {
    let shown = if files.len() <= LISTING_LIMIT {
        files.len()
    } else {
        LISTING_LIMIT as nat
    };
    let extra: nat = if files.len() <= LISTING_LIMIT {
        0
    } else {
        1
    };
    &&& lines.len() == 1 + shown + extra
    &&& lines[0]@ == listing_heading(files.len())
    &&& forall|k: int| 0 <= k < shown ==> (#[trigger] lines[1 + k])@ == listing_line(files[k])
    &&& files.len() > LISTING_LIMIT ==> lines[1 + shown as int]@ == "  ... and "@ + decimal(
        (files.len() - LISTING_LIMIT) as nat,
    ) + " more files"@
}

fn listing_entry(f: &FileInfo) -> (r: String)
    ensures
        r@ == listing_line(*f),
{
    let mut line = String::from_str("  • ");
    line.append(f.relative_path.as_str());
    line.append(" (");
    let size = format_bytes(f.size);
    line.append(size.as_str());
    line.append(")");
    line
}

/// Lists the files of a manifest, the first ten by name.
pub fn file_listing_lines(files: &[FileInfo]) -> (r: Vec<String>)
    ensures
        listing_lines_spec(files@, r@),
{
    let n = files.len();
    let mut lines: Vec<String> = Vec::new();
    if n <= LISTING_LIMIT {
        lines.push(String::from_str("\n📋 Files:"));
    } else {
        let mut heading = String::from_str("\n📋 Files (showing first 10 of ");
        push_decimal(&mut heading, n as u128);
        heading.append("):");
        lines.push(heading);
    }
    let shown = if n <= LISTING_LIMIT {
        n
    } else {
        LISTING_LIMIT
    };
    let mut i: usize = 0;
    while i < shown
        invariant
            n == files@.len(),
            shown == (if n <= LISTING_LIMIT {
                n
            } else {
                LISTING_LIMIT
            }),
            0 <= i <= shown,
            lines@.len() == 1 + i,
            lines@[0]@ == listing_heading(n as nat),
            forall|k: int| 0 <= k < i ==> (#[trigger] lines@[1 + k])@ == listing_line(files@[k]),
        decreases shown - i,
    {
        lines.push(listing_entry(&files[i]));
        i = i + 1;
    }
    if n > LISTING_LIMIT {
        let mut tail = String::from_str("  ... and ");
        push_decimal(&mut tail, (n - LISTING_LIMIT) as u128);
        tail.append(" more files");
        lines.push(tail);
    }
    lines
}

/// The lines reporting a finished download, followed by the file listing.
pub open spec fn download_summary_spec(metadata: ShareMetadata, path: Seq<char>, lines: Seq<String>) -> bool {
    &&& lines.len() >= 4
    &&& lines[0]@ == "✅ Successfully downloaded "@ + decimal(metadata.files@.len()) + " files!"@
    &&& lines[1]@ == "📁 Location: "@ + path
    &&& lines[2]@ == "📄 Type: "@ + share_type_text(metadata.share_type)
    &&& lines[3]@ == "📊 Total size: "@ + bytes_text(metadata.total_size)
    &&& listing_lines_spec(metadata.files@, lines.subrange(4, lines.len() as int))
}

/// Reports a finished download: how many files, where, the share type, the total size,
/// and the file listing.
pub fn download_summary_lines(metadata: &ShareMetadata, download_path: &str) -> (r: Vec<String>)
    ensures
        download_summary_spec(*metadata, download_path@, r@),
{
    let mut lines: Vec<String> = Vec::new();
    let mut count = String::from_str("✅ Successfully downloaded ");
    push_decimal(&mut count, metadata.files.len() as u128);
    count.append(" files!");
    lines.push(count);
    let mut location = String::from_str("📁 Location: ");
    location.append(download_path);
    lines.push(location);
    let mut kind = String::from_str("📄 Type: ");
    let description = share_type_description(&metadata.share_type);
    kind.append(description.as_str());
    lines.push(kind);
    let mut size = String::from_str("📊 Total size: ");
    let total = format_bytes(metadata.total_size);
    size.append(total.as_str());
    lines.push(size);
    let listing = file_listing_lines(metadata.files.as_slice());
    let ghost head = lines@;
    let mut i: usize = 0;
    while i < listing.len()
        invariant
            0 <= i <= listing@.len(),
            head.len() == 4,
            lines@ == head + listing@.take(i as int),
        decreases listing@.len() - i,
    {
        lines.push(listing[i].clone());
        assert(lines@ =~= head + listing@.take(i as int + 1));
        i = i + 1;
    }
    assert(listing@.take(i as int) =~= listing@);
    assert(lines@.subrange(4, lines@.len() as int) =~= listing@);
    lines
}

/// The icon of a path in a list of shared items.
pub open spec fn item_icon(p: ScannedPath) -> Seq<char> {
    if p.kind is File {
        "📄"@
    } else {
        "📁"@
    }
}

/// The lines describing what is about to be shared.
pub open spec fn sharing_summary_spec(paths: Seq<ScannedPath>, lines: Seq<String>) -> bool {
    if paths.len() == 1 {
        match paths[0].kind {
            PathKind::File { .. } => lines.len() == 1 && lines[0]@ == "Sharing file: "@ + paths[0].path@,
            PathKind::Directory { entries } => lines.len() == 2 && lines[0]@ == "Sharing directory: "@
                + paths[0].path@ && lines[1]@ == "  Contains "@ + decimal(count_files(entries@))
                + " files, total size: "@ + bytes_text(saturate(known_file_sizes(entries@))),
            _ => lines.len() == 0,
        }
    } else {
        &&& lines.len() == 1 + paths.len()
        &&& lines[0]@ == "Sharing "@ + decimal(paths.len()) + " items:"@
        &&& forall|k: int|
            0 <= k < paths.len() ==> (#[trigger] lines[1 + k])@ == "  "@ + item_icon(paths[k]) + " "@
                + paths[k].path@
    }
}

/// Describes what is about to be shared: one file, one directory with its file count
/// and size, or each of several items.
pub fn sharing_summary_lines(paths: &[ScannedPath]) -> (r: Vec<String>)
    ensures
        sharing_summary_spec(paths@, r@),
{
    let mut lines: Vec<String> = Vec::new();
    if paths.len() == 1 {
        let p = &paths[0];
        match &p.kind {
            PathKind::File { .. } => {
                let mut line = String::from_str("Sharing file: ");
                line.append(p.path.as_str());
                lines.push(line);
            },
            PathKind::Directory { entries } => {
                let mut line = String::from_str("Sharing directory: ");
                line.append(p.path.as_str());
                lines.push(line);
                let summary = calculate_directory_summary(entries.as_slice());
                let mut contents = String::from_str("  Contains ");
                push_decimal(&mut contents, summary.file_count as u128);
                contents.append(" files, total size: ");
                let size = format_bytes(summary.total_size);
                contents.append(size.as_str());
                lines.push(contents);
            },
            _ => {},
        }
        return lines;
    }
    let mut heading = String::from_str("Sharing ");
    push_decimal(&mut heading, paths.len() as u128);
    heading.append(" items:");
    lines.push(heading);
    let mut i: usize = 0;
    while i < paths.len()
        invariant
            0 <= i <= paths@.len(),
            paths@.len() != 1,
            lines@.len() == 1 + i,
            lines@[0]@ == "Sharing "@ + decimal(paths@.len()) + " items:"@,
            forall|k: int|
                0 <= k < i ==> (#[trigger] lines@[1 + k])@ == "  "@ + item_icon(paths@[k]) + " "@
                    + paths@[k].path@,
        decreases paths@.len() - i,
    {
        let p = &paths[i];
        let mut line = String::from_str("  ");
        match &p.kind {
            PathKind::File { .. } => line.append("📄"),
            _ => line.append("📁"),
        }
        line.append(" ");
        line.append(p.path.as_str());
        lines.push(line);
        i = i + 1;
    }
    lines
}

} // verus!
