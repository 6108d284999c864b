//! What a share contains: the file list, its layout policy and its total size.

use vstd::prelude::*;
use vstd::string::StringExecFns;

use crate::error::GinsengError;
use crate::utils::total_of;

verus! {

/// One shared file: where it sits in the share, its size and its content hash.
#[derive(Debug, PartialEq, Eq)]
pub struct FileInfo {
    /// File name without directories.
    pub name: String,
    /// Path relative to the root of the share; unique within a manifest.
    pub relative_path: String,
    /// Size in bytes.
    pub size: u64,
    /// Content hash under which the store keeps the file.
    pub hash: String,
}

impl Clone for FileInfo {
    fn clone(&self) -> (r: Self)
        ensures
            r == *self,
    {
        FileInfo {
            name: self.name.clone(),
            relative_path: self.relative_path.clone(),
            size: self.size,
            hash: self.hash.clone(),
        }
    }
}

/// What was shared, which decides where a download is placed.
#[derive(Debug, PartialEq, Eq)]
pub enum ShareType {
    /// One file.
    SingleFile,
    /// Several separate files.
    MultipleFiles,
    /// One directory, with its name.
    Directory { name: String },
}

impl Clone for ShareType {
    fn clone(&self) -> (r: Self)
        ensures
            r == *self,
    {
        match self {
            ShareType::SingleFile => ShareType::SingleFile,
            ShareType::MultipleFiles => ShareType::MultipleFiles,
            ShareType::Directory { name } => ShareType::Directory { name: name.clone() },
        }
    }
}

/// The manifest of a share.
#[derive(Debug, PartialEq, Eq)]
pub struct ShareMetadata {
    /// The files, in the order the manifest lists them.
    pub files: Vec<FileInfo>,
    pub share_type: ShareType,
    /// Sum of the sizes of the files.
    pub total_size: u64,
}

/// The sizes of the files, in order.
pub open spec fn sizes_of(files: Seq<FileInfo>) -> Seq<u64> {
    files.map_values(|f: FileInfo| f.size)
}

impl ShareMetadata {
    /// The total size is the sum of the file sizes.
    pub open spec fn well_formed(&self) -> bool {
        self.total_size == total_of(sizes_of(self.files@))
    }
}

impl Clone for ShareMetadata {
    fn clone(&self) -> (r: Self)
        ensures
            r.files@ == self.files@,
            r.share_type == self.share_type,
            r.total_size == self.total_size,
    {
        let files = self.files.clone();
        assert(files@ =~= self.files@);
        ShareMetadata { files, share_type: self.share_type.clone(), total_size: self.total_size }
    }
}

/// A manifest together with the hash under which its encoded form was stored; the
/// unit a ticket refers to.
#[derive(Debug)]
pub struct ShareBundle {
    pub metadata: ShareMetadata,
    /// Hash of the stored encoding of `metadata`.
    pub metadata_hash: String,
}

/// What a finished download reports: the manifest and where its files were written.
#[derive(Debug)]
pub struct DownloadResult {
    pub metadata: ShareMetadata,
    pub download_path: String,
}

/// The message of a manifest whose sizes add up past 64 bits.
pub open spec fn oversized_manifest_message() -> Seq<char> {
    "total size of the shared files does not fit in 64 bits"@
}

/// Folds the files of a share into its manifest, with the total size computed from the
/// files. Fails only when that total does not fit in 64 bits.
pub fn build_share_metadata(files: Vec<FileInfo>, share_type: ShareType) -> (r: Result<ShareMetadata, GinsengError>)
    ensures
        total_of(sizes_of(files@)) <= u64::MAX ==> (r matches Ok(m) && m.files@ == files@
            && m.share_type == share_type && m.total_size == total_of(sizes_of(files@))),
        total_of(sizes_of(files@)) > u64::MAX ==> (r matches Err(e) && e.is_input_validation(
            oversized_manifest_message(),
        )),
        r matches Ok(m) ==> m.well_formed(),
{
    let ghost sizes = sizes_of(files@);
    let mut total: u64 = 0;
    let mut i: usize = 0;
    while i < files.len()
        invariant
            sizes == sizes_of(files@),
            0 <= i <= files@.len(),
            total == total_of(sizes.take(i as int)),
        decreases files@.len() - i,
    {
        proof {
            assert(sizes.take(i as int + 1).drop_last() =~= sizes.take(i as int));
        }
        match total.checked_add(files[i].size) {
            Some(t) => {
                total = t;
            },
            None => {
                proof {
                    crate::utils::lemma_total_of_prefix(sizes, i as int + 1);
                }
                return Err(
                    GinsengError::InputValidation(
                        String::from_str("total size of the shared files does not fit in 64 bits"),
                    ),
                );
            },
        }
        i = i + 1;
    }
    assert(sizes.take(i as int) =~= sizes);
    Ok(ShareMetadata { files, share_type, total_size: total })
}

impl ShareBundle {
    /// A bundle of a manifest and the hash of its stored encoding.
    pub fn new(metadata: ShareMetadata, metadata_hash: String) -> (r: Self)
        ensures
            r.metadata == metadata,
            r.metadata_hash == metadata_hash,
    {
        ShareBundle { metadata, metadata_hash }
    }
}

/// The files of the uploads that succeeded, in the order of the results.
pub open spec fn successes(results: Seq<Result<FileInfo, GinsengError>>) -> Seq<FileInfo>
    decreases results.len(),
{
    if results.len() == 0 {
        Seq::empty()
    } else {
        let rest = successes(results.drop_last());
        match results.last() {
            Ok(f) => rest.push(f),
            Err(_) => rest,
        }
    }
}

/// Keeps the files whose upload succeeded; failures were recorded on their progress
/// and are left out of the manifest.
pub fn collect_uploaded(results: Vec<Result<FileInfo, GinsengError>>) -> (r: Vec<FileInfo>)
    ensures
        r@ == successes(results@),
{
    let mut files: Vec<FileInfo> = Vec::new();
    let mut i: usize = 0;
    while i < results.len()
        invariant
            0 <= i <= results@.len(),
            files@ == successes(results@.take(i as int)),
        decreases results@.len() - i,
    {
        proof {
            assert(results@.take(i as int + 1).drop_last() =~= results@.take(i as int));
        }
        if let Ok(f) = &results[i] {
            files.push(f.clone());
        }
        i = i + 1;
    }
    assert(results@.take(i as int) =~= results@);
    files
}

/// When every upload succeeded, the manifest lists each uploaded file, in order.
pub proof fn lemma_all_uploads_listed(results: Seq<Result<FileInfo, GinsengError>>)
    requires
        forall|k: int| 0 <= k < results.len() ==> (#[trigger] results[k]) is Ok,
    ensures
        successes(results).len() == results.len(),
        forall|k: int| 0 <= k < results.len() ==> results[k] == Ok::<FileInfo, GinsengError>(
            #[trigger] successes(results)[k],
        ),
    decreases results.len(),
{
    if results.len() > 0 {
        let rest = results.drop_last();
        assert forall|k: int| 0 <= k < rest.len() implies (#[trigger] rest[k]) is Ok by {
            assert(rest[k] == results[k]);
        }
        lemma_all_uploads_listed(rest);
        assert(results.last() == results[results.len() - 1]);
        assert forall|k: int| 0 <= k < results.len() implies results[k] == Ok::<FileInfo, GinsengError>(
            #[trigger] successes(results)[k],
        ) by {
            if k < rest.len() {
                assert(rest[k] == results[k]);
            }
        }
    }
}

} // verus!
