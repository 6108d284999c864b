//! Where a download lands, decided from the share type.

use vstd::prelude::*;
use vstd::string::StringExecFns;

use crate::error::GinsengError;
use crate::manifest::{ShareMetadata, ShareType};
use crate::platform::utc_timestamp_now;
use crate::text::{decimal, lemma_decimal_injective, lemma_decimal_shape, push_decimal};
use crate::utils::{get_downloads_directory, join_path, joined_path};

verus! {

/// The base-ten text of a signed integer.
pub open spec fn signed_decimal(n: int) -> Seq<char> {
    if n < 0 {
        seq!['-'] + decimal((-n) as nat)
    } else {
        decimal(n as nat)
    }
}

/// The prefix of the folder that receives a download of several files.
pub open spec fn multiple_files_prefix() -> Seq<char> {
    "ginseng_files_"@
}

/// The target directory of a download: the downloads directory itself for one file, a
/// folder stamped with the Unix time for several files, the shared directory's name
/// for a directory (an existing folder of that name is reused).
pub open spec fn target_directory_for(share_type: ShareType, downloads: Seq<char>, timestamp: i64) -> Seq<char> {
    match share_type {
        ShareType::SingleFile => downloads,
        ShareType::MultipleFiles => joined_path(downloads, multiple_files_prefix() + signed_decimal(timestamp as int)),
        ShareType::Directory { name } => joined_path(downloads, name@),
    }
}

/// Computes the target directory of a download under `downloads_dir`, with
/// `timestamp` (Unix seconds) naming the folder of a multi-file share.
pub fn target_directory(share_type: &ShareType, downloads_dir: &str, timestamp: i64) -> (r: String)
    ensures
        r@ == target_directory_for(*share_type, downloads_dir@, timestamp),
{
    match share_type {
        ShareType::SingleFile => String::from_str(downloads_dir),
        ShareType::MultipleFiles => {
            let mut folder = String::from_str("ginseng_files_");
            if timestamp < 0 {
                proof { reveal_strlit("-"); }
                folder.append("-");
                push_decimal(&mut folder, (-(timestamp as i128)) as u128);
            } else {
                push_decimal(&mut folder, timestamp as u128);
            }
            assert(folder@ =~= multiple_files_prefix() + signed_decimal(timestamp as int));
            join_path(downloads_dir, folder.as_str())
        },
        ShareType::Directory { name } => join_path(downloads_dir, name.as_str()),
    }
}

/// Decides where the files of a share are written: under the user's downloads
/// directory (found as [`get_downloads_directory`] does, with `current_dir` as the
/// last resort), placed by share type, with the current time naming the folder of a
/// multi-file share.
pub fn determine_target_directory(metadata: &ShareMetadata, current_dir: Option<String>) -> (r: Result<
    String,
    GinsengError,
>)
    ensures
        current_dir is Some ==> r is Ok,
        r matches Ok(p) ==> exists|downloads: Seq<char>, timestamp: i64|
            p@ == #[trigger] target_directory_for(metadata.share_type, downloads, timestamp),
        r matches Err(e) ==> e.is_filesystem("Could not determine downloads directory"@),
{
    let downloads = get_downloads_directory(current_dir)?;
    let timestamp: i64 = match &metadata.share_type {
        ShareType::MultipleFiles => utc_timestamp_now(),
        _ => 0,
    };
    Ok(target_directory(&metadata.share_type, downloads.as_str(), timestamp))
}

/// Different integers have different signed decimal texts.
pub proof fn lemma_signed_decimal_injective(a: int, b: int)
    requires
        signed_decimal(a) == signed_decimal(b),
    ensures
        a == b,
{
    if a < 0 && b < 0 {
        assert(signed_decimal(a).drop_first() =~= decimal((-a) as nat));
        assert(signed_decimal(b).drop_first() =~= decimal((-b) as nat));
        lemma_decimal_injective((-a) as nat, (-b) as nat);
    } else if a < 0 {
        lemma_decimal_shape(b as nat);
        assert(signed_decimal(a)[0] == '-');
    } else if b < 0 {
        lemma_decimal_shape(a as nat);
        assert(signed_decimal(b)[0] == '-');
    } else {
        lemma_decimal_injective(a as nat, b as nat);
    }
}

/// For one file or one directory the target does not depend on the time; for several
/// files the time only appears as the decimal suffix of the folder name, and different
/// times give different folders.
pub proof fn lemma_target_directory_stable(share_type: ShareType, downloads: Seq<char>, t1: i64, t2: i64)
    ensures
        !(share_type is MultipleFiles) ==> target_directory_for(share_type, downloads, t1)
            == target_directory_for(share_type, downloads, t2),
        share_type is MultipleFiles ==> target_directory_for(share_type, downloads, t1) == joined_path(
            downloads,
            multiple_files_prefix(),
        ) + signed_decimal(t1 as int),
        share_type is MultipleFiles ==> (target_directory_for(share_type, downloads, t1)
            == target_directory_for(share_type, downloads, t2) <==> t1 == t2),
{
    reveal_strlit("ginseng_files_");
    if share_type is MultipleFiles {
        let f1 = multiple_files_prefix() + signed_decimal(t1 as int);
        let f2 = multiple_files_prefix() + signed_decimal(t2 as int);
        assert(f1[0] == 'g' && f2[0] == 'g');
        let p = multiple_files_prefix().len();
        if target_directory_for(share_type, downloads, t1) == target_directory_for(share_type, downloads, t2) {
            let n: int = if downloads.len() == 0 || downloads.last() == '/' {
                downloads.len() as int
            } else {
                downloads.len() as int + 1
            };
            let j1 = joined_path(downloads, f1);
            let j2 = joined_path(downloads, f2);
            assert(j1.subrange(n, j1.len() as int) =~= f1);
            assert(j2.subrange(n, j2.len() as int) =~= f2);
            assert(f1 == f2);
            assert(f1.subrange(p as int, f1.len() as int) =~= signed_decimal(t1 as int));
            assert(f2.subrange(p as int, f2.len() as int) =~= signed_decimal(t2 as int));
            lemma_signed_decimal_injective(t1 as int, t2 as int);
        }
    }
    if share_type is MultipleFiles {
        let folder = multiple_files_prefix() + signed_decimal(t1 as int);
        assert(folder[0] == multiple_files_prefix()[0]);
        if downloads.len() == 0 || downloads.last() == '/' {
            assert(downloads + folder =~= (downloads + multiple_files_prefix()) + signed_decimal(t1 as int));
        } else {
            assert(downloads + seq!['/'] + folder =~= (downloads + seq!['/'] + multiple_files_prefix())
                + signed_decimal(t1 as int));
        }
    }
}

} // verus!
