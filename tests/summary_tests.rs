use ginseng::manifest::{FileInfo, ShareMetadata, ShareType};
use ginseng::plan::{PathKind, ScannedEntry, ScannedPath};
use ginseng::summary::{
    calculate_directory_summary, download_summary_lines, file_listing_lines, share_type_description,
    sharing_summary_lines, DirectorySummary,
};

fn info(rel: &str, size: u64) -> FileInfo {
    FileInfo { name: rel.to_string(), relative_path: rel.to_string(), size, hash: String::new() }
}

#[test]
fn share_type_descriptions() {
    assert_eq!(share_type_description(&ShareType::SingleFile), "Single file");
    assert_eq!(share_type_description(&ShareType::MultipleFiles), "Multiple files");
    assert_eq!(share_type_description(&ShareType::Directory { name: "d".to_string() }), "Directory (d)");
}

#[test]
fn short_listing_shows_every_file() {
    let lines = file_listing_lines(&[info("a.txt", 1536), info("b.txt", 0)]);
    assert_eq!(lines, vec!["\n📋 Files:", "  • a.txt (1.50 KB)", "  • b.txt (0 B)"]);
}

#[test]
fn long_listing_is_truncated() {
    let files: Vec<FileInfo> = (0..12).map(|i| info(&format!("f{}", i), 1024)).collect();
    let lines = file_listing_lines(&files);
    assert_eq!(lines.len(), 12);
    assert_eq!(lines[0], "\n📋 Files (showing first 10 of 12):");
    assert_eq!(lines[10], "  • f9 (1.00 KB)");
    assert_eq!(lines[11], "  ... and 2 more files");
}

#[test]
fn download_summary() {
    let metadata = ShareMetadata {
        files: vec![info("a", 1048576)],
        share_type: ShareType::SingleFile,
        total_size: 1048576,
    };
    let lines = download_summary_lines(&metadata, "/dl");
    assert_eq!(
        lines,
        vec![
            "✅ Successfully downloaded 1 files!",
            "📁 Location: /dl",
            "📄 Type: Single file",
            "📊 Total size: 1.00 MB",
            "\n📋 Files:",
            "  • a (1.00 MB)",
        ]
    );
}

#[test]
fn directory_summary_counts_files() {
    let entries = vec![
        ScannedEntry { path: "/d".to_string(), is_file: false, size: Some(4096) },
        ScannedEntry { path: "/d/a".to_string(), is_file: true, size: Some(10) },
        ScannedEntry { path: "/d/b".to_string(), is_file: true, size: None },
        ScannedEntry { path: "/d/c".to_string(), is_file: true, size: Some(5) },
    ];
    assert_eq!(calculate_directory_summary(&entries), DirectorySummary { file_count: 3, total_size: 15 });
}

#[test]
fn sharing_summaries() {
    let one_file = vec![ScannedPath { path: "/a.txt".to_string(), kind: PathKind::File { size: Some(1) } }];
    assert_eq!(sharing_summary_lines(&one_file), vec!["Sharing file: /a.txt"]);
    let dir = vec![ScannedPath {
        path: "/d".to_string(),
        kind: PathKind::Directory {
            entries: vec![ScannedEntry { path: "/d/a".to_string(), is_file: true, size: Some(2048) }],
        },
    }];
    assert_eq!(
        sharing_summary_lines(&dir),
        vec!["Sharing directory: /d", "  Contains 1 files, total size: 2.00 KB"]
    );
    let several = vec![
        ScannedPath { path: "/a.txt".to_string(), kind: PathKind::File { size: Some(1) } },
        ScannedPath { path: "/d".to_string(), kind: PathKind::Directory { entries: vec![] } },
    ];
    assert_eq!(sharing_summary_lines(&several), vec!["Sharing 2 items:", "  📄 /a.txt", "  📁 /d"]);
}
