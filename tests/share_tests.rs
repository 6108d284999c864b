use ginseng::manifest::{build_share_metadata, collect_uploaded, FileInfo, ShareBundle, ShareMetadata, ShareType};
use ginseng::plan::{
    collect_file_paths, determine_share_type, plan_share, validate_paths_are_files, validate_paths_exist,
    PathKind, ScannedEntry, ScannedPath, SourceFile,
};
use ginseng::progress::{FileStatus, ProgressTracker, TransferType};
use ginseng::tasks::{initialize_download_tasks, initialize_upload_tasks, UploadFileTask};
use ginseng::worker::{AddEvent, UploadWorker};
use ginseng::GinsengError;

fn file(path: &str, size: u64) -> ScannedPath {
    ScannedPath { path: path.to_string(), kind: PathKind::File { size: Some(size) } }
}

fn entry(path: &str, is_file: bool, size: u64) -> ScannedEntry {
    ScannedEntry { path: path.to_string(), is_file, size: Some(size) }
}

/// Runs one upload through its worker, as the store would report it.
fn upload(task: &UploadFileTask, size: u64, hash: &str, tracker: &mut ProgressTracker) -> Result<FileInfo, GinsengError> {
    let mut worker = UploadWorker::start(task)?;
    let events = vec![
        AddEvent::Size(size),
        AddEvent::CopyProgress(size / 2),
        AddEvent::OutboardProgress(size),
        AddEvent::CopyDone,
        AddEvent::Done(hash.to_string()),
    ];
    for event in events {
        let step = worker.on_event(event);
        if let Some(update) = step.file_update() {
            tracker.update_file(&task.file_id, update);
        }
    }
    worker.finish()
}

#[test]
fn single_file_share_builds_its_manifest() {
    let paths = vec![file("/data/test.txt", 12)];
    let plan = plan_share(&paths, false).unwrap();
    assert_eq!(plan.share_type, ShareType::SingleFile);
    let mut tracker = ProgressTracker::new("up".to_string(), TransferType::Upload);
    let tasks = initialize_upload_tasks(&plan.sources, &mut tracker).unwrap();
    assert_eq!(tasks.len(), 1);
    let info = upload(&tasks[0], 12, "hash-a", &mut tracker);
    let files = collect_uploaded(vec![info]);
    let metadata = build_share_metadata(files, plan.share_type).unwrap();
    assert_eq!(
        metadata,
        ShareMetadata {
            share_type: ShareType::SingleFile,
            files: vec![FileInfo {
                name: "test.txt".to_string(),
                relative_path: "test.txt".to_string(),
                size: 12,
                hash: "hash-a".to_string(),
            }],
            total_size: 12,
        }
    );
    let snapshot = tracker.get_snapshot();
    assert_eq!(snapshot.completed_files, 1);
    assert_eq!(snapshot.transferred_bytes, 12);
    assert_eq!(snapshot.files[0].status, FileStatus::Completed);
}

fn shared_directory() -> ScannedPath {
    ScannedPath {
        path: "/data/shared".to_string(),
        kind: PathKind::Directory {
            entries: vec![
                entry("/data/shared", false, 4096),
                entry("/data/shared/file1.txt", true, 8),
                entry("/data/shared/subdir", false, 4096),
                entry("/data/shared/subdir/file2.txt", true, 8),
            ],
        },
    }
}

#[test]
fn directory_share_builds_its_manifest() {
    let paths = vec![shared_directory()];
    let plan = plan_share(&paths, false).unwrap();
    assert_eq!(plan.share_type, ShareType::Directory { name: "shared".to_string() });
    assert_eq!(plan.sources.len(), 2);
    let mut tracker = ProgressTracker::new("up".to_string(), TransferType::Upload);
    let tasks = initialize_upload_tasks(&plan.sources, &mut tracker).unwrap();
    let results: Vec<Result<FileInfo, GinsengError>> =
        tasks.iter().map(|t| upload(t, 8, "h", &mut tracker)).collect();
    let metadata = build_share_metadata(collect_uploaded(results), plan.share_type).unwrap();
    assert_eq!(metadata.share_type, ShareType::Directory { name: "shared".to_string() });
    assert_eq!(metadata.files.len(), 2);
    assert_eq!(metadata.total_size, 16);
    assert_eq!(metadata.files[0].relative_path, "file1.txt");
    assert_eq!(metadata.files[1].relative_path, "subdir/file2.txt");
    assert_eq!(metadata.files[1].name, "file2.txt");
}

#[test]
fn directory_share_lists_every_regular_file_under_its_root() {
    let paths = vec![shared_directory()];
    let sources = collect_file_paths(&paths);
    assert_eq!(sources.len(), 2);
    for s in &sources {
        assert_eq!(s.share_root, "/data/shared");
        assert!(s.absolute_path.starts_with("/data/shared/"));
    }
    let mut tracker = ProgressTracker::new("up".to_string(), TransferType::Upload);
    initialize_upload_tasks(&sources, &mut tracker).unwrap();
    for f in &tracker.get_snapshot().files {
        assert!(!f.relative_path.starts_with('/'));
        assert!(!f.relative_path.split('/').any(|c| c == ".."));
    }
}

#[test]
fn empty_selection_is_refused() {
    let r = plan_share(&[], false);
    assert_eq!(r.unwrap_err(), GinsengError::InputValidation("no files provided".to_string()));
}

#[test]
fn missing_path_is_refused() {
    let paths = vec![file("/a.txt", 1), ScannedPath { path: "/nope".to_string(), kind: PathKind::Missing }];
    assert_eq!(
        validate_paths_exist(&paths),
        Err(GinsengError::InputValidation("Path does not exist: /nope".to_string()))
    );
    assert_eq!(
        plan_share(&paths, false).unwrap_err(),
        GinsengError::InputValidation("Path does not exist: /nope".to_string())
    );
}

#[test]
fn files_only_refuses_a_directory() {
    let paths = vec![shared_directory()];
    let expected = GinsengError::InputValidation(
        "Path is not a file (use without --files-only to share directories): /data/shared".to_string(),
    );
    assert_eq!(validate_paths_are_files(&paths), Err(expected.clone()));
    assert_eq!(plan_share(&paths, true).unwrap_err(), expected);
    assert!(validate_paths_are_files(&[file("/a", 1)]).is_ok());
}

#[test]
fn several_paths_must_all_be_files() {
    let paths = vec![file("/a.txt", 1), shared_directory()];
    assert_eq!(
        plan_share(&paths, false).unwrap_err(),
        GinsengError::InputValidation(
            "Path is not a file (a selection of several paths may hold files only): /data/shared".to_string()
        )
    );
}

#[test]
fn single_special_path_is_refused() {
    let paths = vec![ScannedPath { path: "/dev/sock".to_string(), kind: PathKind::Other }];
    assert_eq!(
        plan_share(&paths, false).unwrap_err(),
        GinsengError::InputValidation("Path is neither a file nor a directory: /dev/sock".to_string())
    );
}

#[test]
fn several_files_share() {
    let paths = vec![file("/x/a.txt", 3), file("/y/b.txt", 4)];
    assert_eq!(determine_share_type(&paths), ShareType::MultipleFiles);
    let plan = plan_share(&paths, true).unwrap();
    assert_eq!(plan.share_type, ShareType::MultipleFiles);
    assert_eq!(plan.sources.len(), 2);
    assert_eq!(plan.sources[1].absolute_path, "/y/b.txt");
    assert_eq!(plan.sources[1].share_root, "/y/b.txt");
}

#[test]
fn registration_fails_on_unknown_size() {
    let sources = vec![
        SourceFile { absolute_path: "/a".to_string(), share_root: "/a".to_string(), size: Some(1) },
        SourceFile { absolute_path: "/b".to_string(), share_root: "/b".to_string(), size: None },
    ];
    let mut tracker = ProgressTracker::new("up".to_string(), TransferType::Upload);
    let r = initialize_upload_tasks(&sources, &mut tracker);
    assert_eq!(r.unwrap_err(), GinsengError::Filesystem("Failed to get file size for '/b'".to_string()));
    assert_eq!(tracker.get_snapshot().files.len(), 0);
}

#[test]
fn registration_fails_outside_the_root() {
    let sources = vec![SourceFile { absolute_path: "/x/a".to_string(), share_root: "/y".to_string(), size: Some(1) }];
    let mut tracker = ProgressTracker::new("up".to_string(), TransferType::Upload);
    let r = initialize_upload_tasks(&sources, &mut tracker);
    assert!(matches!(r, Err(GinsengError::Filesystem(_))));
    assert_eq!(tracker.get_snapshot().total_files, 0);
}

#[test]
fn upload_registration_aligns_tasks_with_progress() {
    let paths = vec![file("/x/a.txt", 3), file("/y/b.txt", 4)];
    let plan = plan_share(&paths, false).unwrap();
    let mut tracker = ProgressTracker::new("up".to_string(), TransferType::Upload);
    let tasks = initialize_upload_tasks(&plan.sources, &mut tracker).unwrap();
    let s = tracker.get_snapshot();
    assert_eq!(s.total_files, 2);
    assert_eq!(s.total_bytes, 7);
    for (task, fp) in tasks.iter().zip(s.files.iter()) {
        assert_eq!(task.file_id, fp.file_id);
        assert_eq!(fp.status, FileStatus::Pending);
    }
    assert_eq!(s.files[1].name, "b.txt");
    assert_eq!(s.files[1].relative_path, "b.txt");
}

#[test]
fn download_registration_follows_the_manifest() {
    let metadata = ShareMetadata {
        files: vec![
            FileInfo { name: "a".to_string(), relative_path: "d/a".to_string(), size: 5, hash: "h1".to_string() },
            FileInfo { name: "b".to_string(), relative_path: "d/b".to_string(), size: 6, hash: "h2".to_string() },
        ],
        share_type: ShareType::Directory { name: "d".to_string() },
        total_size: 11,
    };
    let mut tracker = ProgressTracker::new("down".to_string(), TransferType::Download);
    let tasks = initialize_download_tasks(&metadata, &mut tracker);
    let s = tracker.get_snapshot();
    assert_eq!(tasks.len(), 2);
    assert_eq!(s.total_bytes, 11);
    assert_eq!(tasks[1].file_info, metadata.files[1]);
    assert_eq!(tasks[1].file_id, s.files[1].file_id);
    assert_eq!(s.files[1].relative_path, "d/b");
}

#[test]
fn failed_uploads_are_left_out_of_the_manifest() {
    let ok = FileInfo { name: "a".to_string(), relative_path: "a".to_string(), size: 2, hash: "h".to_string() };
    let files = collect_uploaded(vec![Err(GinsengError::Storage("x".to_string())), Ok(ok.clone())]);
    assert_eq!(files, vec![ok]);
}

#[test]
fn manifest_total_is_the_sum_of_sizes() {
    let mk = |n: &str, size: u64| FileInfo {
        name: n.to_string(),
        relative_path: n.to_string(),
        size,
        hash: String::new(),
    };
    let m = build_share_metadata(vec![mk("a", 5), mk("b", 7), mk("c", 0)], ShareType::MultipleFiles).unwrap();
    assert_eq!(m.total_size, 12);
    let too_big = build_share_metadata(vec![mk("a", u64::MAX), mk("b", 1)], ShareType::MultipleFiles);
    assert_eq!(
        too_big.unwrap_err(),
        GinsengError::InputValidation("total size of the shared files does not fit in 64 bits".to_string())
    );
    let bundle = ShareBundle::new(m.clone(), "mh".to_string());
    assert_eq!(bundle.metadata, m);
    assert_eq!(bundle.metadata_hash, "mh");
}
