use ginseng::manifest::{ShareMetadata, ShareType};
use ginseng::placement::{determine_target_directory, target_directory};

#[test]
fn test_determine_target_directory_single_file() {
    let metadata = ShareMetadata { files: vec![], share_type: ShareType::SingleFile, total_size: 0 };

    let result = determine_target_directory(&metadata, None);
    assert!(result.is_ok());
}

#[test]
fn test_determine_target_directory_multiple_files() {
    let metadata = ShareMetadata { files: vec![], share_type: ShareType::MultipleFiles, total_size: 0 };

    let result = determine_target_directory(&metadata, None);
    assert!(result.is_ok());
    assert!(result.unwrap().contains("ginseng_files_"));
}

#[test]
fn test_determine_target_directory_directory() {
    let metadata = ShareMetadata {
        files: vec![],
        share_type: ShareType::Directory { name: "test_folder".to_string() },
        total_size: 0,
    };

    let result = determine_target_directory(&metadata, None);
    assert!(result.is_ok());
    assert!(result.unwrap().ends_with("test_folder"));
}

#[test]
fn target_directory_by_share_type() {
    assert_eq!(target_directory(&ShareType::SingleFile, "/dl", 1_700_000_000), "/dl");
    assert_eq!(
        target_directory(&ShareType::MultipleFiles, "/dl", 1_700_000_000),
        "/dl/ginseng_files_1700000000"
    );
    assert_eq!(target_directory(&ShareType::MultipleFiles, "/dl/", -5), "/dl/ginseng_files_-5");
    assert_eq!(target_directory(&ShareType::MultipleFiles, "/dl", 0), "/dl/ginseng_files_0");
    assert_eq!(target_directory(&ShareType::Directory { name: "proj".to_string() }, "/dl", 9), "/dl/proj");
}

#[test]
fn target_directory_is_stable_but_for_the_timestamp() {
    let dir = ShareType::Directory { name: "proj".to_string() };
    assert_eq!(target_directory(&dir, "/dl", 1), target_directory(&dir, "/dl", 2));
    assert_eq!(target_directory(&ShareType::SingleFile, "/dl", 1), target_directory(&ShareType::SingleFile, "/dl", 2));
    let a = target_directory(&ShareType::MultipleFiles, "/dl", 1);
    let b = target_directory(&ShareType::MultipleFiles, "/dl", 2);
    assert_ne!(a, b);
    assert_eq!(a.trim_end_matches('1'), b.trim_end_matches('2'));
}

#[test]
fn determine_target_directory_with_working_directory() {
    let metadata = ShareMetadata {
        files: vec![],
        share_type: ShareType::Directory { name: "x".to_string() },
        total_size: 0,
    };
    assert!(determine_target_directory(&metadata, Some("/work".to_string())).unwrap().ends_with("/x"));
}

#[test]
fn multiple_files_folder_is_stamped_with_the_current_time() {
    let metadata = ShareMetadata { files: vec![], share_type: ShareType::MultipleFiles, total_size: 0 };
    let path = determine_target_directory(&metadata, Some("/work".to_string())).unwrap();
    let stamp = path.rsplit("ginseng_files_").next().unwrap();
    let seconds: i64 = stamp.parse().unwrap();
    assert!(seconds > 1_600_000_000);
}
