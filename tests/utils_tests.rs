use std::path::PathBuf;

use ginseng::utils::{
    calculate_relative_path, calculate_total_size, extract_directory_name, extract_file_name,
    get_downloads_directory, join_path, resolve_downloads_directory, validate_paths_not_empty,
};
use ginseng::GinsengError;

#[test]
fn test_extract_file_name() {
    assert_eq!(extract_file_name("/path/to/file.txt"), "file.txt");
    assert_eq!(extract_file_name("file.txt"), "file.txt");
    assert_eq!(extract_file_name("/path/to/"), "to");
}

#[test]
fn extract_file_name_without_a_name() {
    assert_eq!(extract_file_name("/"), "unknown");
    assert_eq!(extract_file_name("/path/.."), "unknown");
}

#[test]
fn test_extract_directory_name() {
    assert_eq!(extract_directory_name("/path/to/dir"), "dir");
    assert_eq!(extract_directory_name("dir"), "dir");
    assert_eq!(extract_directory_name("/path/to/"), "to");
}

#[test]
fn extract_directory_name_of_root() {
    assert_eq!(extract_directory_name("/"), "folder");
}

#[test]
fn test_calculate_relative_path_same_file() {
    let path = "/home/user/file.txt";
    assert_eq!(calculate_relative_path(path, path).unwrap(), "file.txt");
}

#[test]
fn test_calculate_relative_path_nested() {
    let base = "/home/user";
    let file = "/home/user/docs/file.txt";
    assert_eq!(calculate_relative_path(file, base).unwrap(), "docs/file.txt");
}

#[test]
fn relative_path_compares_components() {
    assert_eq!(calculate_relative_path("/home/user/docs/a.txt", "/home/user/").unwrap(), "docs/a.txt");
    assert_eq!(calculate_relative_path("/home/user/a.txt", "/home/user/a.txt/").unwrap(), "a.txt");
}

#[test]
fn relative_path_outside_the_base_fails() {
    let r = calculate_relative_path("/etc/passwd", "/home/user");
    assert_eq!(
        r,
        Err(GinsengError::Filesystem(
            "Failed to calculate relative path: /etc/passwd is not under /home/user".to_string()
        ))
    );
}

#[test]
fn test_calculate_total_size() {
    let sizes = vec![100u64, 200u64, 300u64];
    assert_eq!(calculate_total_size(&sizes), 600);
}

#[test]
fn test_calculate_total_size_empty() {
    assert_eq!(calculate_total_size(&[]), 0);
}

#[test]
fn test_validate_paths_not_empty() {
    let paths = vec![PathBuf::from("/some/path")];
    assert!(validate_paths_not_empty(&paths).is_ok());

    let empty_paths: Vec<PathBuf> = vec![];
    assert!(validate_paths_not_empty(&empty_paths).is_err());
}

#[test]
fn empty_selection_error_text() {
    let empty: Vec<String> = vec![];
    assert_eq!(
        validate_paths_not_empty(&empty),
        Err(GinsengError::InputValidation("no files provided".to_string()))
    );
}

#[test]
fn test_get_downloads_directory() {
    let result = get_downloads_directory(None);
    assert!(result.is_ok());
}

#[test]
fn downloads_directory_fallbacks() {
    assert_eq!(
        resolve_downloads_directory(Some("/dl".to_string()), Some("/home/a".to_string()), None),
        Ok("/dl".to_string())
    );
    assert_eq!(
        resolve_downloads_directory(None, Some("/home/a".to_string()), Some("/work".to_string())),
        Ok("/home/a/Downloads".to_string())
    );
    assert_eq!(
        resolve_downloads_directory(None, None, Some("/work".to_string())),
        Ok("/work/ginseng_downloads".to_string())
    );
    assert_eq!(
        resolve_downloads_directory(None, None, None),
        Err(GinsengError::Filesystem("Could not determine downloads directory".to_string()))
    );
}

#[test]
fn join_path_cases() {
    assert_eq!(join_path("/dl", "a/b.txt"), "/dl/a/b.txt");
    assert_eq!(join_path("/dl/", "a.txt"), "/dl/a.txt");
    assert_eq!(join_path("", "a.txt"), "a.txt");
    assert_eq!(join_path("/dl", "/abs/a.txt"), "/abs/a.txt");
}

#[test]
fn identical_paths_give_the_file_name() {
    assert_eq!(calculate_relative_path("/data/test.txt", "/data/test.txt").unwrap(), "test.txt");
}
