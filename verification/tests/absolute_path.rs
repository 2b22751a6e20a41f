use cargo_generate::absolute_path::{canonicalize_path, join_path, AbsolutePathExt};
use std::path::Path;

/// The working directory the conversions are made against.
fn cwd() -> String {
    "/home/user/project".to_string()
}

#[test]
fn test_non_existing_path() {
    let relative_path = "/non-existing-path".to_string();
    let absolute_path = relative_path.as_absolute(&cwd());
    assert!(Path::new(&absolute_path).is_absolute());
    assert_eq!(absolute_path, relative_path);
}

#[test]
fn test_relative_path_to_absolute() {
    let cwd = cwd();
    let relative_path = "src/main.rs".to_string();
    let absolute_path = relative_path.as_absolute(&cwd);
    assert!(Path::new(&absolute_path).is_absolute());
    assert!(Path::new(&absolute_path).starts_with(&cwd));
}

#[test]
fn test_absolute_path_remains_unchanged() {
    let cwd = cwd();
    let absolute_path_input = Path::new(&cwd).join("src/main.rs").to_str().unwrap().to_string();
    let absolute_path_output = absolute_path_input.as_absolute(&cwd);
    assert_eq!(absolute_path_input, absolute_path_output);
}

#[test]
fn test_complex_relative_path_to_absolute() {
    let cwd = cwd();
    let complex_relative_path = "src/./../src/main.rs".to_string();
    let complex_absolute_path = complex_relative_path.as_absolute(&cwd);
    assert!(Path::new(&complex_absolute_path).is_absolute());
    assert!(Path::new(&complex_absolute_path).starts_with(&cwd));
    assert!(Path::new(&complex_absolute_path).ends_with("src/main.rs"));
}

#[test]
fn test_empty_path() {
    let cwd = cwd();
    let empty_path = String::new();
    let absolute_path = empty_path.as_absolute(&cwd);
    assert_eq!(absolute_path, cwd);
}

#[test]
fn test_root_path() {
    let root_path = "/".to_string();
    let absolute_path = root_path.as_absolute(&cwd());
    assert_eq!(absolute_path, root_path);
}

#[test]
fn test_dot_path() {
    let cwd = cwd();
    let dot_path = ".".to_string();
    let absolute_path = dot_path.as_absolute(&cwd);
    assert_eq!(absolute_path, cwd);
}

#[test]
fn test_dot_dot_path() {
    let cwd = cwd();
    let parent_dir = Path::new(&cwd).parent().unwrap().to_str().unwrap().to_string();
    let dot_dot_path = "..".to_string();
    let absolute_path = dot_dot_path.as_absolute(&cwd);
    assert_eq!(absolute_path, parent_dir);
}

#[test]
fn test_multiple_consecutive_slashes() {
    let cwd = cwd();
    let multiple_slashes_path = "src//main.rs".to_string();
    let absolute_path = multiple_slashes_path.as_absolute(&cwd);
    assert!(Path::new(&absolute_path).is_absolute());
    assert!(Path::new(&absolute_path).starts_with(&cwd));
    assert!(Path::new(&absolute_path).ends_with("src/main.rs"));
}

#[test]
fn test_path_within_sandbox() {
    let sandbox = "/sandbox".to_string();
    let relative_path = "file.txt".to_string();
    let absolute_path = relative_path.as_sandboxed_absolute(&sandbox).unwrap();
    assert!(Path::new(&absolute_path).is_absolute());
    assert!(Path::new(&absolute_path).starts_with(&sandbox));
}

#[test]
#[should_panic(expected = "Path cannot escape the sandbox")]
fn test_path_outside_sandbox() {
    let sandbox = "/sandbox".to_string();
    let relative_path = "/outside/file.txt".to_string();
    relative_path.as_sandboxed_absolute(&sandbox).unwrap();
}

#[test]
#[should_panic(expected = "Path cannot escape the sandbox")]
fn test_path_with_dot_dot_to_escape_sandbox() {
    let sandbox = "/sandbox".to_string();
    let relative_path = "../file.txt".to_string();
    relative_path.as_sandboxed_absolute(&sandbox).unwrap();
}

#[test]
fn test_empty_path_in_sandbox() {
    let sandbox = "/sandbox".to_string();
    let empty_path = String::new();
    let absolute_path = empty_path.as_sandboxed_absolute(&sandbox).unwrap();
    assert_eq!(absolute_path, sandbox);
}

#[test]
fn test_root_path_in_sandbox() {
    let sandbox = "/sandbox".to_string();
    let root_path = "/".to_string();
    let result = root_path.as_sandboxed_absolute(&sandbox);
    assert!(result.is_err());
}

#[test]
fn test_multiple_consecutive_slashes_in_sandbox() {
    let sandbox = "/sandbox".to_string();
    let multiple_slashes_path = "src//main.rs".to_string();
    let absolute_path = multiple_slashes_path
        .as_sandboxed_absolute(&sandbox)
        .unwrap();
    assert!(Path::new(&absolute_path).is_absolute());
    assert!(Path::new(&absolute_path).starts_with(&sandbox));
    assert!(Path::new(&absolute_path).ends_with("src/main.rs"));
}

#[test]
#[should_panic(expected = "Path cannot escape the sandbox")]
fn test_path_with_multiple_dot_dot_to_escape_sandbox() {
    let sandbox = "/sandbox".to_string();
    let relative_path = "///../../../....//".to_string();
    relative_path.as_sandboxed_absolute(&sandbox).unwrap();
}

#[test]
#[should_panic(expected = "Path cannot escape the sandbox")]
fn test_path_with_nested_dot_dot_to_escape_sandbox() {
    let sandbox = "/sandbox".to_string();
    let relative_path = "nested/../../../../file.txt".to_string();
    relative_path.as_sandboxed_absolute(&sandbox).unwrap();
}

#[test]
#[should_panic(expected = "Path cannot escape the sandbox")]
fn test_path_with_mixed_dots_and_slashes() {
    let sandbox = "/sandbox".to_string();
    let relative_path = "./././.././../file.txt".to_string();
    relative_path.as_sandboxed_absolute(&sandbox).unwrap();
}

#[test]
fn test_path_with_trailing_slashes() {
    let sandbox = "/sandbox".to_string();
    let relative_path = "file.txt///".to_string();
    let absolute_path = relative_path.as_sandboxed_absolute(&sandbox).unwrap();
    assert!(Path::new(&absolute_path).is_absolute());
    assert!(Path::new(&absolute_path).starts_with(&sandbox));
}

#[test]
#[should_panic(expected = "Path cannot escape the sandbox")]
fn test_path_with_leading_slashes() {
    let sandbox = "/sandbox".to_string();
    let some_malicious_path = "///file.txt".to_string();
    some_malicious_path.as_sandboxed_absolute(&sandbox).unwrap();
}

#[test]
fn canonicalize_path_collapses_dots_and_slashes() {
    assert_eq!(canonicalize_path("/a//b/./c/../d"), "/a/b/d");
    assert_eq!(canonicalize_path("a/../../b"), "b");
    assert_eq!(canonicalize_path("/.."), "/");
    assert_eq!(canonicalize_path(""), "");
}

#[test]
fn join_path_follows_push() {
    assert_eq!(join_path("/a", "b"), "/a/b");
    assert_eq!(join_path("/a/", "b"), "/a/b");
    assert_eq!(join_path("/a", "/b"), "/b");
    assert_eq!(join_path("", "b"), "b");
    assert_eq!(join_path("/a", ""), "/a/");
}

#[test]
fn sandboxed_result_is_canonical_and_inside() {
    assert_eq!(
        "x/./y/../z".as_sandboxed_absolute("/sand/box/").unwrap(),
        "/sand/box/x/z"
    );
    assert_eq!(
        "/sand/box/q".as_sandboxed_absolute("/sand/box").unwrap(),
        "/sand/box/q"
    );
    assert_eq!(
        "x".as_sandboxed_absolute("/sand/box").unwrap(),
        "/sand/box/x"
    );
    assert!("/sand/q".as_sandboxed_absolute("/sand/box").is_err());
}
