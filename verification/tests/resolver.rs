use sftp_gateway::errors::RemoteFileError;
use sftp_gateway::paths::contains_parent_component;
use sftp_gateway::paths::get_full_path;
use sftp_gateway::paths::join_paths;

#[test]
fn traversal_at_start_is_rejected() {
    let r = get_full_path("../etc/passwd", "/srv/files");
    assert!(matches!(r, Err(RemoteFileError::PathTraversal)));
}

#[test]
fn traversal_in_middle_is_rejected() {
    let r = get_full_path("a/../b", "/srv/files");
    assert!(matches!(r, Err(RemoteFileError::PathTraversal)));
}

#[test]
fn traversal_at_end_is_rejected() {
    let r = get_full_path("a/..", "/srv/files");
    assert!(matches!(r, Err(RemoteFileError::PathTraversal)));
}

#[test]
fn lone_traversal_is_rejected() {
    let r = get_full_path("..", "/srv/files");
    assert!(matches!(r, Err(RemoteFileError::PathTraversal)));
}

#[test]
fn repeated_traversal_is_rejected() {
    let r = get_full_path("../../etc/passwd", "/srv/files");
    assert!(matches!(r, Err(RemoteFileError::PathTraversal)));
}

#[test]
fn dot_lookalikes_are_not_traversal() {
    assert!(!contains_parent_component("..a"));
    assert!(!contains_parent_component("a.."));
    assert!(!contains_parent_component("..."));
    assert!(!contains_parent_component("a/...b/c"));
    assert!(contains_parent_component(".."));
    assert!(contains_parent_component("x/../y"));
    assert!(contains_parent_component("x/.."));
    assert!(contains_parent_component("../x"));
}

#[test]
fn relative_path_resolves_to_joined() {
    let r = get_full_path("foo.txt", "/srv/files");
    assert_eq!(r.ok().unwrap(), "/srv/files/foo.txt");
}

#[test]
fn nested_relative_path_resolves() {
    let r = get_full_path("a/b/c.txt", "/srv/files");
    assert_eq!(r.ok().unwrap(), "/srv/files/a/b/c.txt");
}

#[test]
fn base_with_trailing_slash_joins_without_double_separator() {
    let r = get_full_path("foo", "/srv/");
    assert_eq!(r.ok().unwrap(), "/srv/foo");
}

#[test]
fn empty_base_resolves_to_request() {
    let r = get_full_path("foo", "");
    assert_eq!(r.ok().unwrap(), "foo");
}

#[test]
fn absolute_request_escaping_base_is_rejected() {
    let r = get_full_path("/etc/passwd", "/srv/files");
    assert!(matches!(r, Err(RemoteFileError::PathTraversal)));
}

#[test]
fn absolute_request_inside_base_resolves() {
    let r = get_full_path("/srv/files/x", "/srv/files");
    assert_eq!(r.ok().unwrap(), "/srv/files/x");
}

#[test]
fn sibling_directory_with_base_as_string_prefix_is_rejected() {
    let r = get_full_path("/srv/filesx/evil", "/srv/files");
    assert!(matches!(r, Err(RemoteFileError::PathTraversal)));
}

#[test]
fn join_inserts_separator_only_when_needed() {
    assert_eq!(join_paths("/base", "x"), "/base/x");
    assert_eq!(join_paths("/base/", "x"), "/base/x");
    assert_eq!(join_paths("", "x"), "x");
    assert_eq!(join_paths("/base", "/abs"), "/abs");
}
