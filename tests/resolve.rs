use edge_server::path::{resolve, resolve_request_path, FORBIDDEN, NOT_FOUND};
use edge_server::Error;

fn segments(p: &str) -> Vec<String> {
    match resolve(p) {
        Ok(v) => v,
        Err(e) => panic!("unexpected error: {}", e.to_string()),
    }
}

fn is_forbidden(p: &str) -> bool {
    match resolve(p) {
        Err(Error::StaticFile(m)) => m == FORBIDDEN,
        _ => false,
    }
}

#[test]
fn root_has_no_components() {
    assert!(segments("/").is_empty());
    assert!(segments("").is_empty());
}

#[test]
fn plain_path_splits_on_slashes() {
    assert_eq!(segments("/a/b/c.txt"), vec!["a", "b", "c.txt"]);
}

#[test]
fn empty_and_dot_parts_are_dropped() {
    assert_eq!(segments("//a/./b//"), vec!["a", "b"]);
}

#[test]
fn dot_dot_inside_root_goes_up() {
    assert_eq!(segments("/a/b/../c"), vec!["a", "c"]);
    assert!(segments("/a/..").is_empty());
}

#[test]
fn dot_dot_above_root_is_forbidden() {
    assert!(is_forbidden("/.."));
    assert!(is_forbidden("/../etc/passwd"));
    assert!(is_forbidden("/a/../../secret"));
    assert!(is_forbidden("../index.html"));
}

#[test]
fn dots_inside_names_are_ordinary() {
    assert_eq!(segments("/...a/..b/.c"), vec!["...a", "..b", ".c"]);
}

#[test]
fn percent_encoded_path_is_decoded() {
    match resolve_request_path("/my%20file.txt") {
        Ok(v) => assert_eq!(v, vec!["my file.txt"]),
        Err(e) => panic!("unexpected error: {}", e.to_string()),
    }
    match resolve_request_path("/caf%C3%A9/x") {
        Ok(v) => assert_eq!(v, vec!["café", "x"]),
        Err(e) => panic!("unexpected error: {}", e.to_string()),
    }
}

#[test]
fn encoded_dot_dot_is_still_forbidden() {
    match resolve_request_path("/%2e%2e/etc/passwd") {
        Err(Error::StaticFile(m)) => assert_eq!(m, FORBIDDEN),
        _ => panic!("expected forbidden"),
    }
}

#[test]
fn undecodable_path_is_not_found() {
    match resolve_request_path("/%ff") {
        Err(Error::StaticFile(m)) => assert_eq!(m, NOT_FOUND),
        _ => panic!("expected not found"),
    }
}
