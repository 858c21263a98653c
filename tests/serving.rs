use edge_server::pipeline::{advance, dispatch};
use edge_server::serve::{content_type, error_response, examine, extension, file_response, Entry, Lookup, Step};
use edge_server::http::{Method, Request, Response, CSP_DIRECTIVES};
use edge_server::Error;

fn request(method: Method, path: &str, origin: Option<&str>) -> Request {
    Request { method, path: path.to_string(), origin: origin.map(|o| o.to_string()) }
}

/// Runs a request against a served root holding only `index.html`.
fn run_with_index(req: &Request) -> Response {
    let mut step = dispatch(req);
    loop {
        match step {
            Step::Respond(r) => return r,
            Step::Read(l) => {
                let entry = if l.segments.is_empty() {
                    Entry::Directory
                } else if l.segments == vec!["index.html".to_string()] {
                    Entry::File(b"<html>hi</html>".to_vec())
                } else {
                    Entry::Missing
                };
                step = advance(req, l, entry);
            }
        }
    }
}

fn header<'a>(r: &'a Response, name: &str) -> Option<&'a str> {
    r.header(name).map(|s| s.as_str())
}

#[test]
fn get_root_serves_index_document() {
    let r = run_with_index(&request(Method::Get, "/", None));
    assert_eq!(r.status, 200);
    assert_eq!(r.body, b"<html>hi</html>".to_vec());
    assert_eq!(header(&r, "content-type"), Some("text/html"));
    assert_eq!(header(&r, "content-security-policy"), Some(CSP_DIRECTIVES));
}

#[test]
fn get_missing_file_is_not_found() {
    let r = run_with_index(&request(Method::Get, "/missing.txt", None));
    assert_eq!(r.status, 404);
    assert!(r.body.is_empty());
    assert_eq!(header(&r, "content-security-policy"), Some(CSP_DIRECTIVES));
}

#[test]
fn options_from_evil_origin_has_no_allow_origin() {
    let r = run_with_index(&request(Method::Options, "/", Some("http://evil.com")));
    assert!(header(&r, "access-control-allow-origin").is_none());
    assert!(header(&r, "access-control-allow-methods").is_none());
    assert_eq!(header(&r, "content-security-policy"), Some(CSP_DIRECTIVES));
}

#[test]
fn options_from_allowed_origin_is_answered_directly() {
    let r = run_with_index(&request(Method::Options, "/health", Some("http://localhost:3000")));
    assert_eq!(r.status, 200);
    assert!(r.body.is_empty());
    assert_eq!(header(&r, "access-control-allow-methods"), Some("GET"));
    assert_eq!(header(&r, "access-control-max-age"), Some("3600"));
}

#[test]
fn get_health_is_ok_every_time() {
    for _ in 0..3 {
        for method in [Method::Get, Method::Post, Method::Head] {
            let r = run_with_index(&request(method, "/health", Some("http://evil.com")));
            assert_eq!(r.status, 200);
            assert_eq!(r.body, b"OK".to_vec());
        }
    }
}

#[test]
fn get_from_allowed_origin_carries_allow_origin() {
    let r = run_with_index(&request(Method::Get, "/index.html", Some("http://localhost:3000")));
    assert_eq!(r.status, 200);
    assert_eq!(header(&r, "access-control-allow-origin"), Some("http://localhost:3000"));
}

#[test]
fn traversal_is_forbidden_without_lookup() {
    match dispatch(&request(Method::Get, "/../etc/passwd", None)) {
        Step::Respond(r) => {
            assert_eq!(r.status, 403);
            assert!(r.body.is_empty());
        }
        Step::Read(_) => panic!("an escaping path was looked up"),
    }
}

#[test]
fn known_file_round_trips() {
    let req = request(Method::Get, "/css/site.css", None);
    let l = match dispatch(&req) {
        Step::Read(l) => l,
        Step::Respond(_) => panic!("expected a lookup"),
    };
    assert_eq!(l.segments, vec!["css".to_string(), "site.css".to_string()]);
    let bytes = vec![0u8, 1, 2, 255, b'a'];
    match advance(&req, l, Entry::File(bytes.clone())) {
        Step::Respond(r) => {
            assert_eq!(r.status, 200);
            assert_eq!(r.body, bytes);
            assert_eq!(header(&r, "content-type"), Some("text/css"));
        }
        Step::Read(_) => panic!("expected a response"),
    }
}

#[test]
fn directory_without_index_is_not_found() {
    let l = Lookup { segments: vec!["docs".to_string()], index_tried: false };
    let l = match examine(l, Entry::Directory) {
        Ok(Step::Read(l)) => l,
        _ => panic!("expected the index document to be tried"),
    };
    assert_eq!(l.segments, vec!["docs".to_string(), "index.html".to_string()]);
    assert!(l.index_tried);
    match examine(l, Entry::Directory) {
        Err(Error::StaticFile(m)) => assert_eq!(m, "not found"),
        _ => panic!("expected not found"),
    }
}

#[test]
fn file_system_failures_map_to_statuses() {
    let req = request(Method::Get, "/a", None);
    let lk = || Lookup { segments: vec!["a".to_string()], index_tried: false };
    let status = |e: Entry| match advance(&req, lk(), e) {
        Step::Respond(r) => r.status,
        Step::Read(_) => 0,
    };
    assert_eq!(status(Entry::Missing), 404);
    assert_eq!(status(Entry::Denied), 403);
    assert_eq!(status(Entry::Failed), 500);
    match examine(lk(), Entry::Failed) {
        Err(Error::Internal(m)) => assert_eq!(m, "file read failed"),
        _ => panic!("expected an internal error"),
    }
}

#[test]
fn error_statuses() {
    assert_eq!(error_response(&Error::StaticFile("forbidden".to_string())).status, 403);
    assert_eq!(error_response(&Error::StaticFile("not found".to_string())).status, 404);
    assert_eq!(error_response(&Error::Internal("x".to_string())).status, 500);
    assert_eq!(error_response(&Error::Auth("x".to_string())).status, 500);
    assert!(error_response(&Error::Internal("secret detail".to_string())).body.is_empty());
}

#[test]
fn extensions_and_media_types() {
    assert_eq!(extension("a.tar.gz"), "gz");
    assert_eq!(extension("Makefile"), "");
    assert_eq!(extension("trailing."), "");
    assert_eq!(content_type("index.html"), "text/html");
    assert_eq!(content_type("logo.png"), "image/png");
    assert_eq!(content_type("app.js"), "text/javascript");
    assert_eq!(content_type("data.unknownext"), "application/octet-stream");
    assert_eq!(content_type("README"), "application/octet-stream");
}

#[test]
fn file_response_carries_body_and_type() {
    let r = file_response(b"{}".to_vec(), "a.json");
    assert_eq!(r.status, 200);
    assert_eq!(r.body, b"{}".to_vec());
    assert_eq!(r.header("content-type").map(|s| s.as_str()), Some("application/json"));
}

#[test]
fn encoded_name_reaches_the_file() {
    match dispatch(&request(Method::Get, "/index%2Ehtml", None)) {
        Step::Read(l) => assert_eq!(l.segments, vec!["index.html".to_string()]),
        Step::Respond(_) => panic!("expected a lookup"),
    }
    match dispatch(&request(Method::Get, "/%ff", None)) {
        Step::Respond(r) => assert_eq!(r.status, 404),
        Step::Read(_) => panic!("expected a response"),
    }
}
