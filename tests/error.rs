use edge_server::Error;

#[test]
fn test_error_display() {
    let err = Error::Auth("invalid token".to_string());
    assert_eq!(err.to_string(), "Authentication error: invalid token");
}

#[test]
fn test_module_setup() {
    assert!(true, "Basic module structure test");
}

#[test]
fn every_variant_renders_its_category() {
    assert_eq!(Error::Network("down".to_string()).to_string(), "Network simulation error: down");
    assert_eq!(Error::Api("bad".to_string()).to_string(), "API error: bad");
    assert_eq!(Error::StaticFile("not found".to_string()).to_string(), "Static file error: not found");
    assert_eq!(Error::Internal("boom".to_string()).to_string(), "Internal error: boom");
    assert_eq!(Error::Internal(String::new()).to_string(), "Internal error: ");
}

#[test]
fn message_is_the_carried_text() {
    assert_eq!(Error::Api("bad request".to_string()).message(), "bad request");
}
