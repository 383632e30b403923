use wiki_client::session::{basic_auth_header, check_status, ApiError, Session};

#[test]
fn test_session_creation() {
    let _session = Session::new("".to_owned(), "".to_owned(), "".to_owned());
}

#[test]
fn auth_header_known_vector() {
    assert_eq!(basic_auth_header("bob", "secret"), "Basic Ym9iOnNlY3JldA==");
}

#[test]
fn auth_header_empty_credentials() {
    // base64 of ":" alone
    assert_eq!(basic_auth_header("", ""), "Basic Og==");
}

#[test]
fn auth_header_is_deterministic() {
    let a = basic_auth_header("alice@example.com", "k3y/with+chars");
    let b = basic_auth_header("alice@example.com", "k3y/with+chars");
    assert_eq!(a, b);
    assert_eq!(a, "Basic YWxpY2VAZXhhbXBsZS5jb206azN5L3dpdGgrY2hhcnM=");
}

#[test]
fn session_keeps_base_and_header() {
    let s = Session::new("bob".to_owned(), "secret".to_owned(), "https://wiki.example".to_owned())
        .unwrap();
    assert_eq!(s.base_url(), "https://wiki.example");
    assert_eq!(s.auth_header(), "Basic Ym9iOnNlY3JldA==");
}

fn session() -> Session {
    Session::new("u".to_owned(), "k".to_owned(), "https://wiki.example".to_owned()).unwrap()
}

#[test]
fn page_url_uses_decimal_id() {
    assert_eq!(session().page_url(10), "https://wiki.example/rest/api/content/10");
    assert_eq!(session().page_url(0), "https://wiki.example/rest/api/content/0");
    assert_eq!(
        session().page_url(u64::MAX),
        "https://wiki.example/rest/api/content/18446744073709551615"
    );
}

#[test]
fn fixed_urls() {
    let s = session();
    assert_eq!(s.content_url(), "https://wiki.example/rest/api/content");
    assert_eq!(s.spaces_url(), "https://wiki.example/rest/api/space");
    assert_eq!(s.space_content_url("DOC"), "https://wiki.example/rest/api/space/DOC/content");
}

#[test]
fn continuation_url_strips_page_segment() {
    let s = session();
    assert_eq!(
        s.continuation_url("/rest/api/space/DOC/content/page?limit=2&start=2"),
        "https://wiki.example/rest/api/space/DOC/content?limit=2&start=2"
    );
    assert_eq!(
        s.continuation_url("/rest/api/space/DOC/content?start=2"),
        "https://wiki.example/rest/api/space/DOC/content?start=2"
    );
}

#[test]
fn status_success_passes_body() {
    assert_eq!(check_status(200, "ok".to_owned()).unwrap(), "ok");
    assert_eq!(check_status(399, "redirect".to_owned()).unwrap(), "redirect");
    assert_eq!(check_status(600, "odd".to_owned()).unwrap(), "odd");
}

#[test]
fn status_client_error_is_remote() {
    match check_status(409, "version conflict".to_owned()) {
        Err(ApiError::Remote { status, body }) => {
            assert_eq!(status, 409);
            assert_eq!(body, "version conflict");
        }
        other => panic!("unexpected {:?}", other),
    }
    assert!(matches!(check_status(400, String::new()), Err(ApiError::Remote { status: 400, .. })));
}

#[test]
fn status_server_error_is_remote() {
    assert!(matches!(check_status(500, "boom".to_owned()), Err(ApiError::Remote { status: 500, .. })));
    assert!(matches!(check_status(599, String::new()), Err(ApiError::Remote { status: 599, .. })));
}

#[test]
fn basic_prefix_before_encoded_credentials() {
    assert_eq!(wiki_client::session::basic_header_value("Ym9iOnNlY3JldA=="), "Basic Ym9iOnNlY3JldA==");
    assert_eq!(wiki_client::session::basic_header_value(""), "Basic ");
}
