use usercheck::client::UserCheckClient;
use usercheck::response::is_success;

#[test]
fn domain_request_with_credential_carries_bearer_header() {
    let client = UserCheckClient::new(Some("k123".to_string()));
    let req = client.domain_request("gmail.com");
    assert_eq!(req.url, "https://api.usercheck.com/domain/gmail.com");
    assert_eq!(req.headers.len(), 1);
    assert_eq!(req.headers[0].name, "Authorization");
    assert_eq!(req.headers[0].value, "Bearer k123");
}

#[test]
fn email_request_with_credential_carries_bearer_header() {
    let client = UserCheckClient::new(Some("secret".to_string()));
    let req = client.email_request("a@disposable.test");
    assert_eq!(req.url, "https://api.usercheck.com/email/a@disposable.test");
    assert_eq!(req.headers.len(), 1);
    assert_eq!(req.headers[0].name, "Authorization");
    assert_eq!(req.headers[0].value, "Bearer secret");
}

#[test]
fn requests_without_credential_have_no_headers() {
    let client = UserCheckClient::new(None);
    let d = client.domain_request("example.org");
    let e = client.email_request("x@example.org");
    assert_eq!(d.url, "https://api.usercheck.com/domain/example.org");
    assert_eq!(e.url, "https://api.usercheck.com/email/x@example.org");
    assert!(d.headers.is_empty());
    assert!(e.headers.is_empty());
}

#[test]
fn endpoint_path_is_not_escaped() {
    let client = UserCheckClient::new(None);
    let req = client.domain_request("a b/c?d");
    assert_eq!(req.url, "https://api.usercheck.com/domain/a b/c?d");
    let raw = client.request("");
    assert_eq!(raw.url, "https://api.usercheck.com/");
}

#[test]
fn empty_credential_is_kept_verbatim() {
    let client = UserCheckClient::new(Some(String::new()));
    let req = client.domain_request("gmail.com");
    assert_eq!(req.headers.len(), 1);
    assert_eq!(req.headers[0].value, "Bearer ");
}

#[test]
fn success_range_is_200_to_299() {
    assert!(!is_success(199));
    assert!(is_success(200));
    assert!(is_success(204));
    assert!(is_success(299));
    assert!(!is_success(300));
    assert!(!is_success(404));
    assert!(!is_success(429));
    assert!(!is_success(500));
    assert!(!is_success(0));
    assert!(!is_success(u16::MAX));
}
