use usercheck::fields::{DecodeError, Field};
use usercheck::json::{find_member, JsonMember, JsonValue};
use usercheck::records::{DomainInfo, EmailInfo, ErrorInfo};
use usercheck::response::{
    domain_outcome, domain_response, email_outcome, email_response, service_failure, Failure,
};

const GMAIL: &str = r#"{"status":1,"domain":"gmail.com","mx":true,"disposable":false,"public_domain":true,"did_you_mean":null}"#;
const RATE_LIMIT: &str = r#"{"status":429,"error":"rate limit exceeded"}"#;

fn decode_failure<T>(r: Result<T, Failure>) -> DecodeError {
    match r {
        Err(Failure::Decode(e)) => e,
        Err(Failure::Service(m)) => panic!("service failure {m}"),
        Err(Failure::Transport(m)) => panic!("transport failure {m}"),
        Ok(_) => panic!("unexpected success"),
    }
}

#[test]
fn gmail_domain_scenario() {
    let d = domain_response(200, GMAIL.as_bytes()).unwrap();
    assert_eq!(d.status, 1);
    assert_eq!(d.domain, "gmail.com");
    assert!(d.mx);
    assert!(!d.disposable);
    assert!(d.public_domain);
    assert_eq!(d.did_you_mean, None);
}

#[test]
fn disposable_email_scenario() {
    for alias in [true, false] {
        let body = format!(
            r#"{{"status":1,"email":"a@disposable.test","domain":"disposable.test","mx":true,"disposable":true,"public_domain":false,"alias":{alias},"did_you_mean":null}}"#
        );
        let e = email_response(200, body.as_bytes()).unwrap();
        assert!(e.disposable);
        assert_eq!(e.alias, alias);
        assert_eq!(e.email, "a@disposable.test");
        assert_eq!(e.domain, "disposable.test");
        assert_eq!(e.status, 1);
        assert!(e.mx);
        assert!(!e.public_domain);
        assert_eq!(e.did_you_mean, None);
    }
}

#[test]
fn rate_limit_fails_both_lookups_with_message() {
    match domain_response(429, RATE_LIMIT.as_bytes()) {
        Err(Failure::Service(m)) => assert_eq!(m, "rate limit exceeded"),
        other => panic!("{other:?}"),
    }
    match email_response(429, RATE_LIMIT.as_bytes()) {
        Err(Failure::Service(m)) => assert_eq!(m, "rate limit exceeded"),
        other => panic!("{other:?}"),
    }
}

#[test]
fn missing_mx_is_a_decode_failure() {
    let body = r#"{"status":1,"domain":"gmail.com","disposable":false,"public_domain":true,"did_you_mean":null}"#;
    assert_eq!(decode_failure(domain_response(200, body.as_bytes())), DecodeError::MissingField(Field::Mx));
    let body = r#"{"status":1,"email":"a@b.c","domain":"b.c","disposable":false,"public_domain":true,"alias":false}"#;
    assert_eq!(decode_failure(email_response(200, body.as_bytes())), DecodeError::MissingField(Field::Mx));
}

#[test]
fn missing_alias_is_a_decode_failure() {
    let body = r#"{"status":1,"email":"a@b.c","domain":"b.c","mx":true,"disposable":false,"public_domain":true}"#;
    assert_eq!(decode_failure(email_response(200, body.as_bytes())), DecodeError::MissingField(Field::Alias));
}

#[test]
fn domain_fields_read_back_in_any_order_with_extra_members() {
    let body = r#"{"did_you_mean":"gmail.com","extra":[1,2],"public_domain":false,"disposable":true,"mx":false,"domain":"gmial.com","status":255}"#;
    let d = domain_response(201, body.as_bytes()).unwrap();
    assert_eq!(d.status, 255);
    assert_eq!(d.domain, "gmial.com");
    assert!(!d.mx);
    assert!(d.disposable);
    assert!(!d.public_domain);
    assert_eq!(d.did_you_mean, Some("gmail.com".to_string()));
}

#[test]
fn absent_suggestion_reads_as_none() {
    let body = r#"{"status":0,"domain":"x.org","mx":true,"disposable":false,"public_domain":false}"#;
    let d = domain_response(299, body.as_bytes()).unwrap();
    assert_eq!(d.status, 0);
    assert_eq!(d.did_you_mean, None);
}

#[test]
fn email_fields_read_back_exactly() {
    let body = r#"{"status":7,"email":"bob+news@mail.com","domain":"mail.com","mx":true,"disposable":false,"public_domain":true,"alias":true,"did_you_mean":"bob@mail.com"}"#;
    let e = email_response(200, body.as_bytes()).unwrap();
    assert_eq!(e.status, 7);
    assert_eq!(e.email, "bob+news@mail.com");
    assert_eq!(e.domain, "mail.com");
    assert!(e.mx);
    assert!(!e.disposable);
    assert!(e.public_domain);
    assert!(e.alias);
    assert_eq!(e.did_you_mean, Some("bob@mail.com".to_string()));
}

#[test]
fn wrong_kinds_are_invalid_fields() {
    let body = r#"{"status":1,"domain":"gmail.com","mx":"yes","disposable":false,"public_domain":true}"#;
    assert_eq!(decode_failure(domain_response(200, body.as_bytes())), DecodeError::InvalidField(Field::Mx));
    let body = r#"{"status":1,"domain":42,"mx":true,"disposable":false,"public_domain":true}"#;
    assert_eq!(decode_failure(domain_response(200, body.as_bytes())), DecodeError::InvalidField(Field::Domain));
    let body = r#"{"status":1,"domain":"d","mx":true,"disposable":false,"public_domain":true,"did_you_mean":false}"#;
    assert_eq!(decode_failure(domain_response(200, body.as_bytes())), DecodeError::InvalidField(Field::DidYouMean));
}

#[test]
fn status_out_of_range_is_invalid() {
    for status in ["256", "-1", "1.5", "\"1\""] {
        let body = format!(r#"{{"status":{status},"domain":"d","mx":true,"disposable":false,"public_domain":true}}"#);
        assert_eq!(decode_failure(domain_response(200, body.as_bytes())), DecodeError::InvalidField(Field::Status));
    }
}

#[test]
fn first_wrong_field_in_record_order_is_reported() {
    let body = r#"{"status":1,"mx":3}"#;
    assert_eq!(decode_failure(domain_response(200, body.as_bytes())), DecodeError::MissingField(Field::Domain));
    let body = r#"{"domain":"d"}"#;
    assert_eq!(decode_failure(email_response(200, body.as_bytes())), DecodeError::MissingField(Field::Status));
}

#[test]
fn body_that_is_not_an_object_is_rejected() {
    for body in ["", "not json", "[1,2]", "null", "{\"status\":1", "\"text\""] {
        assert_eq!(decode_failure(domain_response(200, body.as_bytes())), DecodeError::NotAnObject);
        assert_eq!(decode_failure(email_response(500, body.as_bytes())), DecodeError::NotAnObject);
    }
}

#[test]
fn malformed_error_body_is_a_decode_failure() {
    let body = r#"{"status":500}"#;
    assert_eq!(decode_failure(domain_response(500, body.as_bytes())), DecodeError::MissingField(Field::Error));
    let body = r#"{"status":70000,"error":"x"}"#;
    assert_eq!(decode_failure(email_response(503, body.as_bytes())), DecodeError::InvalidField(Field::Status));
}

#[test]
fn failure_status_with_record_body_is_not_a_success() {
    assert_eq!(decode_failure(domain_response(404, GMAIL.as_bytes())), DecodeError::MissingField(Field::Error));
    match domain_response(300, RATE_LIMIT.as_bytes()) {
        Err(Failure::Service(m)) => assert_eq!(m, "rate limit exceeded"),
        other => panic!("{other:?}"),
    }
}

fn member(key: &str, value: JsonValue) -> JsonMember {
    JsonMember { key: key.to_string(), value }
}

#[test]
fn error_record_reads_status_and_message() {
    let members = vec![
        member("status", JsonValue::Number(Some(429))),
        member("error", JsonValue::Str("rate limit exceeded".to_string())),
    ];
    let info = ErrorInfo::from_members(&members).unwrap();
    assert_eq!(info.status, 429);
    assert_eq!(info.error, "rate limit exceeded");
    match service_failure(Some(members)) {
        Failure::Service(m) => assert_eq!(m, "rate limit exceeded"),
        other => panic!("{other:?}"),
    }
    assert!(matches!(service_failure(None), Failure::Decode(DecodeError::NotAnObject)));
}

#[test]
fn find_member_returns_first_match() {
    let members = vec![
        member("a", JsonValue::Null),
        member("b", JsonValue::Bool(true)),
        member("a", JsonValue::Number(Some(12))),
        member("e", JsonValue::Str("t".to_string())),
    ];
    assert!(matches!(find_member(&members, &"a".to_string()), Some(JsonValue::Null)));
    assert!(matches!(find_member(&members, &"b".to_string()), Some(JsonValue::Bool(true))));
    assert!(matches!(find_member(&members, &"e".to_string()), Some(JsonValue::Str(s)) if s == "t"));
    assert!(find_member(&members, &"h".to_string()).is_none());
    assert!(find_member(&Vec::new(), &"a".to_string()).is_none());
}

#[test]
fn nested_and_negative_values_are_invalid() {
    for value in ["[1]", "{}", "-3", "2.5", "null"] {
        let body = format!(r#"{{"status":1,"domain":"d","mx":{value},"disposable":false,"public_domain":true}}"#);
        assert_eq!(decode_failure(domain_response(200, body.as_bytes())), DecodeError::InvalidField(Field::Mx));
    }
}

#[test]
fn records_decode_from_members() {
    let members = vec![
        member("status", JsonValue::Number(Some(1))),
        member("domain", JsonValue::Str("gmail.com".to_string())),
        member("mx", JsonValue::Bool(true)),
        member("disposable", JsonValue::Bool(false)),
        member("public_domain", JsonValue::Bool(true)),
    ];
    let d = DomainInfo::from_members(&members).unwrap();
    assert_eq!(d.domain, "gmail.com");
    assert_eq!(d.did_you_mean, None);
    assert_eq!(EmailInfo::from_members(&members).unwrap_err(), DecodeError::MissingField(Field::Email));
}

#[test]
fn field_names_are_wire_keys() {
    assert_eq!(Field::Status.name(), "status");
    assert_eq!(Field::PublicDomain.name(), "public_domain");
    assert_eq!(Field::DidYouMean.name(), "did_you_mean");
    assert_eq!(Field::Error.name(), "error");
    assert_eq!(Field::Alias.name(), "alias");
}

#[test]
fn outcome_from_members_built_by_hand() {
    let m = member;
    let members = vec![
        m("status", JsonValue::Number(Some(2))),
        m("domain", JsonValue::Str("a.io".to_string())),
        m("mx", JsonValue::Bool(false)),
        m("disposable", JsonValue::Bool(true)),
        m("public_domain", JsonValue::Bool(false)),
        m("did_you_mean", JsonValue::Null),
    ];
    let d = domain_outcome(200, Some(members)).unwrap();
    assert_eq!(d.status, 2);
    assert_eq!(d.domain, "a.io");
    assert!(!d.mx && d.disposable && !d.public_domain);
    assert_eq!(d.did_you_mean, None);
    let dup = vec![m("status", JsonValue::Number(Some(300))), m("status", JsonValue::Number(Some(1)))];
    assert_eq!(decode_failure(email_outcome(200, Some(dup))), DecodeError::InvalidField(Field::Status));
    assert_eq!(decode_failure(email_outcome(200, None)), DecodeError::NotAnObject);
    let err = vec![m("status", JsonValue::Number(Some(429))), m("error", JsonValue::Str("slow down".to_string()))];
    match domain_outcome(429, Some(err)) {
        Err(Failure::Service(msg)) => assert_eq!(msg, "slow down"),
        other => panic!("{other:?}"),
    }
}
