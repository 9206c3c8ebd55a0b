use nwep::Error;
use nwep::Method;
use nwep::StatusClass;
use nwep::StatusToken;

#[test]
fn test_method_parsing() {
    assert_eq!(Method::from_bytes(b"READ").unwrap(), Method::Read);
    assert_eq!(Method::from_bytes(b"WRITE").unwrap(), Method::Write);
    assert_eq!(Method::from_bytes(b"MODIFY").unwrap(), Method::Modify);
    assert_eq!(Method::from_bytes(b"DELETE").unwrap(), Method::Delete);
    assert_eq!(Method::from_bytes(b"PROBE").unwrap(), Method::Probe);
    assert_eq!(Method::from_bytes(b"CONNECT").unwrap(), Method::Connect);
    assert_eq!(Method::from_bytes(b"TRACE").unwrap(), Method::Trace);

    assert!(Method::from_bytes(b"GET").is_err());
    assert!(Method::from_bytes(b"POST").is_err());
}

#[test]
fn test_method_properties() {
    assert!(Method::Read.is_safe());
    assert!(Method::Read.is_idempotent());
    assert!(Method::Read.is_cacheable());

    assert!(!Method::Write.is_safe());
    assert!(Method::Write.is_idempotent());
    assert!(!Method::Write.is_cacheable());

    assert!(!Method::Modify.is_safe());
    assert!(!Method::Modify.is_idempotent());
}

#[test]
fn test_method_http_conversion() {
    assert_eq!(Method::from_http_method(b"GET"), Some(Method::Read));
    assert_eq!(Method::from_http_method(b"POST"), Some(Method::Write));
    assert_eq!(Method::from_http_method(b"PATCH"), Some(Method::Modify));

    assert_eq!(Method::Read.to_http_method(), b"GET".to_vec());
    assert_eq!(Method::Write.to_http_method(), b"POST".to_vec());
}

#[test]
fn test_status_parsing() {
    assert_eq!(StatusToken::from_bytes(b"ok"), StatusToken::Okay);
    assert_eq!(StatusToken::from_bytes(b"not_found"), StatusToken::NotFound);
    assert_eq!(
        StatusToken::from_bytes(b"internal_error"),
        StatusToken::InternalError
    );

    // Unknown tokens default to internal_error
    assert_eq!(
        StatusToken::from_bytes(b"unknown_status"),
        StatusToken::InternalError
    );
}

#[test]
fn test_status_http_conversion() {
    assert_eq!(StatusToken::Okay.to_http_code(), 200);
    assert_eq!(StatusToken::NotFound.to_http_code(), 404);
    assert_eq!(StatusToken::InternalError.to_http_code(), 500);

    assert_eq!(StatusToken::from_http_code(200), Some(StatusToken::Okay));
    assert_eq!(
        StatusToken::from_http_code(404),
        Some(StatusToken::NotFound)
    );
    assert_eq!(StatusToken::from_http_code(999), None);
}

#[test]
fn test_status_class() {
    assert_eq!(StatusToken::Okay.class(), StatusClass::Success);
    assert_eq!(StatusToken::NotFound.class(), StatusClass::ClientError);
    assert_eq!(StatusToken::InternalError.class(), StatusClass::ServerError);
}

fn all_methods() -> Vec<Method> {
    vec![
        Method::Read,
        Method::Write,
        Method::Modify,
        Method::Delete,
        Method::Probe,
        Method::Connect,
        Method::Trace,
    ]
}

fn all_status_tokens() -> Vec<StatusToken> {
    vec![
        StatusToken::Continue,
        StatusToken::SwitchingProtocols,
        StatusToken::Okay,
        StatusToken::Created,
        StatusToken::Accepted,
        StatusToken::NoContent,
        StatusToken::PartialContent,
        StatusToken::MovedPermanently,
        StatusToken::Found,
        StatusToken::SeeOther,
        StatusToken::NotModified,
        StatusToken::TemporaryRedirect,
        StatusToken::PermanentRedirect,
        StatusToken::BadRequest,
        StatusToken::Unauthorized,
        StatusToken::Forbidden,
        StatusToken::NotFound,
        StatusToken::MethodNotAllowed,
        StatusToken::Conflict,
        StatusToken::Gone,
        StatusToken::PayloadTooLarge,
        StatusToken::UnsupportedMediaType,
        StatusToken::TooManyRequests,
        StatusToken::InternalError,
        StatusToken::NotImplemented,
        StatusToken::BadGateway,
        StatusToken::ServiceUnavailable,
        StatusToken::GatewayTimeout,
    ]
}

#[test]
fn test_every_method_round_trips_through_wire() {
    for m in all_methods() {
        let wire = m.as_bytes();
        assert_eq!(Method::from_bytes(wire.as_slice()).unwrap(), m);
    }
}

#[test]
fn test_method_attribute_table() {
    let expected: Vec<(Method, bool, bool, bool)> = vec![
        (Method::Read, true, true, true),
        (Method::Write, false, true, false),
        (Method::Modify, false, false, false),
        (Method::Delete, false, true, false),
        (Method::Probe, true, true, false),
        (Method::Connect, false, false, false),
        (Method::Trace, true, true, false),
    ];
    for (m, safe, idem, cache) in expected {
        assert_eq!(m.is_safe(), safe);
        assert_eq!(m.is_idempotent(), idem);
        assert_eq!(m.is_cacheable(), cache);
    }
}

#[test]
fn test_every_method_round_trips_through_legacy() {
    for m in all_methods() {
        let legacy = m.to_http_method();
        assert_eq!(Method::from_http_method(legacy.as_slice()), Some(m));
    }
}

#[test]
fn test_legacy_collapses_head_and_put() {
    assert_eq!(Method::from_http_method(b"HEAD"), Some(Method::Read));
    assert_eq!(Method::from_http_method(b"PUT"), Some(Method::Write));
    assert_eq!(Method::from_http_method(b"BREW"), None);
}

#[test]
fn test_method_parse_error_variant() {
    assert_eq!(Method::from_bytes(b"GET"), Err(Error::UnrecognizedMethod));
    assert_eq!(Method::from_bytes(b""), Err(Error::UnrecognizedMethod));
    // wire tokens are case-sensitive
    assert_eq!(Method::from_bytes(b"read"), Err(Error::UnrecognizedMethod));
}

#[test]
fn test_every_status_round_trips_through_wire() {
    for t in all_status_tokens() {
        let wire = t.as_bytes();
        assert_eq!(StatusToken::from_bytes(wire.as_slice()), t);
    }
}

#[test]
fn test_every_status_round_trips_through_code() {
    for t in all_status_tokens() {
        assert_eq!(StatusToken::from_http_code(t.to_http_code()), Some(t));
    }
}

#[test]
fn test_every_status_class_matches_code_range() {
    for t in all_status_tokens() {
        let code = t.to_http_code();
        let expected = match code / 100 {
            1 => StatusClass::Informational,
            2 => StatusClass::Success,
            3 => StatusClass::Redirect,
            4 => StatusClass::ClientError,
            _ => StatusClass::ServerError,
        };
        assert_eq!(t.class(), expected);
    }
}

#[test]
fn test_status_class_names() {
    assert_eq!(StatusClass::Informational.as_str(), "informational");
    assert_eq!(StatusClass::Success.as_str(), "success");
    assert_eq!(StatusClass::Redirect.as_str(), "redirect");
    assert_eq!(StatusClass::ClientError.as_str(), "client_error");
    assert_eq!(StatusClass::ServerError.as_str(), "server_error");
}

#[test]
fn test_status_lenient_default_even_near_misses() {
    // same length as a defined token, one byte off
    assert_eq!(
        StatusToken::from_bytes(b"not_fouxd"),
        StatusToken::InternalError
    );
    assert_eq!(StatusToken::from_bytes(b""), StatusToken::InternalError);
    // wire tokens are case-sensitive
    assert_eq!(StatusToken::from_bytes(b"OK"), StatusToken::InternalError);
}
