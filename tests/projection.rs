use rnet::error::{
    DISCONNECTED_MSG, EXHAUSTED_MSG, RACE_CONDITION_ERROR_MSG,
};
use rnet::{cascade, EngineFault, Error, ExceptionClass, Predicate};

fn fault(detail: &str) -> EngineFault {
    EngineFault {
        is_body: false,
        is_connect: false,
        is_connection_reset: false,
        is_decode: false,
        is_redirect: false,
        is_timeout: false,
        is_status: false,
        is_request: false,
        is_builder: false,
        detail: detail.to_string(),
    }
}

fn all_variants() -> Vec<Error> {
    vec![
        Error::MemoryError,
        Error::StopIteration,
        Error::StopAsyncIteration,
        Error::WebSocketDisconnect,
        Error::from(http::HeaderName::from_bytes(b"bad name").unwrap_err()),
        Error::from(http::HeaderValue::from_bytes(b"bad\nvalue").unwrap_err()),
        Error::from(url::ParseError::EmptyHost),
        Error::from(std::io::Error::new(std::io::ErrorKind::Other, "boom")),
        Error::from(fault("F")),
    ]
}

#[test]
fn every_variant_projects_to_a_class_with_a_message() {
    for e in all_variants() {
        let class = e.class();
        let p = e.project();
        assert_eq!(p.class, class);
        assert!(!p.message.is_empty());
    }
}

#[test]
fn usage_errors_have_fixed_classes_and_messages() {
    let p = Error::MemoryError.project();
    assert_eq!(p.class, ExceptionClass::BorrowingError);
    assert_eq!(p.message, RACE_CONDITION_ERROR_MSG);
    let p = Error::StopIteration.project();
    assert_eq!(p.class, ExceptionClass::StopIteration);
    assert_eq!(p.message, "The iterator is exhausted");
    let p = Error::StopAsyncIteration.project();
    assert_eq!(p.class, ExceptionClass::StopAsyncIteration);
    assert_eq!(p.message, EXHAUSTED_MSG);
    let p = Error::WebSocketDisconnect.project();
    assert_eq!(p.class, ExceptionClass::RuntimeError);
    assert_eq!(p.message, "The WebSocket has been disconnected");
    assert_eq!(p.message, DISCONNECTED_MSG);
    for e in [
        Error::MemoryError,
        Error::StopIteration,
        Error::StopAsyncIteration,
        Error::WebSocketDisconnect,
    ] {
        assert!(e.is_usage_error());
        assert!(!e.class().is_base_error());
        assert_eq!(e.message_with("ignored"), e.message_with(""));
    }
}

#[test]
fn url_parse_fault_renders_its_variant() {
    let p = Error::from(url::ParseError::EmptyHost).project();
    assert_eq!(p.class, ExceptionClass::URLParseError);
    assert_eq!(p.message, "URL parse error: EmptyHost");
    let p = Error::from(url::ParseError::InvalidPort).project();
    assert_eq!(p.message, "URL parse error: InvalidPort");
}

#[test]
fn header_faults_stay_apart() {
    let name = Error::from(http::HeaderName::from_bytes(b"bad name").unwrap_err());
    let value = Error::from(http::HeaderValue::from_bytes(b"bad\nvalue").unwrap_err());
    assert!(matches!(name, Error::InvalidHeaderName(_)));
    assert!(matches!(value, Error::InvalidHeaderValue(_)));
    let pn = name.project();
    let pv = value.project();
    assert_eq!(pn.class, ExceptionClass::RuntimeError);
    assert_eq!(pv.class, ExceptionClass::RuntimeError);
    assert_eq!(pn.message, "Invalid header name: InvalidHeaderName");
    assert_eq!(pv.message, "Invalid header value: InvalidHeaderValue");
    assert_ne!(pn.message, pv.message);
}

#[test]
fn io_fault_message_embeds_its_rendering() {
    let io = std::io::Error::new(std::io::ErrorKind::Other, "boom");
    let rendering = format!("{:?}", io);
    let p = Error::from(io).project();
    assert_eq!(p.class, ExceptionClass::RuntimeError);
    assert_eq!(p.message, format!("IO error: {}", rendering));
    assert!(p.message.contains("boom"));
}

#[test]
fn connect_precedes_timeout() {
    let mut f = fault("TimedOutConnect");
    f.is_connect = true;
    f.is_timeout = true;
    assert_eq!(f.matched(), Some(Predicate::Connect));
    assert_eq!(f.class(), ExceptionClass::ConnectionError);
    let p = Error::from(f).project();
    assert_eq!(p.class, ExceptionClass::ConnectionError);
    assert_eq!(p.message, "is_connect error: TimedOutConnect");
}

#[test]
fn body_precedes_every_other_predicate() {
    let f = EngineFault {
        is_body: true,
        is_connect: true,
        is_connection_reset: true,
        is_decode: true,
        is_redirect: true,
        is_timeout: true,
        is_status: true,
        is_request: true,
        is_builder: true,
        detail: "All".to_string(),
    };
    let p = Error::from(f).project();
    assert_eq!(p.class, ExceptionClass::BodyError);
    assert_eq!(p.message, "is_body error: All");
}

#[test]
fn each_predicate_alone_selects_its_class() {
    let cases = [
        (Predicate::Body, "is_body", ExceptionClass::BodyError),
        (Predicate::Connect, "is_connect", ExceptionClass::ConnectionError),
        (Predicate::ConnectionReset, "is_connection_reset", ExceptionClass::ConnectionError),
        (Predicate::Decode, "is_decode", ExceptionClass::DecodingError),
        (Predicate::Redirect, "is_redirect", ExceptionClass::RedirectError),
        (Predicate::Timeout, "is_timeout", ExceptionClass::TimeoutError),
        (Predicate::Status, "is_status", ExceptionClass::StatusError),
        (Predicate::Request, "is_request", ExceptionClass::RequestError),
        (Predicate::Builder, "is_builder", ExceptionClass::BuilderError),
    ];
    for (pred, name, class) in cases {
        let mut f = fault("D");
        match pred {
            Predicate::Body => f.is_body = true,
            Predicate::Connect => f.is_connect = true,
            Predicate::ConnectionReset => f.is_connection_reset = true,
            Predicate::Decode => f.is_decode = true,
            Predicate::Redirect => f.is_redirect = true,
            Predicate::Timeout => f.is_timeout = true,
            Predicate::Status => f.is_status = true,
            Predicate::Request => f.is_request = true,
            Predicate::Builder => f.is_builder = true,
        }
        assert!(f.holds(pred));
        assert_eq!(pred.name(), name);
        assert_eq!(pred.target(), class);
        assert!(class.is_base_error());
        let p = Error::from(f).project();
        assert_eq!(p.class, class);
        assert_eq!(p.message, format!("{} error: D", name));
    }
}

#[test]
fn unmatched_fault_falls_back_to_unknown() {
    let f = fault("Opaque");
    assert_eq!(f.matched(), None);
    let p = Error::from(f).project();
    assert_eq!(p.class, ExceptionClass::UnknownError);
    assert!(p.message.starts_with("Unknown error occurred:"));
    assert_eq!(p.message, "Unknown error occurred: Opaque");
}

#[test]
fn classification_is_deterministic() {
    let mut a = fault("A");
    a.is_redirect = true;
    a.is_status = true;
    let mut b = fault("A");
    b.is_redirect = true;
    b.is_status = true;
    assert_eq!(a.class(), b.class());
    assert_eq!(a.class(), ExceptionClass::RedirectError);
    let first = Error::from(a).project();
    let second = Error::from(b).project();
    assert_eq!(first.class, second.class);
    assert_eq!(first.message, second.message);
}

#[test]
fn cascade_lists_the_predicates_in_order() {
    assert_eq!(
        cascade(),
        vec![
            Predicate::Body,
            Predicate::Connect,
            Predicate::ConnectionReset,
            Predicate::Decode,
            Predicate::Redirect,
            Predicate::Timeout,
            Predicate::Status,
            Predicate::Request,
            Predicate::Builder,
        ]
    );
}

#[test]
fn projection_with_uses_the_given_rendering() {
    let e = Error::from(url::ParseError::Overflow);
    let p = e.projection_with("custom");
    assert_eq!(p.class, ExceptionClass::URLParseError);
    assert_eq!(p.message, "URL parse error: custom");
    let e = Error::from(std::io::Error::new(std::io::ErrorKind::NotFound, "x"));
    assert_eq!(e.message_with("Gone"), "IO error: Gone");
}

#[test]
fn base_error_membership() {
    assert!(ExceptionClass::BaseError.is_base_error());
    assert!(ExceptionClass::UnknownError.is_base_error());
    assert!(!ExceptionClass::BorrowingError.is_base_error());
    assert!(!ExceptionClass::DNSResolverError.is_base_error());
    assert!(!ExceptionClass::URLParseError.is_base_error());
    assert!(!ExceptionClass::RuntimeError.is_base_error());
}
