use siege::error::{HttpError, HttpErrorKind, SiegeError};

#[test]
fn siege_error_messages() {
    assert_eq!(SiegeError::TopicNotFound("a".into()).message(), "topic not found: a");
    assert_eq!(SiegeError::TopicAlreadyExists("a".into()).message(), "topic already exists: a");
    assert_eq!(SiegeError::KafkaError("x".into()).message(), "kafka error: x");
    assert_eq!(SiegeError::Internal("x".into()).message(), "internal error: x");
}

#[test]
fn http_errors_from_siege_errors() {
    let e = HttpError::from(SiegeError::TopicNotFound("a".into()));
    assert_eq!(e.kind, HttpErrorKind::NotFound);
    assert_eq!(e.status(), 404);
    assert_eq!(e.detail, "a");
    let e = HttpError::from(SiegeError::TopicAlreadyExists("a".into()));
    assert_eq!(e.status(), 409);
    let e = HttpError::from(SiegeError::KafkaError("k".into()));
    assert_eq!(e.status(), 502);
    assert_eq!(e.detail, "k");
    let e = HttpError::from(SiegeError::Internal("i".into()));
    assert_eq!(e.status(), 500);
}

#[test]
fn http_error_kinds() {
    assert_eq!(HttpErrorKind::NotFound.status(), 404);
    assert_eq!(HttpErrorKind::Conflict.status(), 409);
    assert_eq!(HttpErrorKind::BadGateway.status(), 502);
    assert_eq!(HttpErrorKind::Internal.status(), 500);
    assert_eq!(HttpError::conflict("c".into()).kind, HttpErrorKind::Conflict);
    assert_eq!(HttpError::bad_gateway("c".into()).status(), 502);
    assert_eq!(HttpError::internal("c".into()).status(), 500);
    assert_eq!(HttpError::not_found("c".into()).status(), 404);
}
