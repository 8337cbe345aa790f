use tempo::api_error::{Error, TempoError};
use tempo::extract::{jsonapi_content_type, names_equal, ClaimsError, JsonError};

#[test]
fn errors_have_their_statuses() {
    assert_eq!(Error::NotFound(None).status(), 404);
    assert_eq!(Error::NotModified.status(), 304);
    assert_eq!(Error::Unauthorized(None).status(), 401);
    assert_eq!(Error::BadRequest(None).status(), 400);
    assert_eq!(Error::DbErr("x".to_string()).status(), 500);
    assert_eq!(Error::NoTrackPath.status(), 500);
    assert_eq!(TempoError::BadRequest(Some("why".to_string())).status(), 400);
    assert_eq!(TempoError::Search("s".to_string()).status(), 500);
}

#[test]
fn errors_are_sent_with_title_and_detail() {
    let e = Error::BadRequest(Some("Path is not relative".to_string())).to_serializable();
    assert_eq!(e.status, 400);
    assert_eq!(e.title, "Bad request");
    assert_eq!(e.detail.as_deref(), Some("Path is not relative"));
    let e = Error::Settings("missing file".to_string()).to_serializable();
    assert_eq!(e.title, "Could not read settings: missing file");
    assert_eq!(e.detail, None);
    let e = TempoError::DbErr("down".to_string()).to_serializable();
    assert_eq!(e.title, "Database error");
    assert_eq!(e.detail.as_deref(), Some("down"));
    assert_eq!(TempoError::NoTrackFormat.title(), "Track does not have an associated format");
}

#[test]
fn only_jsonapi_bodies_are_read() {
    assert!(jsonapi_content_type(Some("application/vnd.api+json")));
    assert!(jsonapi_content_type(Some("Application/VND.API+JSON; charset=utf-8")));
    assert!(!jsonapi_content_type(Some("application/json")));
    assert!(!jsonapi_content_type(Some("application/vnd.api")));
    assert!(!jsonapi_content_type(Some("not a media type")));
    assert!(!jsonapi_content_type(None));
    assert!(names_equal("Json", "jSON"));
    assert!(!names_equal("json", "jsox"));
}

#[test]
fn refused_bodies_and_tokens_are_answered() {
    assert_eq!(JsonError::Mime.status(), 400);
    assert_eq!(JsonError::Io.status(), 500);
    assert_eq!(JsonError::Syntax("$.data".to_string()).message(), "Invalid JSON syntax: $.data");
    let e = JsonError::Data("bad".to_string()).to_serializable();
    assert_eq!(e.title, "Could not parse JSON request body");
    assert_eq!(e.detail.as_deref(), Some("Invalid JSON structure: bad"));
    let e = ClaimsError::Missing.to_serializable();
    assert_eq!(e.status, 401);
    assert_eq!(e.detail.as_deref(), Some("No Authorization header or query parameter found"));
    assert_eq!(ClaimsError::Settings("s".to_string()).to_serializable().status, 500);
}
