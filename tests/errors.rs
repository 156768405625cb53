use myapp::error::{AppError, ErrorReply, OptionExt};
use myapp::handlers::health::check;

fn reply(e: AppError) -> (u16, String) {
    let ErrorReply { status, message } = e.into_response();
    (status, message)
}

#[test]
fn each_kind_maps_to_its_status_and_message() {
    assert_eq!(reply(AppError::not_found("user")), (404, "user".to_string()));
    assert_eq!(reply(AppError::validation("bad email")), (400, "bad email".to_string()));
    assert_eq!(reply(AppError::Unauthorized), (401, "unauthorized".to_string()));
    assert_eq!(reply(AppError::Forbidden), (403, "forbidden".to_string()));
    assert_eq!(reply(AppError::conflict("email already exists")), (409, "email already exists".to_string()));
}

#[test]
fn internal_causes_are_withheld() {
    assert_eq!(reply(AppError::Internal("stack trace".to_string())), (500, "internal error".to_string()));
    assert_eq!(reply(AppError::Database("password auth failed".to_string())), (500, "internal error".to_string()));
    assert_eq!(AppError::Database("x".to_string()).status(), 500);
}

#[test]
fn absent_value_becomes_not_found() {
    let present: Option<u32> = Some(3);
    assert_eq!(present.or_not_found("user").unwrap(), 3);
    let absent: Option<u32> = None;
    assert!(matches!(absent.or_not_found("user"), Err(AppError::NotFound(m)) if m == "user"));
}

#[test]
fn health_is_ok() {
    assert_eq!(check(), "ok");
}
