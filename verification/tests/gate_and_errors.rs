use todo_backend::auth::api_key_middleware;
use todo_backend::errors::AppError;

#[test]
fn preflight_allows_missing_key() {
    let r = api_key_middleware(true, None);
    assert!(r.is_ok());
}

#[test]
fn preflight_allows_wrong_key() {
    let bad = String::from("not the secret");
    let r = api_key_middleware(true, Some(&bad));
    assert!(r.is_ok());
}

#[test]
fn correct_key_allowed() {
    let key = String::from("supersecret123");
    let r = api_key_middleware(false, Some(&key));
    assert!(r.is_ok());
}

#[test]
fn missing_key_rejected_with_401() {
    let r = api_key_middleware(false, None);
    let err = r.err().expect("gate must reject a missing key");
    let (status, body) = err.into_response();
    assert_eq!(status, 401);
    assert_eq!(body.msg, "Invalid API key");
}

#[test]
fn wrong_key_rejected_with_401() {
    let bad = String::from("supersecret124");
    let r = api_key_middleware(false, Some(&bad));
    let err = r.err().expect("gate must reject a wrong key");
    let (status, body) = err.into_response();
    assert_eq!(status, 401);
    assert_eq!(body.msg, "Invalid API key");
}

#[test]
fn key_check_is_case_sensitive() {
    let bad = String::from("Supersecret123");
    let r = api_key_middleware(false, Some(&bad));
    assert!(r.is_err());
}

#[test]
fn error_taxonomy_maps_to_statuses() {
    let (status, body) = AppError::BadRequest(String::from("bad")).into_response();
    assert_eq!((status, body.msg.as_str()), (400, "bad"));
    let (status, body) = AppError::Unauthorized(String::from("halt")).into_response();
    assert_eq!((status, body.msg.as_str()), (401, "halt"));
    let (status, body) = AppError::NotFound(String::from("gone")).into_response();
    assert_eq!((status, body.msg.as_str()), (404, "gone"));
    let (status, body) = AppError::InternalError(String::from("boom")).into_response();
    assert_eq!((status, body.msg.as_str()), (500, "boom"));
}
