use session_lock::error::{Error, Resp};

#[test]
fn error_codes_match_the_table() {
    assert_eq!(Error::InvalidParameter("x".to_string()).code(), 1001);
    assert_eq!(Error::NotFound("x".to_string()).code(), 1002);
    assert_eq!(Error::NotLogin.code(), 1003);
    assert_eq!(Error::Unauthorized("x".to_string()).code(), 1004);
    assert_eq!(Error::DatabaseError("x".to_string()).code(), 1005);
    assert_eq!(Error::RedisPoolError("x".to_string()).code(), 1006);
    assert_eq!(Error::RedisError("x".to_string()).code(), 1006);
    assert_eq!(Error::ExternalServiceError("x".to_string()).code(), 10010076);
    assert_eq!(Error::NetworkError("x".to_string()).code(), 10010087);
    assert_eq!(Error::IOError("x".to_string()).code(), 1009);
    assert_eq!(Error::AlreadyExists("x".to_string()).code(), 1010);
    assert_eq!(Error::InvalidState("x".to_string()).code(), 1011);
    assert_eq!(Error::InvalidDuration("x".to_string()).code(), 1012);
    assert_eq!(Error::Unknown("x".to_string()).code(), 1099);
}

#[test]
fn infrastructure_errors_are_logged() {
    assert!(Error::DatabaseError("x".to_string()).should_log());
    assert!(Error::RedisError("x".to_string()).should_log());
    assert!(Error::ExternalServiceError("x".to_string()).should_log());
    assert!(Error::NetworkError("x".to_string()).should_log());
    assert!(Error::IOError("x".to_string()).should_log());
    assert!(Error::Unknown("x".to_string()).should_log());
    assert!(!Error::NotLogin.should_log());
    assert!(!Error::AlreadyExists("x".to_string()).should_log());
    assert!(!Error::RedisPoolError("x".to_string()).should_log());
}

#[test]
fn only_business_conditions_are_exposed() {
    assert!(Error::InvalidParameter("x".to_string()).expose());
    assert!(Error::Unauthorized("x".to_string()).expose());
    assert!(Error::NotLogin.expose());
    assert!(Error::AlreadyExists("x".to_string()).expose());
    assert!(Error::InvalidState("x".to_string()).expose());
    assert!(Error::InvalidDuration("x".to_string()).expose());
    assert!(!Error::DatabaseError("x".to_string()).expose());
    assert!(!Error::RedisError("x".to_string()).expose());
    assert!(!Error::Unknown("x".to_string()).expose());
}

#[test]
fn response_envelopes() {
    let ok = Resp::success(5u32);
    assert_eq!(ok.code, 0);
    assert_eq!(ok.msg, "success");
    assert_eq!(ok.data, Some(5));

    let err = Resp::<u32>::error(1003, "not logged in".to_string());
    assert_eq!(err.code, 1003);
    assert_eq!(err.msg, "not logged in");
    assert_eq!(err.data, None);
}
