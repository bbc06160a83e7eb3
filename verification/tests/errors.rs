use latin_website::errors::AppError;

#[test]
fn status_codes() {
    assert_eq!(AppError::RecordAlreadyExists.status_code(), 400);
    assert_eq!(AppError::RecordNotFound.status_code(), 404);
    assert_eq!(AppError::BadPassword.status_code(), 401);
    assert_eq!(AppError::Unauthorized(String::from("x")).status_code(), 401);
    assert_eq!(AppError::DatabaseError(String::from("timeout")).status_code(), 418);
    assert_eq!(AppError::OperationCancelled.status_code(), 500);
    assert_eq!(AppError::Other.status_code(), 500);
    assert_eq!(
        AppError::HashingError(argon2::password_hash::Error::Password).status_code(),
        500
    );
}

#[test]
fn messages() {
    assert_eq!(
        AppError::RecordAlreadyExists.message(),
        "This record violates a unique constraint"
    );
    assert_eq!(AppError::RecordNotFound.message(), "This record does not exist");
    assert_eq!(
        AppError::OperationCancelled.message(),
        "The running operation was cancelled"
    );
    assert_eq!(AppError::BadPassword.message(), "Wrong password");
    assert_eq!(
        AppError::Unauthorized(String::from("Bad access token")).message(),
        "Unauthorized: Bad access token"
    );
    assert_eq!(
        AppError::DatabaseError(String::from("Timeout")).message(),
        "Database error: Timeout"
    );
    assert_eq!(AppError::Other.message(), "Internal server error");
}

#[test]
fn hashing_error_converts() {
    let e = AppError::from(argon2::password_hash::Error::Password);
    assert!(matches!(e, AppError::HashingError(argon2::password_hash::Error::Password)));
    assert_eq!(e.message(), "Internal server error");
    assert_eq!(e.status_code(), 500);
}

#[test]
fn token_error_converts() {
    let e = AppError::from(jwt_simple::Error::msg("bad signature"));
    assert!(matches!(e, AppError::TokenError(_)));
    assert_eq!(e.status_code(), 500);
    assert_eq!(e.message(), "Internal server error");
}

#[test]
fn header_conversion_error_converts() {
    let value = actix_web::http::header::HeaderValue::from_bytes(&[0x62, 0x80]).unwrap();
    let to_str_error = value.to_str().unwrap_err();
    let e = AppError::from(to_str_error);
    assert!(matches!(e, AppError::HeaderConversionError(_)));
    assert_eq!(e.status_code(), 500);
}

#[test]
fn error_reply_carries_status_and_message() {
    let reply = AppError::RecordNotFound.error_reply();
    assert_eq!(reply.status, 404);
    assert_eq!(reply.body.err, "This record does not exist");
    let reply = AppError::Unauthorized(String::from("No authorization header")).error_reply();
    assert_eq!(reply.status, 401);
    assert_eq!(reply.body.err, "Unauthorized: No authorization header");
}
