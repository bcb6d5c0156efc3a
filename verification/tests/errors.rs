use auth_validator::error::{
    ErrorMessage, HttpError, BAD_REQUEST, CONFLICT, FORBIDDEN, INTERNAL_SERVER_ERROR, UNAUTHORIZED,
};
use auth_validator::text::decimal_string;

#[test]
fn every_kind_has_its_message() {
    assert_eq!(ErrorMessage::EmptyPassword.to_str(), "Password cannot be empty");
    assert_eq!(ErrorMessage::InvalidHashFormat.to_str(), "Invalid password hash format");
    assert_eq!(
        ErrorMessage::HashingError.to_str(),
        "An error occurred while hashing the password"
    );
    assert_eq!(ErrorMessage::InvalidToken.to_str(), "Invalid token");
    assert_eq!(ErrorMessage::ServerError.to_str(), "An error occurred on the server");
    assert_eq!(ErrorMessage::WrongCredentials.to_str(), "Wrong credentials");
    assert_eq!(ErrorMessage::EmailExists.to_str(), "Email already exists");
    assert_eq!(ErrorMessage::UserNoLongerExists.to_str(), "User no longer exists");
    assert_eq!(ErrorMessage::TokenNotProvided.to_str(), "Token not provided");
    assert_eq!(ErrorMessage::PermissionDenied.to_str(), "Permission denied");
    assert_eq!(ErrorMessage::UserNotAuthenticated.to_str(), "User not authenticated");
}

#[test]
fn exceeded_length_message_names_the_limit() {
    assert_eq!(
        ErrorMessage::ExceededMaxPasswordLength(64).to_str(),
        "Password cannot be longer than 64 characters"
    );
    assert_eq!(
        ErrorMessage::ExceededMaxPasswordLength(0).to_str(),
        "Password cannot be longer than 0 characters"
    );
    assert_eq!(
        ErrorMessage::ExceededMaxPasswordLength(1005).to_str(),
        "Password cannot be longer than 1005 characters"
    );
}

#[test]
fn to_string_is_to_str() {
    assert_eq!(ErrorMessage::WrongCredentials.to_string(), "Wrong credentials");
    assert_eq!(
        ErrorMessage::ExceededMaxPasswordLength(64).to_string(),
        ErrorMessage::ExceededMaxPasswordLength(64).to_str()
    );
}

#[test]
fn decimal_string_writes_numbers() {
    assert_eq!(decimal_string(0), "0");
    assert_eq!(decimal_string(7), "7");
    assert_eq!(decimal_string(10), "10");
    assert_eq!(decimal_string(409), "409");
    assert_eq!(decimal_string(usize::MAX), usize::MAX.to_string());
}

#[test]
fn every_kind_has_its_status_class() {
    assert_eq!(ErrorMessage::EmptyPassword.status(), 400);
    assert_eq!(ErrorMessage::ExceededMaxPasswordLength(64).status(), 400);
    assert_eq!(ErrorMessage::InvalidHashFormat.status(), 500);
    assert_eq!(ErrorMessage::HashingError.status(), 500);
    assert_eq!(ErrorMessage::InvalidToken.status(), 401);
    assert_eq!(ErrorMessage::TokenNotProvided.status(), 401);
    assert_eq!(ErrorMessage::UserNoLongerExists.status(), 401);
    assert_eq!(ErrorMessage::UserNotAuthenticated.status(), 401);
    assert_eq!(ErrorMessage::WrongCredentials.status(), 400);
    assert_eq!(ErrorMessage::PermissionDenied.status(), 403);
    assert_eq!(ErrorMessage::EmailExists.status(), 409);
    assert_eq!(ErrorMessage::ServerError.status(), 500);
}

#[test]
fn constructors_set_the_status() {
    assert_eq!(HttpError::new("teapot", 418).status, 418);
    assert_eq!(HttpError::new("teapot", 418).message, "teapot");
    assert_eq!(HttpError::server_error("a").status, INTERNAL_SERVER_ERROR);
    assert_eq!(HttpError::bad_request("b").status, BAD_REQUEST);
    assert_eq!(HttpError::unquie_constraint_violation("c").status, CONFLICT);
    assert_eq!(HttpError::unauthorized("d").status, UNAUTHORIZED);
    assert_eq!(HttpError::unauthorized("d").message, "d");
    assert_eq!(FORBIDDEN, 403);
}

#[test]
fn from_kind_joins_message_and_class() {
    let e = HttpError::from_kind(&ErrorMessage::EmailExists);
    assert_eq!(e.status, 409);
    assert_eq!(e.message, "Email already exists");
    let e = HttpError::from_kind(&ErrorMessage::PermissionDenied);
    assert_eq!(e.status, 403);
    assert_eq!(e.message, "Permission denied");
}

#[test]
fn error_response_shows_the_status_line() {
    let body = HttpError::bad_request("Old password is incorrect").error_response();
    assert_eq!(body.status, "400 Bad Request");
    assert_eq!(body.message, "Old password is incorrect");
    let body = HttpError::unauthorized("Invalid token").error_response();
    assert_eq!(body.status, "401 Unauthorized");
    let body = HttpError::unquie_constraint_violation("x").error_response();
    assert_eq!(body.status, "409 Conflict");
    let body = HttpError::server_error("x").error_response();
    assert_eq!(body.status, "500 Internal Server Error");
}

#[test]
fn error_response_of_a_code_without_a_status_line() {
    let body = HttpError::new("odd", 42).error_response();
    assert_eq!(body.status, "42");
    let body = HttpError::new("odd", 1000).error_response();
    assert_eq!(body.status, "1000");
    let body = HttpError::new("odd", 999).error_response();
    assert_eq!(body.status, "999 <unknown status code>");
}

#[test]
fn describe_writes_message_and_status() {
    assert_eq!(
        HttpError::new("Permission denied", 403).describe(),
        "HttpError: message: Permission denied, status: 403 Forbidden"
    );
}
