use auth_validator::controllers::auth::{
    judge_credentials, login_reply, registration_of, store_registration, NewUser,
};
use auth_validator::controllers::signup::{enroll, hashed_or_refusal, token_or_refusal};
use auth_validator::controllers::user::{judge_old_password, new_hash_or_error};
use auth_validator::dtos::{email_outcome, RegisterUserDto, Rule};
use auth_validator::error::{ErrorMessage, HttpError};
use auth_validator::models::UserRole;
use auth_validator::password::{compared_or_error, hashed_or_error, Checked};
use auth_validator::store::Users;
use auth_validator::token::{signed_or_error, IssueError};

#[test]
fn a_failure_of_the_hasher_is_a_hashing_error() {
    assert_eq!(hashed_or_error(Some("$argon2id$x".to_string())), Ok("$argon2id$x".to_string()));
    assert_eq!(hashed_or_error(None), Err(ErrorMessage::HashingError));
}

#[test]
fn a_hash_that_does_not_parse_has_an_invalid_format() {
    assert_eq!(compared_or_error(Checked::Accepted), Ok(true));
    assert_eq!(compared_or_error(Checked::Rejected), Ok(false));
    assert_eq!(compared_or_error(Checked::Unparsed), Err(ErrorMessage::InvalidHashFormat));
    assert_eq!(compared_or_error(Checked::Failed), Err(ErrorMessage::HashingError));
}

#[test]
fn a_failure_of_the_signer_is_a_signing_failure() {
    assert_eq!(signed_or_error::<u8>(Ok("a.b.c".to_string())), Ok("a.b.c".to_string()));
    assert_eq!(signed_or_error(Err(1u8)), Err(IssueError::SigningFailed));
}

#[test]
fn the_status_label_is_the_line_or_the_number() {
    assert_eq!(HttpError::status_label(Some("404 Not Found".to_string()), 404), "404 Not Found");
    assert_eq!(HttpError::status_label(None, 404), "404");
    assert_eq!(HttpError::status_label(None, 0), "0");
    assert_eq!(HttpError::status_label(None, 65535), "65535");
}

#[test]
fn the_rule_on_addresses_goes_by_the_answer() {
    assert!(email_outcome(true, "email", "Email is invalid").is_none());
    let violation = email_outcome(false, "email", "Email is invalid").unwrap();
    assert_eq!(violation.field, "email");
    assert_eq!(violation.rule, Rule::Email);
    assert_eq!(violation.message, Some("Email is invalid"));
    assert_eq!(violation.range, None);
}

#[test]
fn signup_steps_name_their_failures() {
    assert_eq!(hashed_or_refusal(Ok("hash".to_string())).unwrap(), "hash");
    let (status, body) = hashed_or_refusal(Err(ErrorMessage::HashingError)).unwrap_err();
    assert_eq!(status, 500);
    assert_eq!(body.error, "An error occurred while hashing the password");
    let (status, body) = hashed_or_refusal(Err(ErrorMessage::EmptyPassword)).unwrap_err();
    assert_eq!(status, 400);
    assert_eq!(body.error, "Password cannot be empty");
    let (status, body) =
        hashed_or_refusal(Err(ErrorMessage::ExceededMaxPasswordLength(64))).unwrap_err();
    assert_eq!(status, 400);
    assert_eq!(body.error, "Password cannot be longer than 64 characters");
    assert_eq!(token_or_refusal(Ok("a.b.c".to_string())).unwrap(), "a.b.c");
    let (status, body) = token_or_refusal(Err(IssueError::SigningFailed)).unwrap_err();
    assert_eq!(status, 500);
    assert_eq!(body.error, "Failed to create token");
    let (status, body) = token_or_refusal(Err(IssueError::ExpiryOutOfRange)).unwrap_err();
    assert_eq!(status, 500);
    assert_eq!(body.error, "Failed to create token");
}

#[test]
fn enroll_writes_the_record_once() {
    let mut users = Users::new();
    let reply = enroll(
        &mut users,
        "a@x.com",
        "id-1".to_string(),
        "hash-1".to_string(),
        "tok-1".to_string(),
        42,
    )
    .unwrap();
    assert_eq!(reply.token, "tok-1");
    assert_eq!(reply.user.id, "id-1");
    assert_eq!(reply.user.email, "a@x.com");
    let user = users.find_by_id("id-1").unwrap();
    assert_eq!(user.email, "a@x.com");
    assert_eq!(user.password, "hash-1");
    assert_eq!(user.name, "");
    assert_eq!(user.role, UserRole::User);
    assert!(!user.verified);
    assert_eq!(user.created_at, Some(42));
    assert_eq!(user.updated_at, Some(42));

    let (status, body) = enroll(
        &mut users,
        "a@x.com",
        "id-2".to_string(),
        "hash-2".to_string(),
        "tok-2".to_string(),
        43,
    )
    .unwrap_err();
    assert_eq!(status, 409);
    assert_eq!(body.error, "Email already exists");
    assert_eq!(users.len(), 1);
    assert!(users.find_by_id("id-2").is_none());
}

fn body() -> RegisterUserDto {
    RegisterUserDto {
        name: "Ann".to_string(),
        email: "a@x.com".to_string(),
        password: "password1".to_string(),
        password_confirm: "password1".to_string(),
    }
}

#[test]
fn registration_of_joins_request_and_hash() {
    let new = registration_of(&body(), Ok("the-hash".to_string())).unwrap();
    assert_eq!(new.name, "Ann");
    assert_eq!(new.email, "a@x.com");
    assert_eq!(new.password, "the-hash");
    let failed = registration_of(&body(), Err(ErrorMessage::HashingError)).unwrap_err();
    assert_eq!(failed.status, 500);
    assert_eq!(failed.message, "An error occurred while hashing the password");
    let empty = registration_of(&body(), Err(ErrorMessage::EmptyPassword)).unwrap_err();
    assert_eq!(empty.status, 400);
}

#[test]
fn store_registration_writes_or_reports_the_conflict() {
    let mut users = Users::new();
    let new = NewUser {
        name: "Ann".to_string(),
        email: "a@x.com".to_string(),
        password: "the-hash".to_string(),
    };
    let reply = store_registration(&mut users, &new, "id-1".to_string(), 7).unwrap();
    assert_eq!(reply.status, "success");
    let user = users.find_by_email("a@x.com").unwrap();
    assert_eq!(user.id, "id-1");
    assert_eq!(user.name, "Ann");
    assert_eq!(user.password, "the-hash");
    assert_eq!(user.role, UserRole::User);
    assert!(!user.verified);
    assert_eq!(user.created_at, Some(7));
    let conflict = store_registration(&mut users, &new, "id-2".to_string(), 8).unwrap_err();
    assert_eq!(conflict.status, 409);
    assert_eq!(conflict.message, "Email already exists");
    assert_eq!(users.len(), 1);
}

#[test]
fn only_an_accepted_password_logs_in() {
    assert!(judge_credentials(Some(Ok(true))).is_ok());
    for compared in [
        None,
        Some(Ok(false)),
        Some(Err(ErrorMessage::InvalidHashFormat)),
        Some(Err(ErrorMessage::EmptyPassword)),
        Some(Err(ErrorMessage::ExceededMaxPasswordLength(64))),
    ] {
        let refused = judge_credentials(compared).unwrap_err();
        assert_eq!(refused.status, 400);
        assert_eq!(refused.message, "Wrong credentials");
    }
}

#[test]
fn login_reply_carries_the_token() {
    let reply = login_reply(Ok("a.b.c".to_string())).unwrap();
    assert_eq!(reply.status, "success");
    assert_eq!(reply.token, "a.b.c");
    let failed = login_reply(Err(IssueError::SigningFailed)).unwrap_err();
    assert_eq!(failed.status, 500);
    assert_eq!(failed.message, "An error occurred on the server");
}

#[test]
fn the_old_password_is_judged() {
    assert!(judge_old_password(Ok(true)).is_ok());
    let wrong = judge_old_password(Ok(false)).unwrap_err();
    assert_eq!(wrong.status, 400);
    assert_eq!(wrong.message, "Old password is incorrect");
    let broken = judge_old_password(Err(ErrorMessage::InvalidHashFormat)).unwrap_err();
    assert_eq!(broken.status, 500);
    assert_eq!(broken.message, "Invalid password hash format");
    let long = judge_old_password(Err(ErrorMessage::ExceededMaxPasswordLength(64))).unwrap_err();
    assert_eq!(long.status, 400);
}

#[test]
fn the_new_hash_is_passed_on() {
    assert_eq!(new_hash_or_error(Ok("h".to_string())).unwrap(), "h");
    let failed = new_hash_or_error(Err(ErrorMessage::HashingError)).unwrap_err();
    assert_eq!(failed.status, 500);
    assert_eq!(failed.message, "An error occurred while hashing the password");
}
