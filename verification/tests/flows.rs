use auth_validator::controllers::auth::{
    login, login_with, prepare_registration, register, registration_reply, REGISTERED, SUCCESS,
};
use auth_validator::controllers::signup::{signup, AuthRequest};
use auth_validator::controllers::user::{
    get_me, get_users, page_request, password_change, update_user_name, update_user_password,
    update_user_role, user_reply, users_reply, DEFAULT_LIMIT, DEFAULT_PAGE,
};
use auth_validator::dtos::{
    LoginUserDto, NameUpdateDto, RegisterUserDto, RequestQueryDto, RoleUpdateDto,
    UserPasswordUpdateDto,
};
use auth_validator::error::ErrorMessage;
use auth_validator::middleware::{resolve, JWTAuthMiddleware};
use auth_validator::models::{User, UserRole};
use auth_validator::password::{compare, hash_password};
use auth_validator::routes::{find_route, guard, Endpoint, Method};
use auth_validator::store::Users;
use auth_validator::token::{Claims, TokenService};

fn service() -> TokenService {
    TokenService::new(b"a-secret-for-tests", 3600).unwrap()
}

fn registration(email: &str, password: &str) -> RegisterUserDto {
    RegisterUserDto {
        name: "Ann".to_string(),
        email: email.to_string(),
        password: password.to_string(),
        password_confirm: password.to_string(),
    }
}

fn credentials(email: &str, password: &str) -> LoginUserDto {
    LoginUserDto { email: email.to_string(), password: password.to_string() }
}

fn stored(id: &str, email: &str, password_hash: &str, role: UserRole) -> User {
    User {
        id: id.to_string(),
        name: "Ann".to_string(),
        email: email.to_string(),
        password: password_hash.to_string(),
        role,
        verified: false,
        created_at: Some(10),
        updated_at: Some(10),
    }
}

fn context_of(user: &User) -> JWTAuthMiddleware {
    JWTAuthMiddleware {
        user: user.clone(),
        claims: Claims { sub: user.id.clone(), email: user.email.clone(), exp: 4_000_000_000 },
    }
}

#[test]
fn register_login_and_me_end_to_end() {
    let service = service();
    let mut users = Users::new();

    let reply = register(&mut users, &registration("a@x.com", "password1")).unwrap();
    assert_eq!(reply.status, "success");
    assert_eq!(users.len(), 1);

    let again = register(&mut users, &registration("a@x.com", "password1")).unwrap_err();
    assert_eq!(again.message, ErrorMessage::EmailExists.to_str());
    assert_eq!(again.status, 409);
    assert_eq!(users.len(), 1);

    let logged_in = login(&users, &service, &credentials("a@x.com", "password1")).unwrap();
    assert_eq!(logged_in.status, "success");
    assert!(!logged_in.token.is_empty());

    let refused = login(&users, &service, &credentials("a@x.com", "wrong")).unwrap_err();
    assert_eq!(refused.message, ErrorMessage::WrongCredentials.to_str());
    let unknown = login(&users, &service, &credentials("b@x.com", "password1")).unwrap_err();
    assert_eq!(unknown.message, refused.message);
    assert_eq!(unknown.status, refused.status);

    let header = format!("Bearer {}", logged_in.token);
    let context = guard(Endpoint::Me, &service, &users, Some(&header)).unwrap().unwrap();
    let me = get_me(&context);
    assert_eq!(me.status, "success");
    assert_eq!(me.user.user.email, "a@x.com");
    assert_eq!(me.user.user.name, "Ann");
    assert_eq!(me.user.user.role, "user");
    assert!(!me.user.user.verified);

    let no_header = guard(Endpoint::Me, &service, &users, None).unwrap_err();
    assert_eq!(no_header.status, 401);
    assert_eq!(no_header.message, "Token not provided");
}

#[test]
fn registration_writes_a_user_that_is_not_verified() {
    let mut users = Users::new();
    register(&mut users, &registration("a@x.com", "password1")).unwrap();
    let user = users.find_by_email("a@x.com").unwrap();
    assert_eq!(user.role, UserRole::User);
    assert!(!user.verified);
    assert_eq!(user.name, "Ann");
    assert_eq!(user.id.len(), 36);
    assert_ne!(user.password, "password1");
    assert_eq!(compare("password1", &user.password), Ok(true));
    assert!(user.created_at.is_some());
    assert_eq!(user.created_at, user.updated_at);
}

#[test]
fn registration_with_an_empty_password_writes_nothing() {
    let mut users = Users::new();
    let refused = register(&mut users, &registration("a@x.com", "")).unwrap_err();
    assert_eq!(refused.status, 400);
    assert_eq!(refused.message, "Password cannot be empty");
    assert_eq!(users.len(), 0);
}

#[test]
fn registration_with_a_password_too_long_to_hash_is_a_bad_request() {
    let long = "a".repeat(65);
    let refused = prepare_registration(&registration("a@x.com", &long)).unwrap_err();
    assert_eq!(refused.status, 400);
    assert_eq!(refused.message, "Password cannot be longer than 64 characters");
}

#[test]
fn prepared_registration_holds_a_hash() {
    let new = prepare_registration(&registration("a@x.com", "password1")).unwrap();
    assert_eq!(new.name, "Ann");
    assert_eq!(new.email, "a@x.com");
    assert_eq!(compare("password1", &new.password), Ok(true));
}

#[test]
fn registration_reply_reports_what_the_store_said() {
    let reply = registration_reply(Ok(())).unwrap();
    assert_eq!(reply.status, SUCCESS);
    assert_eq!(reply.message, REGISTERED);
    let conflict = registration_reply(Err(ErrorMessage::EmailExists)).unwrap_err();
    assert_eq!(conflict.status, 409);
    assert_eq!(conflict.message, "Email already exists");
    let failure = registration_reply(Err(ErrorMessage::ServerError)).unwrap_err();
    assert_eq!(failure.status, 500);
}

#[test]
fn login_does_not_tell_a_missing_account_from_a_wrong_password() {
    let service = service();
    let hash = hash_password("password1").unwrap();
    let user = stored("u1", "a@x.com", &hash, UserRole::User);
    let missing = login_with(&service, &credentials("b@x.com", "password1"), None).unwrap_err();
    let wrong = login_with(&service, &credentials("a@x.com", "password2"), Some(&user)).unwrap_err();
    assert_eq!(missing.message, wrong.message);
    assert_eq!(missing.status, wrong.status);
    assert_eq!(missing.message, "Wrong credentials");
    assert_eq!(missing.status, 400);
}

#[test]
fn login_with_a_stored_hash_that_is_none_is_wrong_credentials() {
    let user = stored("u1", "a@x.com", "not a hash", UserRole::User);
    let refused =
        login_with(&service(), &credentials("a@x.com", "password1"), Some(&user)).unwrap_err();
    assert_eq!(refused.message, "Wrong credentials");
}

#[test]
fn login_with_a_password_that_cannot_be_compared_is_wrong_credentials() {
    let hash = hash_password("password1").unwrap();
    let user = stored("u1", "a@x.com", &hash, UserRole::User);
    let empty = login_with(&service(), &credentials("a@x.com", ""), Some(&user)).unwrap_err();
    assert_eq!(empty.message, "Wrong credentials");
    let long = "p".repeat(65);
    let too_long = login_with(&service(), &credentials("a@x.com", &long), Some(&user)).unwrap_err();
    assert_eq!(too_long.message, "Wrong credentials");
}

#[test]
fn login_issues_a_token_for_the_identity() {
    let service = service();
    let hash = hash_password("password1").unwrap();
    let user = stored("u1", "a@x.com", &hash, UserRole::Admin);
    let reply = login_with(&service, &credentials("a@x.com", "password1"), Some(&user)).unwrap();
    let claims = service.verify(&reply.token).unwrap();
    assert_eq!(claims.sub, "u1");
    assert_eq!(claims.email, "a@x.com");
}

#[test]
fn signup_writes_an_identity_and_issues_a_token() {
    let service = service();
    let mut users = Users::new();
    let req = AuthRequest { email: "a@x.com".to_string(), password: "pw".to_string() };
    let reply = signup(&mut users, &service, &req).unwrap();
    assert_eq!(reply.user.email, "a@x.com");
    assert_eq!(reply.user.id.len(), 36);
    let claims = service.verify(&reply.token).unwrap();
    assert_eq!(claims.sub, reply.user.id);
    assert_eq!(claims.email, "a@x.com");
    let user = users.find_by_id(&reply.user.id).unwrap();
    assert_eq!(user.email, "a@x.com");
    assert_ne!(user.password, "pw");
    assert!(user.password.starts_with("$argon2id$"));
    assert_eq!(compare("pw", &user.password), Ok(true));
    assert_eq!(compare("pw2", &user.password), Ok(false));
    assert_eq!(user.role, UserRole::User);
    assert!(!user.verified);
    assert_eq!(user.name, "");
    assert_eq!(users.len(), 1);
}

#[test]
fn signup_refuses_an_address_in_use() {
    let service = service();
    let mut users = Users::new();
    users.save(stored("u1", "a@x.com", "hash", UserRole::User), 1).unwrap();
    let req = AuthRequest { email: "a@x.com".to_string(), password: "pw".to_string() };
    let (status, body) = signup(&mut users, &service, &req).unwrap_err();
    assert_eq!(status, 409);
    assert_eq!(body.error, "Email already exists");
    assert_eq!(users.len(), 1);
}

#[test]
fn signup_twice_is_a_conflict() {
    let service = service();
    let mut users = Users::new();
    let req = AuthRequest { email: "a@x.com".to_string(), password: "password1".to_string() };
    assert!(signup(&mut users, &service, &req).is_ok());
    let (status, body) = signup(&mut users, &service, &req).unwrap_err();
    assert_eq!(status, 409);
    assert_eq!(body.error, ErrorMessage::EmailExists.to_str());
    assert_eq!(users.len(), 1);
}

#[test]
fn signup_refuses_a_password_of_no_or_too_great_a_length() {
    let service = service();
    let mut users = Users::new();
    let empty = AuthRequest { email: "a@x.com".to_string(), password: "".to_string() };
    let (status, body) = signup(&mut users, &service, &empty).unwrap_err();
    assert_eq!(status, 400);
    assert_eq!(body.error, "Password cannot be empty");
    let long = AuthRequest { email: "a@x.com".to_string(), password: "a".repeat(65) };
    let (status, body) = signup(&mut users, &service, &long).unwrap_err();
    assert_eq!(status, 400);
    assert_eq!(body.error, "Password cannot be longer than 64 characters");
    assert_eq!(users.len(), 0);
    let longest = AuthRequest { email: "a@x.com".to_string(), password: "a".repeat(64) };
    assert!(signup(&mut users, &service, &longest).is_ok());
    assert_eq!(users.len(), 1);
}

#[test]
fn signup_for_an_address_in_use_is_a_conflict_whatever_the_password() {
    let service = service();
    let mut users = Users::new();
    users.save(stored("u1", "a@x.com", "hash", UserRole::User), 1).unwrap();
    let req = AuthRequest { email: "a@x.com".to_string(), password: "".to_string() };
    let (status, _) = signup(&mut users, &service, &req).unwrap_err();
    assert_eq!(status, 409);
}

#[test]
fn signup_reports_a_token_that_cannot_be_issued() {
    let far = TokenService::new(b"k", i64::MAX).unwrap();
    let mut users = Users::new();
    let req = AuthRequest { email: "a@x.com".to_string(), password: "pw".to_string() };
    let (status, body) = signup(&mut users, &far, &req).unwrap_err();
    assert_eq!(status, 500);
    assert_eq!(body.error, "Failed to create token");
    assert_eq!(users.len(), 0);
}

#[test]
fn me_shows_the_caller() {
    let user = stored("u1", "a@x.com", "hash", UserRole::Admin);
    let reply = get_me(&context_of(&user));
    assert_eq!(reply.status, "success");
    assert_eq!(reply.user.user.id, "u1");
    assert_eq!(reply.user.user.role, "admin");
    assert_eq!(reply.user.user.created_at, 10);
    assert_eq!(user_reply(&user).user.user.email, "a@x.com");
}

#[test]
fn page_request_fills_in_the_defaults() {
    assert_eq!(page_request(&RequestQueryDto { page: None, limit: None }).unwrap(), (1, 10));
    assert_eq!(
        page_request(&RequestQueryDto { page: Some(3), limit: None }).unwrap(),
        (3, DEFAULT_LIMIT)
    );
    assert_eq!(
        page_request(&RequestQueryDto { page: None, limit: Some(50) }).unwrap(),
        (DEFAULT_PAGE, 50)
    );
    let refused = page_request(&RequestQueryDto { page: Some(0), limit: None }).unwrap_err();
    assert_eq!(refused.status, 400);
    assert_eq!(
        refused.message,
        "page: Validation error: range [{\"min\": Number(1), \"value\": Number(0)}]"
    );
}

#[test]
fn users_are_listed_by_page() {
    let mut users = Users::new();
    for i in 0..12 {
        users
            .save(stored(&format!("u{}", i), &format!("{}@x.com", i), "hash", UserRole::User), i)
            .unwrap();
    }
    let first = get_users(&users, &RequestQueryDto { page: None, limit: None }).unwrap();
    assert_eq!(first.status, "success");
    assert_eq!(first.result, 12);
    assert_eq!(first.users.len(), 10);
    assert_eq!(first.users[0].id, "u0");
    let second = get_users(&users, &RequestQueryDto { page: Some(2), limit: None }).unwrap();
    assert_eq!(second.users.len(), 2);
    assert_eq!(second.users[1].id, "u11");
    assert_eq!(second.result, 12);
    let refused = get_users(&users, &RequestQueryDto { page: None, limit: Some(51) }).unwrap_err();
    assert_eq!(refused.status, 400);
    let reply = users_reply(&Vec::new(), 5);
    assert_eq!(reply.result, 5);
    assert!(reply.users.is_empty());
}

#[test]
fn the_name_is_changed() {
    let mut users = Users::new();
    users.save(stored("u1", "a@x.com", "hash", UserRole::User), 1).unwrap();
    let context = context_of(users.find_by_id("u1").unwrap());
    let reply =
        update_user_name(&mut users, &context, &NameUpdateDto { name: "Bob".to_string() }).unwrap();
    assert_eq!(reply.user.user.name, "Bob");
    assert_eq!(reply.user.user.id, "u1");
    assert_eq!(users.find_by_id("u1").unwrap().name, "Bob");
    let refused =
        update_user_name(&mut users, &context, &NameUpdateDto { name: "".to_string() }).unwrap_err();
    assert_eq!(refused.status, 400);
    assert_eq!(refused.message, "name: Name is required");
    assert_eq!(users.find_by_id("u1").unwrap().name, "Bob");
}

#[test]
fn a_change_for_a_caller_that_is_gone_is_a_server_error() {
    let mut users = Users::new();
    let gone = stored("u1", "a@x.com", "hash", UserRole::User);
    let context = context_of(&gone);
    let refused =
        update_user_name(&mut users, &context, &NameUpdateDto { name: "Bob".to_string() })
            .unwrap_err();
    assert_eq!(refused.status, 500);
    let refused =
        update_user_role(&mut users, &context, &RoleUpdateDto { role: UserRole::Admin }).unwrap_err();
    assert_eq!(refused.status, 500);
}

#[test]
fn the_role_is_changed() {
    let mut users = Users::new();
    users.save(stored("u1", "a@x.com", "hash", UserRole::User), 1).unwrap();
    let context = context_of(users.find_by_id("u1").unwrap());
    let reply =
        update_user_role(&mut users, &context, &RoleUpdateDto { role: UserRole::Admin }).unwrap();
    assert_eq!(reply.user.user.role, "admin");
    assert_eq!(users.find_by_id("u1").unwrap().role, UserRole::Admin);
}

fn change(old: &str, new: &str) -> UserPasswordUpdateDto {
    UserPasswordUpdateDto {
        new_password: new.to_string(),
        new_password_confirm: new.to_string(),
        old_password: old.to_string(),
    }
}

#[test]
fn the_password_is_changed_after_the_old_one_was_verified() {
    let mut users = Users::new();
    let hash = hash_password("old-password").unwrap();
    users.save(stored("u1", "a@x.com", &hash, UserRole::User), 1).unwrap();
    let context = context_of(users.find_by_id("u1").unwrap());
    let reply =
        update_user_password(&mut users, &context, &change("old-password", "new-password"))
            .unwrap();
    assert_eq!(reply.status, "success");
    assert_eq!(reply.message, "Password updated Successfully");
    let stored_hash = users.find_by_id("u1").unwrap().password.clone();
    assert_ne!(stored_hash, hash);
    assert_eq!(compare("new-password", &stored_hash), Ok(true));
    assert_eq!(compare("old-password", &stored_hash), Ok(false));
}

#[test]
fn a_wrong_old_password_changes_nothing() {
    let mut users = Users::new();
    let hash = hash_password("old-password").unwrap();
    users.save(stored("u1", "a@x.com", &hash, UserRole::User), 1).unwrap();
    let context = context_of(users.find_by_id("u1").unwrap());
    let refused =
        update_user_password(&mut users, &context, &change("not-the-old", "new-password"))
            .unwrap_err();
    assert_eq!(refused.status, 400);
    assert_eq!(refused.message, "Old password is incorrect");
    assert_eq!(users.find_by_id("u1").unwrap().password, hash);
}

#[test]
fn password_change_decides_in_order() {
    let hash = hash_password("old-password").unwrap();
    let user = stored("u1", "a@x.com", &hash, UserRole::User);
    let rules = password_change(&change("short", "new-password"), Some(&user)).unwrap_err();
    assert_eq!(rules.status, 400);
    assert_eq!(rules.message, "old_password: Password must be at least 8 characters");
    let gone = password_change(&change("old-password", "new-password"), None).unwrap_err();
    assert_eq!(gone.status, 401);
    assert_eq!(gone.message, "Invalid token");
    let corrupt = stored("u1", "a@x.com", "not a hash", UserRole::User);
    let broken = password_change(&change("old-password", "new-password"), Some(&corrupt)).unwrap_err();
    assert_eq!(broken.status, 500);
    assert_eq!(broken.message, "Invalid password hash format");
    let long = "n".repeat(65);
    let too_long = password_change(&change("old-password", &long), Some(&user)).unwrap_err();
    assert_eq!(too_long.status, 400);
    assert_eq!(too_long.message, "Password cannot be longer than 64 characters");
    let new_hash = password_change(&change("old-password", "new-password"), Some(&user)).unwrap();
    assert_eq!(compare("new-password", &new_hash), Ok(true));
}

#[test]
fn requests_are_routed_by_method_and_path() {
    assert_eq!(find_route(Method::Post, "/api/auth/register"), Some(Endpoint::Register));
    assert_eq!(find_route(Method::Post, "/api/auth/login"), Some(Endpoint::Login));
    assert_eq!(find_route(Method::Get, "/api/auth/verify"), Some(Endpoint::VerifyEmail));
    assert_eq!(
        find_route(Method::Post, "/api/auth/forgot-password"),
        Some(Endpoint::ForgotPassword)
    );
    assert_eq!(find_route(Method::Post, "/api/auth/reset-password"), Some(Endpoint::ResetPassword));
    assert_eq!(find_route(Method::Get, "/api/users/me"), Some(Endpoint::Me));
    assert_eq!(find_route(Method::Get, "/api/users/users"), Some(Endpoint::Users));
    assert_eq!(find_route(Method::Put, "/api/users/name"), Some(Endpoint::Name));
    assert_eq!(find_route(Method::Put, "/api/users/role"), Some(Endpoint::Role));
    assert_eq!(find_route(Method::Put, "/api/users/password"), Some(Endpoint::Password));
    assert_eq!(find_route(Method::Get, "/api/auth/login"), None);
    assert_eq!(find_route(Method::Put, "/api/users/me"), None);
    assert_eq!(find_route(Method::Get, "/api/users"), None);
    assert_eq!(find_route(Method::Get, ""), None);
    assert_eq!(Endpoint::Me.path(), "/api/users/me");
    assert_eq!(Endpoint::Me.method(), Method::Get);
}

#[test]
fn endpoints_name_their_roles() {
    assert_eq!(Endpoint::Register.allowed_roles(), None);
    assert_eq!(Endpoint::Login.allowed_roles(), None);
    assert_eq!(Endpoint::VerifyEmail.allowed_roles(), None);
    assert_eq!(Endpoint::ForgotPassword.allowed_roles(), None);
    assert_eq!(Endpoint::ResetPassword.allowed_roles(), None);
    assert_eq!(Endpoint::Me.allowed_roles(), Some(vec![UserRole::Admin, UserRole::User]));
    assert_eq!(Endpoint::Name.allowed_roles(), Some(vec![UserRole::Admin, UserRole::User]));
    assert_eq!(Endpoint::Password.allowed_roles(), Some(vec![UserRole::Admin, UserRole::User]));
    assert_eq!(Endpoint::Users.allowed_roles(), Some(vec![UserRole::Admin]));
    assert_eq!(Endpoint::Role.allowed_roles(), Some(vec![UserRole::Admin]));
}

#[test]
fn the_guard_holds_the_role_against_the_endpoint() {
    let service = service();
    let mut users = Users::new();
    users.save(stored("u1", "a@x.com", "hash", UserRole::User), 1).unwrap();
    users.save(stored("u2", "b@x.com", "hash", UserRole::Admin), 1).unwrap();
    let user = format!("Bearer {}", service.issue("u1", "a@x.com").unwrap());
    let admin = format!("Bearer {}", service.issue("u2", "b@x.com").unwrap());

    assert!(guard(Endpoint::Login, &service, &users, None).unwrap().is_none());
    assert!(guard(Endpoint::Register, &service, &users, Some("garbage")).unwrap().is_none());

    let refused = guard(Endpoint::Users, &service, &users, Some(&user)).unwrap_err();
    assert_eq!(refused.status, 403);
    assert_eq!(refused.message, "Permission denied");
    let refused = guard(Endpoint::Role, &service, &users, Some(&user)).unwrap_err();
    assert_eq!(refused.status, 403);
    let passed = guard(Endpoint::Users, &service, &users, Some(&admin)).unwrap().unwrap();
    assert_eq!(passed.user.id, "u2");
    assert!(guard(Endpoint::Password, &service, &users, Some(&user)).unwrap().is_some());
    assert!(guard(Endpoint::Name, &service, &users, Some(&admin)).unwrap().is_some());

    let refused = guard(Endpoint::Me, &service, &users, Some("Basic abc")).unwrap_err();
    assert_eq!(refused.status, 401);
    assert_eq!(refused.message, "Invalid token");
    let stranger = format!("Bearer {}", service.issue("u9", "z@x.com").unwrap());
    let refused = guard(Endpoint::Me, &service, &users, Some(&stranger)).unwrap_err();
    assert_eq!(refused.status, 401);
    assert_eq!(refused.message, "User no longer exists");
    assert!(resolve(&service, &users, Some(&user)).is_ok());
}
