use auth_validator::token::{
    check_decoded, claim_fields, claims_from_fields, create_jwt, expiry, find_member, sign_claims,
    ClaimField, Claims, IssueError, TokenError, TokenService,
};
use jsonwebtoken::{Algorithm, DecodingKey, EncodingKey, Header, Validation};
use serde_json::Value;

const SECRET: &[u8] = b"a-secret-for-tests";

fn service(lifetime: i64) -> TokenService {
    TokenService::new(SECRET, lifetime).unwrap()
}

fn now() -> i64 {
    chrono::Utc::now().timestamp()
}

fn field(name: &str, text: Option<&str>, number: Option<u64>) -> ClaimField {
    ClaimField { name: name.to_string(), text: text.map(|t| t.to_string()), number }
}

fn signed_with(members: Vec<(&str, Value)>, secret: &[u8]) -> String {
    let mut object = serde_json::Map::new();
    for (name, value) in members {
        object.insert(name.to_string(), value);
    }
    jsonwebtoken::encode(&Header::default(), &object, &EncodingKey::from_secret(secret)).unwrap()
}

fn with_one_byte_changed(token: &str, position: usize) -> String {
    let mut bytes = token.as_bytes().to_vec();
    bytes[position] = if bytes[position] == b'A' { b'B' } else { b'A' };
    String::from_utf8(bytes).unwrap()
}

#[test]
fn issued_token_verifies_at_once() {
    let service = service(3600);
    let before = now();
    let token = service.issue("user-1", "a@x.com").unwrap();
    let claims = service.verify(&token).unwrap();
    assert_eq!(claims.sub, "user-1");
    assert_eq!(claims.email, "a@x.com");
    assert!(claims.exp as i64 > now());
    assert!(claims.exp as i64 >= before + 3600);
    assert!(claims.exp as i64 <= now() + 3600);
}

#[test]
fn create_jwt_issues_what_the_service_verifies() {
    let service = service(3600);
    let token = create_jwt(&service, "user-2", "b@x.com").unwrap();
    assert_eq!(token.split('.').count(), 3);
    let claims = service.verify(&token).unwrap();
    assert_eq!(claims.sub, "user-2");
    assert_eq!(claims.email, "b@x.com");
}

#[test]
fn expiry_is_issue_time_plus_lifetime() {
    let service = service(3600);
    let token = service.issue_at("user-1", "a@x.com", 1_000).unwrap();
    let claims = service.verify_at(&token, 1_000).unwrap();
    assert_eq!(claims.exp, 4_600);
    assert_eq!(claims.sub, "user-1");
    assert_eq!(claims.email, "a@x.com");
}

#[test]
fn token_is_a_function_of_claims_and_key() {
    let service = service(60);
    let first = service.issue_at("user-1", "a@x.com", 1_000).unwrap();
    let second = service.issue_at("user-1", "a@x.com", 1_000).unwrap();
    let later = service.issue_at("user-1", "a@x.com", 1_001).unwrap();
    assert_eq!(first, second);
    assert_ne!(first, later);
}

#[test]
fn token_expires_at_its_expiry() {
    let service = service(60);
    let token = service.issue_at("user-1", "a@x.com", 1_000).unwrap();
    assert!(service.verify_at(&token, 1_059).is_ok());
    assert_eq!(service.verify_at(&token, 1_060).unwrap_err(), TokenError::Expired);
    assert_eq!(service.verify_at(&token, 999_999).unwrap_err(), TokenError::Expired);
}

#[test]
fn expired_token_with_valid_signature_is_expired() {
    let service = service(60);
    let token = service.issue_at("user-1", "a@x.com", now() - 3_600).unwrap();
    assert_eq!(service.verify(&token).unwrap_err(), TokenError::Expired);
}

#[test]
fn token_inside_the_common_leeway_is_expired_all_the_same() {
    let service = service(60);
    let token = service.issue_at("user-1", "a@x.com", now() - 70).unwrap();
    assert_eq!(service.verify(&token).unwrap_err(), TokenError::Expired);
}

#[test]
fn altered_signature_is_invalid() {
    let service = service(3600);
    let token = service.issue("user-1", "a@x.com").unwrap();
    let signature_starts = token.rfind('.').unwrap() + 1;
    let first = with_one_byte_changed(&token, signature_starts);
    assert_eq!(service.verify(&first).unwrap_err(), TokenError::InvalidSignature);
    let middle = with_one_byte_changed(&token, signature_starts + 20);
    assert_eq!(service.verify(&middle).unwrap_err(), TokenError::InvalidSignature);
    let last = with_one_byte_changed(&token, token.len() - 1);
    assert_eq!(service.verify(&last).unwrap_err(), TokenError::InvalidSignature);
}

#[test]
fn altered_claims_are_an_invalid_signature() {
    let service = service(3600);
    let token = service.issue("user-1", "a@x.com").unwrap();
    let claims_start = token.find('.').unwrap() + 1;
    let altered = with_one_byte_changed(&token, claims_start + 5);
    assert_eq!(service.verify(&altered).unwrap_err(), TokenError::InvalidSignature);
}

#[test]
fn token_of_another_key_is_an_invalid_signature() {
    let other = TokenService::new(b"another-secret", 3600).unwrap();
    let token = other.issue("user-1", "a@x.com").unwrap();
    assert_eq!(service(3600).verify(&token).unwrap_err(), TokenError::InvalidSignature);
}

#[test]
fn signature_is_checked_before_expiry() {
    let other = TokenService::new(b"another-secret", 60).unwrap();
    let token = other.issue_at("user-1", "a@x.com", 1_000).unwrap();
    assert_eq!(
        service(60).verify_at(&token, 5_000).unwrap_err(),
        TokenError::InvalidSignature
    );
}

#[test]
fn what_is_no_token_is_malformed() {
    let service = service(3600);
    assert_eq!(service.verify("").unwrap_err(), TokenError::MalformedToken);
    assert_eq!(service.verify("not-a-token").unwrap_err(), TokenError::MalformedToken);
    assert_eq!(service.verify("a.b").unwrap_err(), TokenError::MalformedToken);
    assert_eq!(service.verify("a.b.c").unwrap_err(), TokenError::MalformedToken);
    assert_eq!(service.verify("a.b.c.d").unwrap_err(), TokenError::MalformedToken);
}

#[test]
fn claims_without_an_email_are_malformed() {
    let token = signed_with(
        vec![("sub", Value::from("user-1")), ("exp", Value::from(4_000_000_000u64))],
        SECRET,
    );
    assert_eq!(service(60).verify(&token).unwrap_err(), TokenError::MalformedToken);
}

#[test]
fn claims_without_a_subject_are_malformed() {
    let token = signed_with(
        vec![("email", Value::from("a@x.com")), ("exp", Value::from(4_000_000_000u64))],
        SECRET,
    );
    assert_eq!(service(60).verify(&token).unwrap_err(), TokenError::MalformedToken);
}

#[test]
fn claims_without_an_expiry_are_malformed() {
    let token =
        signed_with(vec![("sub", Value::from("user-1")), ("email", Value::from("a@x.com"))], SECRET);
    assert_eq!(service(60).verify(&token).unwrap_err(), TokenError::MalformedToken);
}

#[test]
fn an_expiry_that_is_no_integer_is_malformed() {
    let token = signed_with(
        vec![
            ("sub", Value::from("user-1")),
            ("email", Value::from("a@x.com")),
            ("exp", Value::from("4000000000")),
        ],
        SECRET,
    );
    assert_eq!(service(60).verify(&token).unwrap_err(), TokenError::MalformedToken);
    let token = signed_with(
        vec![
            ("sub", Value::from("user-1")),
            ("email", Value::from("a@x.com")),
            ("exp", Value::from(-5i64)),
        ],
        SECRET,
    );
    assert_eq!(service(60).verify(&token).unwrap_err(), TokenError::MalformedToken);
}

#[test]
fn other_members_are_passed_over() {
    let token = signed_with(
        vec![
            ("aud", Value::from("someone")),
            ("sub", Value::from("user-1")),
            ("role", Value::from("admin")),
            ("email", Value::from("a@x.com")),
            ("exp", Value::from(4_000_000_000u64)),
            ("flag", Value::from(true)),
        ],
        SECRET,
    );
    let claims = service(60).verify(&token).unwrap();
    assert_eq!(claims.sub, "user-1");
    assert_eq!(claims.email, "a@x.com");
    assert_eq!(claims.exp, 4_000_000_000);
}

#[test]
fn issued_token_is_a_standard_hs256_token() {
    let service = service(3600);
    let token = service.issue("user-1", "a@x.com").unwrap();
    let header = jsonwebtoken::decode_header(&token).unwrap();
    assert_eq!(header.alg, Algorithm::HS256);
    let data = jsonwebtoken::decode::<Value>(
        &token,
        &DecodingKey::from_secret(SECRET),
        &Validation::new(Algorithm::HS256),
    )
    .unwrap();
    assert_eq!(data.claims.get("sub").and_then(Value::as_str), Some("user-1"));
    assert_eq!(data.claims.get("email").and_then(Value::as_str), Some("a@x.com"));
    assert!(data.claims.get("exp").and_then(Value::as_u64).is_some());
    assert_eq!(data.claims.as_object().unwrap().len(), 3);
}

#[test]
fn text_with_quotes_and_letters_of_other_scripts_survives() {
    let service = service(60);
    let token = service.issue_at("id \"1\" \\ é 日本", "ü@x.com", 10).unwrap();
    let claims = service.verify_at(&token, 10).unwrap();
    assert_eq!(claims.sub, "id \"1\" \\ é 日本");
    assert_eq!(claims.email, "ü@x.com");
}

#[test]
fn a_service_needs_a_positive_lifetime() {
    assert!(TokenService::new(SECRET, 1).is_some());
    assert!(TokenService::new(SECRET, 0).is_none());
    assert!(TokenService::new(SECRET, -3600).is_none());
}

#[test]
fn an_expiry_out_of_range_is_refused() {
    let service = service(60);
    assert_eq!(
        service.issue_at("user-1", "a@x.com", i64::MAX).unwrap_err(),
        IssueError::ExpiryOutOfRange
    );
    assert_eq!(
        service.issue_at("user-1", "a@x.com", -10_000).unwrap_err(),
        IssueError::ExpiryOutOfRange
    );
    assert!(service.issue_at("user-1", "a@x.com", -60).is_ok());
}

#[test]
fn expiry_adds_with_care() {
    assert_eq!(expiry(1_000, 3_600), Some(4_600));
    assert_eq!(expiry(-60, 60), Some(0));
    assert_eq!(expiry(-61, 60), None);
    assert_eq!(expiry(i64::MAX, 1), None);
    assert_eq!(expiry(i64::MAX - 1, 1), Some(i64::MAX as usize));
}

#[test]
fn find_member_gives_the_first_of_a_name() {
    let fields = vec![
        field("a", Some("1"), None),
        field("b", None, Some(2)),
        field("a", Some("3"), None),
    ];
    assert_eq!(find_member(&fields, "a"), Some(0));
    assert_eq!(find_member(&fields, "b"), Some(1));
    assert_eq!(find_member(&fields, "c"), None);
    assert_eq!(find_member(&Vec::new(), "a"), None);
}

#[test]
fn claims_are_read_from_members() {
    let fields = vec![
        field("exp", None, Some(77)),
        field("email", Some("a@x.com"), None),
        field("sub", Some("user-1"), None),
    ];
    let claims = claims_from_fields(&fields).unwrap();
    assert_eq!(claims.sub, "user-1");
    assert_eq!(claims.email, "a@x.com");
    assert_eq!(claims.exp, 77);
    let no_text = vec![
        field("exp", None, Some(77)),
        field("email", None, Some(5)),
        field("sub", Some("user-1"), None),
    ];
    assert!(claims_from_fields(&no_text).is_none());
    assert!(claims_from_fields(&Vec::new()).is_none());
}

#[test]
fn check_decoded_decides_in_order() {
    let fields = vec![
        field("sub", Some("user-1"), None),
        field("email", Some("a@x.com"), None),
        field("exp", None, Some(100)),
    ];
    assert_eq!(check_decoded(Ok(fields.clone()), 99).unwrap().exp, 100);
    assert_eq!(check_decoded(Ok(fields.clone()), 100).unwrap_err(), TokenError::Expired);
    assert_eq!(check_decoded(Ok(fields.clone()), 101).unwrap_err(), TokenError::Expired);
    assert_eq!(check_decoded(Ok(fields), -5).unwrap().exp, 100);
    assert_eq!(check_decoded(Ok(Vec::new()), 0).unwrap_err(), TokenError::MalformedToken);
    assert_eq!(
        check_decoded(Err(TokenError::InvalidSignature), 0).unwrap_err(),
        TokenError::InvalidSignature
    );
    assert_eq!(
        check_decoded(Err(TokenError::MalformedToken), 0).unwrap_err(),
        TokenError::MalformedToken
    );
}

#[test]
fn an_expiry_of_zero_is_expired_at_zero() {
    let fields = vec![
        field("sub", Some("user-1"), None),
        field("email", Some("a@x.com"), None),
        field("exp", None, Some(0)),
    ];
    assert_eq!(check_decoded(Ok(fields.clone()), 0).unwrap_err(), TokenError::Expired);
    assert!(check_decoded(Ok(fields), -1).is_ok());
}

#[test]
fn claims_are_written_as_three_members() {
    let claims = Claims { sub: "user-1".to_string(), email: "a@x.com".to_string(), exp: 42 };
    let (texts, numbers) = claim_fields(&claims);
    assert_eq!(
        texts,
        vec![
            ("sub".to_string(), "user-1".to_string()),
            ("email".to_string(), "a@x.com".to_string())
        ]
    );
    assert_eq!(numbers, vec![("exp".to_string(), 42u64)]);
}

#[test]
fn signed_claims_are_not_the_claims_in_clear() {
    let claims = Claims { sub: "user-1".to_string(), email: "a@x.com".to_string(), exp: 42 };
    let token = sign_claims(&claims, SECRET).unwrap();
    assert_ne!(token, "user-1");
    assert_ne!(token, "a@x.com");
    assert_eq!(token.split('.').count(), 3);
    assert!(token.starts_with("eyJ"));
    let read = service(60).verify_at(&token, 0).unwrap();
    assert_eq!(read.exp, 42);
}

#[test]
fn a_token_has_three_parts() {
    let token = service(3600).issue("user-1", "a@x.com").unwrap();
    let parts: Vec<&str> = token.split('.').collect();
    assert_eq!(parts.len(), 3);
    assert!(parts.iter().all(|part| !part.is_empty()));
    assert_eq!(parts[0], "eyJ0eXAiOiJKV1QiLCJhbGciOiJIUzI1NiJ9");
    assert_eq!(parts[2].len(), 43);
}

#[test]
fn any_other_signature_is_invalid() {
    let service = service(3600);
    let token = service.issue("user-1", "a@x.com").unwrap();
    let cut = token.rfind('.').unwrap();
    let front = &token[..cut + 1];
    for signature in ["", "A", "!!!", "not base64 at all", &token[cut + 2..], &token[..cut]] {
        if signature.contains('.') {
            continue;
        }
        let other = format!("{}{}", front, signature);
        assert_eq!(service.verify(&other).unwrap_err(), TokenError::InvalidSignature);
    }
    let longer = format!("{}A", token);
    assert_eq!(service.verify(&longer).unwrap_err(), TokenError::InvalidSignature);
    assert!(service.verify(&token).is_ok());
}

#[test]
fn a_service_of_an_ordinary_lifetime_always_issues() {
    for lifetime in [1, 60, 3600, 365 * 86_400, 1_000_000_000_000] {
        let service = TokenService::new(SECRET, lifetime).unwrap();
        let token = service.issue("user-1", "a@x.com").unwrap();
        assert!(service.verify(&token).is_ok());
        assert!(create_jwt(&service, "user-1", "a@x.com").is_ok());
    }
}
