//! Signing up: a new identity and, at once, a token for it.

use vstd::prelude::*;

use crate::clock::unix_micros;
use crate::error::{ErrorMessage, INTERNAL_SERVER_ERROR};
use crate::models::{new_user_id, User, UserRole, UserView};
use crate::password::{
    acceptable_length, compare_result, hash_outcome, hash_password, MAX_PASSWORD_LENGTH,
};
use crate::store::{holds_email, holds_id, stamped, written, Users};
use crate::text::{byte_len, lemma_empty_has_no_bytes};
use crate::token::{create_jwt, issued_view, IssueError, TokenService};

verus! {

/// The request to sign up or to sign in.
#[derive(Debug, Clone)]
pub struct AuthRequest {
    pub email: String,
    pub password: String,
}

/// The identity inside the reply to a signup.
#[derive(Debug, Clone)]
pub struct UserResponse {
    pub id: String,
    pub email: String,
}

/// The reply to a signup: the token and the identity it was issued for.
#[derive(Debug, Clone)]
pub struct AuthResponse {
    pub token: String,
    pub user: UserResponse,
}

/// The body of the reply that reports why a signup failed.
#[derive(Debug, Clone)]
pub struct ErrorResponse {
    pub error: String,
}

/// Why a signup for which no token could be issued is refused.
pub const TOKEN_FAILED: &'static str = "Failed to create token";

/// The record that a signup with `email` writes: the id that was drawn for
/// it, the hash of its password, no name, the role `User`, not verified.
/// The store adds the moments.
pub open spec fn signed_up(id: Seq<char>, email: Seq<char>, password: Seq<char>) -> UserView {
    UserView {
        id,
        name: Seq::empty(),
        email,
        password,
        role: UserRole::User,
        verified: false,
        created_at: None,
        updated_at: None,
    }
}

/// A failed signup as plain values: the status and the reason.
pub open spec fn refusal(status: u16, reason: Seq<char>) -> Result<
    (Seq<char>, Seq<char>, Seq<char>),
    (u16, Seq<char>),
> {
    Err((status, reason))
}

/// The reply to a signup as plain values: on success the token, the id and
/// the e-mail address; on failure the status and the reason.
pub open spec fn reply_view(r: Result<AuthResponse, (u16, ErrorResponse)>) -> Result<
    (Seq<char>, Seq<char>, Seq<char>),
    (u16, Seq<char>),
> {
    match r {
        Ok(reply) => Ok((reply.token@, reply.user.id@, reply.user.email@)),
        Err(e) => Err((e.0, e.1.error@)),
    }
}

/// The refusal of a signup for the error `kind`: its status class and its
/// text.
pub open spec fn refusal_of(kind: ErrorMessage) -> Result<
    (Seq<char>, Seq<char>, Seq<char>),
    (u16, Seq<char>),
> {
    refusal(kind.status_class(), kind.text())
}

/// What a signup with `email` and `password` may answer, and what it then
/// leaves in the store.
///
/// An address that is in use is refused as `EmailExists`, in the class of
/// conflicts. A password that is empty or longer than the hasher takes is
/// refused with its length error, in the class of bad requests. In both
/// cases nothing is written. Every other password is hashed. Where issuing
/// the token for the new id then fails, the answer is the status 500 with
/// `TOKEN_FAILED`, and nothing is written; that does not happen with a
/// service whose lifetime fits on top of every reading of the clock, which
/// signs up every such request. Otherwise the reply names the
/// address and a token that the service issued for the new id and the
/// address, and the store holds one record more or, had the id been in use,
/// that record anew, with a hash that was made for the password.
pub open spec fn signup_outcome(
    service: TokenService,
    before: Seq<UserView>,
    after: Seq<UserView>,
    email: Seq<char>,
    password: Seq<char>,
    r: Result<(Seq<char>, Seq<char>, Seq<char>), (u16, Seq<char>)>,
) -> bool {
    if holds_email(before, email) {
        r == refusal_of(ErrorMessage::EmailExists) && after == before
    } else if password.len() == 0 {
        r == refusal_of(ErrorMessage::EmptyPassword) && after == before
    } else if byte_len(password) > MAX_PASSWORD_LENGTH {
        r == refusal_of(ErrorMessage::ExceededMaxPasswordLength(MAX_PASSWORD_LENGTH)) && after
            == before
    } else {
        &&& service.always_issues() ==> r is Ok
        &&& match r {
            Ok(reply) => {
                &&& reply.2 == email
                &&& (exists|hashed: Seq<char>, at: i64|
                    hash_outcome(password, Ok(hashed)) && after == written(
                        before,
                        #[trigger] stamped(signed_up(reply.1, email, hashed), at),
                    ))
                &&& service.issue_now(reply.1, email, Ok(reply.0))
            },
            Err(e) => {
                &&& after == before
                &&& r == refusal(INTERNAL_SERVER_ERROR, TOKEN_FAILED@)
                &&& (exists|id: Seq<char>, cause: IssueError| #[trigger]
                    service.issue_now(id, email, Err(cause)))
            },
        }
    }
}

fn failure(status: u16, reason: &str) -> (e: (u16, ErrorResponse))
    ensures
        e.0 == status,
        e.1.error@ == reason@,
{
    (status, ErrorResponse { error: reason.to_owned() })
}

/// A step of a signup as plain values: what it hands on, or the status and
/// the reason of the refusal.
pub open spec fn step_view(r: Result<String, (u16, ErrorResponse)>) -> Result<
    Seq<char>,
    (u16, Seq<char>),
> {
    match r {
        Ok(text) => Ok(text@),
        Err(e) => Err((e.0, e.1.error@)),
    }
}

/// What a signup makes of what hashing the password returned: the hash,
/// or the error of the hashing under its status class.
pub fn hashed_or_refusal(hashed: Result<String, ErrorMessage>) -> (r: Result<
    String,
    (u16, ErrorResponse),
>)
    ensures
        step_view(r) == match hashed {
            Ok(h) => Ok::<Seq<char>, (u16, Seq<char>)>(h@),
            Err(kind) => Err::<Seq<char>, (u16, Seq<char>)>((kind.status_class(), kind.text())),
        },
{
    match hashed {
        Ok(h) => Ok(h),
        Err(kind) => {
            let reason = kind.to_str();
            Err(failure(kind.status(), reason.as_str()))
        },
    }
}

/// What a signup makes of what issuing the token returned: the token, or
/// the status 500 with the reason that no token was created.
pub fn token_or_refusal(issued: Result<String, IssueError>) -> (r: Result<
    String,
    (u16, ErrorResponse),
>)
    ensures
        step_view(r) == match issued {
            Ok(token) => Ok::<Seq<char>, (u16, Seq<char>)>(token@),
            Err(_) => Err::<Seq<char>, (u16, Seq<char>)>(
                (INTERNAL_SERVER_ERROR, TOKEN_FAILED@),
            ),
        },
{
    match issued {
        Ok(token) => Ok(token),
        Err(_) => Err(failure(INTERNAL_SERVER_ERROR, TOKEN_FAILED)),
    }
}

/// Writes the identity of a signup, for which the id was drawn, the
/// password hashed and the token issued, at the moment `at`.
///
/// An address that is in use is refused as `EmailExists`, in the class of
/// conflicts, and nothing is written. Otherwise the record is written, and
/// the reply holds the token, the id and the address.
pub fn enroll(
    users: &mut Users,
    email: &str,
    id: String,
    hashed_password: String,
    token: String,
    at: i64,
) -> (r: Result<AuthResponse, (u16, ErrorResponse)>)
    requires
        old(users).wf(),
    ensures
        final(users).wf(),
        if holds_email(old(users)@, email@) {
            reply_view(r) == refusal_of(ErrorMessage::EmailExists) && final(users)@ == old(
                users,
            )@
        } else {
            reply_view(r) == Ok::<(Seq<char>, Seq<char>, Seq<char>), (u16, Seq<char>)>(
                (token@, id@, email@),
            ) && final(users)@ == written(
                old(users)@,
                stamped(signed_up(id@, email@, hashed_password@), at),
            )
        },
{
    let user = User {
        id: id.clone(),
        name: String::new(),
        email: email.to_owned(),
        password: hashed_password,
        role: UserRole::User,
        verified: false,
        created_at: None,
        updated_at: None,
    };
    assert(user@ == signed_up(id@, email@, hashed_password@));
    match users.save(user, at) {
        Ok(_) => Ok(AuthResponse { token, user: UserResponse { id, email: email.to_owned() } }),
        Err(kind) => {
            let reason = kind.to_str();
            Err(failure(kind.status(), reason.as_str()))
        },
    }
}

/// Signs up the identity that `req` describes: refuses an address that is
/// in use, hashes the password, draws an id, issues a token for it, and
/// writes the record.
pub fn signup(users: &mut Users, service: &TokenService, req: &AuthRequest) -> (r: Result<
    AuthResponse,
    (u16, ErrorResponse),
>)
    requires
        old(users).wf(),
    ensures
        final(users).wf(),
        signup_outcome(
            *service,
            old(users)@,
            final(users)@,
            req.email@,
            req.password@,
            reply_view(r),
        ),
{
    if users.find_by_email(req.email.as_str()).is_some() {
        let kind = ErrorMessage::EmailExists;
        let reason = kind.to_str();
        return Err(failure(kind.status(), reason.as_str()));
    }
    let hashed_password = match hashed_or_refusal(hash_password(req.password.as_str())) {
        Ok(hashed) => hashed,
        Err(e) => return Err(e),
    };
    let id = new_user_id();
    let issued = create_jwt(service, id.as_str(), req.email.as_str());
    let token = match token_or_refusal(issued) {
        Ok(token) => token,
        Err(e) => {
            assert(service.issue_now(id@, req.email@, Err(issued->Err_0)));
            return Err(e);
        },
    };
    let at = unix_micros();
    let ghost hashed = hashed_password@;
    let r = enroll(users, req.email.as_str(), id, hashed_password, token, at);
    proof {
        let shown = reply_view(r)->Ok_0;
        assert(hash_outcome(req.password@, Ok(hashed)));
        assert(users@ == written(old(users)@, stamped(signed_up(shown.1, req.email@, hashed), at)));
        assert(service.issue_now(shown.1, req.email@, Ok(shown.0)));
    }
    r
}

/// The hash that a signup stored is accepted by `compare` for the password
/// of the request, and is not that password.
pub proof fn lemma_signed_up_hash(
    service: TokenService,
    before: Seq<UserView>,
    after: Seq<UserView>,
    email: Seq<char>,
    password: Seq<char>,
    reply: (Seq<char>, Seq<char>, Seq<char>),
)
    requires
        signup_outcome(service, before, after, email, password, Ok(reply)),
    ensures
        acceptable_length(password),
        exists|i: int|
            0 <= i < after.len() && (#[trigger] after[i]).id == reply.1 && after[i].email == email
                && after[i].password != password && compare_result(password, after[i].password)
                == Ok::<bool, ErrorMessage>(true),
{
    let (hashed, at) = choose|hashed: Seq<char>, at: i64|
        hash_outcome(password, Ok(hashed)) && after == written(
            before,
            #[trigger] stamped(signed_up(reply.1, email, hashed), at),
        );
    let record = stamped(signed_up(reply.1, email, hashed), at);
    let i = if holds_id(before, record.id) {
        choose|i: int| 0 <= i < before.len() && before[i].id == record.id
    } else {
        before.len() as int
    };
    assert(after[i] == record);
    lemma_empty_has_no_bytes(password);
}

/// A signup for an address that is not in use, with a password of
/// acceptable length, succeeds where the service's lifetime fits on top of
/// every reading of the clock.
pub proof fn lemma_signup_succeeds(
    service: TokenService,
    before: Seq<UserView>,
    after: Seq<UserView>,
    email: Seq<char>,
    password: Seq<char>,
    r: Result<(Seq<char>, Seq<char>, Seq<char>), (u16, Seq<char>)>,
)
    requires
        service.always_issues(),
        !holds_email(before, email),
        acceptable_length(password),
        signup_outcome(service, before, after, email, password, r),
    ensures
        r matches Ok(reply) && reply.2 == email && service.issue_now(reply.1, email, Ok(reply.0))
            && holds_email(after, email),
{
    lemma_empty_has_no_bytes(password);
    let reply = r->Ok_0;
    let (hashed, at) = choose|hashed: Seq<char>, at: i64|
        hash_outcome(password, Ok(hashed)) && after == written(
            before,
            #[trigger] stamped(signed_up(reply.1, email, hashed), at),
        );
    let record = stamped(signed_up(reply.1, email, hashed), at);
    let i = if holds_id(before, record.id) {
        choose|i: int| 0 <= i < before.len() && before[i].id == record.id
    } else {
        before.len() as int
    };
    assert(after[i] == record);
}

} // verus!
