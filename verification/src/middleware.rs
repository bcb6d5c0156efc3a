//! From a request's credential to an authenticated identity, and from an
//! identity to a verdict on what it may call.

use vstd::prelude::*;

use crate::error::ErrorMessage;
use crate::models::{User, UserRole, UserView};
use crate::store::{holds_id, Users};
use crate::token::{
    hs256_decoding, result_view, verify_result, Claims, ClaimsView, TokenError, TokenService,
};

verus! {

/// The identity that a request was made by, and the claims that proved it.
/// It belongs to that one request.
#[derive(Debug, Clone)]
pub struct JWTAuthMiddleware {
    pub user: User,
    pub claims: Claims,
}

/// The word and the space that precede the token in the credential.
pub open spec fn bearer_scheme() -> Seq<char> {
    "Bearer "@
}

/// The token that the value of an `Authorization` header carries.
///
/// Without a value there is no token: `TokenNotProvided`. A value that does
/// not start with the word `Bearer` and a space is `InvalidToken`. The
/// token is everything after that space.
pub open spec fn bearer_of(raw: Option<Seq<char>>) -> Result<Seq<char>, ErrorMessage> {
    match raw {
        None => Err(ErrorMessage::TokenNotProvided),
        Some(value) => if bearer_scheme().is_prefix_of(value) {
            Ok(value.skip(7))
        } else {
            Err(ErrorMessage::InvalidToken)
        },
    }
}

/// The text of a header value, where there is one.
pub open spec fn text_view(raw: Option<&str>) -> Option<Seq<char>> {
    match raw {
        Some(value) => Some(value@),
        None => None,
    }
}

/// Takes the token out of the value of an `Authorization` header.
pub fn bearer_token<'a>(raw: Option<&'a str>) -> (r: Result<&'a str, ErrorMessage>)
    ensures
        match r {
            Ok(token) => bearer_of(text_view(raw)) == Ok::<Seq<char>, ErrorMessage>(token@),
            Err(e) => bearer_of(text_view(raw)) == Err::<Seq<char>, ErrorMessage>(e),
        },
{
    let value = match raw {
        Some(value) => value,
        None => return Err(ErrorMessage::TokenNotProvided),
    };
    proof {
        reveal_strlit("Bearer ");
    }
    let scheme = "Bearer ";
    let n = value.unicode_len();
    if n < 7 {
        return Err(ErrorMessage::InvalidToken);
    }
    let mut i: usize = 0;
    while i < 7
        invariant
            i <= 7,
            text_view(raw) == Some(value@),
            n == value@.len(),
            n >= 7,
            scheme@ == bearer_scheme(),
            scheme@.len() == 7,
            forall|k: int| 0 <= k < i ==> value@[k] == scheme@[k],
        decreases 7 - i,
    {
        if value.get_char(i) != scheme.get_char(i) {
            assert(value@.subrange(0, 7)[i as int] != bearer_scheme()[i as int]);
            assert(!bearer_scheme().is_prefix_of(value@));
            return Err(ErrorMessage::InvalidToken);
        }
        i += 1;
    }
    assert(bearer_scheme() =~= value@.subrange(0, 7));
    let token = value.substring_char(7, n);
    assert(token@ =~= value@.skip(7));
    Ok(token)
}

/// What authentication answers at the moment `now` for the header value
/// `raw`, given how tokens decode under the service's key: the token's
/// claims, `TokenNotProvided` without a value, and `InvalidToken` for every
/// other failure, whatever its kind.
pub open spec fn authenticate_result(
    service: TokenService,
    raw: Option<Seq<char>>,
    now: i64,
) -> Result<ClaimsView, ErrorMessage> {
    match bearer_of(raw) {
        Err(e) => Err(e),
        Ok(token) => match verify_result(hs256_decoding(token, service.secret()), now) {
            Ok(claims) => Ok(claims),
            Err(_) => Err(ErrorMessage::InvalidToken),
        },
    }
}

/// What the claims step hands on, as plain values.
pub open spec fn claims_view(r: Result<Claims, ErrorMessage>) -> Result<
    ClaimsView,
    ErrorMessage,
> {
    match r {
        Ok(claims) => Ok(claims@),
        Err(e) => Err(e),
    }
}

/// What the client is told of a verification: the claims, or `InvalidToken`
/// for each of the reasons alike.
pub fn shown_to_client(verified: Result<Claims, TokenError>) -> (r: Result<Claims, ErrorMessage>)
    ensures
        claims_view(r) == match result_view(verified) {
            Ok(claims) => Ok::<ClaimsView, ErrorMessage>(claims),
            Err(_) => Err::<ClaimsView, ErrorMessage>(ErrorMessage::InvalidToken),
        },
{
    match verified {
        Ok(claims) => Ok(claims),
        Err(_) => Err(ErrorMessage::InvalidToken),
    }
}

/// Takes the token out of the header value `raw` and verifies it as if the
/// clock showed `now`.
pub fn authenticate_at(service: &TokenService, raw: Option<&str>, now: i64) -> (r: Result<
    Claims,
    ErrorMessage,
>)
    ensures
        claims_view(r) == authenticate_result(*service, text_view(raw), now),
{
    match bearer_token(raw) {
        Err(e) => Err(e),
        Ok(token) => shown_to_client(service.verify_at(token, now)),
    }
}

/// Takes the token out of the header value `raw` and verifies it against
/// the clock's present reading.
pub fn authenticate(service: &TokenService, raw: Option<&str>) -> (r: Result<
    Claims,
    ErrorMessage,
>)
    ensures
        exists|now: i64| claims_view(r) == authenticate_result(*service, text_view(raw), now),
{
    match bearer_token(raw) {
        Err(e) => {
            assert(claims_view(Err::<Claims, ErrorMessage>(e)) == authenticate_result(
                *service,
                text_view(raw),
                0,
            ));
            Err(e)
        },
        Ok(token) => {
            let verified = service.verify(token);
            let ghost now = choose|now: i64|
                result_view(verified) == verify_result(
                    hs256_decoding(token@, service.secret()),
                    now,
                );
            let r = shown_to_client(verified);
            assert(claims_view(r) == authenticate_result(*service, text_view(raw), now));
            r
        },
    }
}

/// What a request context holds, as plain values.
pub open spec fn context_view(r: Result<JWTAuthMiddleware, ErrorMessage>) -> Result<
    (UserView, ClaimsView),
    ErrorMessage,
> {
    match r {
        Ok(context) => Ok((context.user@, context.claims@)),
        Err(e) => Err(e),
    }
}

/// Joins verified claims with what the user store holds under their
/// subject.
///
/// Without an identity the token outlived its bearer: `UserNoLongerExists`.
pub fn attach_identity(claims: Claims, found: Option<User>) -> (r: Result<
    JWTAuthMiddleware,
    ErrorMessage,
>)
    ensures
        context_view(r) == match found {
            Some(user) => Ok::<(UserView, ClaimsView), ErrorMessage>((user@, claims@)),
            None => Err::<(UserView, ClaimsView), ErrorMessage>(
                ErrorMessage::UserNoLongerExists,
            ),
        },
{
    match found {
        Some(user) => Ok(JWTAuthMiddleware { user, claims }),
        None => Err(ErrorMessage::UserNoLongerExists),
    }
}

/// What resolving the header value `raw` answers at the moment `now` over
/// the identities `users`.
///
/// A failure of authentication stands. Claims whose subject no identity has
/// give `UserNoLongerExists`. Otherwise the context holds the claims and an
/// identity of `users` with the subject as its id.
pub open spec fn resolve_outcome(
    service: TokenService,
    users: Seq<UserView>,
    raw: Option<Seq<char>>,
    now: i64,
    r: Result<(UserView, ClaimsView), ErrorMessage>,
) -> bool {
    match authenticate_result(service, raw, now) {
        Err(e) => r == Err::<(UserView, ClaimsView), ErrorMessage>(e),
        Ok(claims) => if holds_id(users, claims.sub) {
            r matches Ok(context) && context.1 == claims && context.0.id == claims.sub
                && users.contains(context.0)
        } else {
            r == Err::<(UserView, ClaimsView), ErrorMessage>(ErrorMessage::UserNoLongerExists)
        },
    }
}

/// Resolves the header value `raw` to a request context as if the clock
/// showed `now`: the token is taken out and verified, and the identity is
/// read from `users` as it is now.
pub fn resolve_at(service: &TokenService, users: &Users, raw: Option<&str>, now: i64) -> (r:
    Result<JWTAuthMiddleware, ErrorMessage>)
    ensures
        resolve_outcome(*service, users@, text_view(raw), now, context_view(r)),
{
    let claims = match authenticate_at(service, raw, now) {
        Ok(claims) => claims,
        Err(e) => return Err(e),
    };
    let found = match users.find_by_id(claims.sub.as_str()) {
        Some(user) => Some(user.clone()),
        None => None,
    };
    attach_identity(claims, found)
}

/// Resolves the header value `raw` to a request context against the clock's
/// present reading.
pub fn resolve(service: &TokenService, users: &Users, raw: Option<&str>) -> (r: Result<
    JWTAuthMiddleware,
    ErrorMessage,
>)
    ensures
        exists|now: i64| resolve_outcome(*service, users@, text_view(raw), now, context_view(r)),
{
    let claims = match authenticate(service, raw) {
        Ok(claims) => claims,
        Err(e) => {
            let ghost now = choose|now: i64|
                claims_view(Err::<Claims, ErrorMessage>(e)) == authenticate_result(
                    *service,
                    text_view(raw),
                    now,
                );
            assert(resolve_outcome(
                *service,
                users@,
                text_view(raw),
                now,
                context_view(Err::<JWTAuthMiddleware, ErrorMessage>(e)),
            ));
            return Err(e);
        },
    };
    let ghost now = choose|now: i64|
        claims_view(Ok::<Claims, ErrorMessage>(claims)) == authenticate_result(
            *service,
            text_view(raw),
            now,
        );
    let found = match users.find_by_id(claims.sub.as_str()) {
        Some(user) => Some(user.clone()),
        None => None,
    };
    let r = attach_identity(claims, found);
    assert(resolve_outcome(*service, users@, text_view(raw), now, context_view(r)));
    r
}

/// Whether `role` is one of `allowed`.
pub open spec fn permits(allowed: Seq<UserRole>, role: UserRole) -> bool {
    allowed.contains(role)
}

/// Whether `role` is one of `allowed`.
pub fn role_allowed(allowed: &Vec<UserRole>, role: UserRole) -> (yes: bool)
    ensures
        yes == permits(allowed@, role),
{
    let mut i: usize = 0;
    while i < allowed.len()
        invariant
            i <= allowed.len(),
            forall|k: int| 0 <= k < i ==> allowed@[k] != role,
        decreases allowed.len() - i,
    {
        if allowed[i] == role {
            return true;
        }
        i += 1;
    }
    false
}

/// Lets a request pass where its identity's role is one of `allowed`, and
/// refuses it with `PermissionDenied` where it is not.
pub fn authorize(context: &JWTAuthMiddleware, allowed: &Vec<UserRole>) -> (r: Result<
    (),
    ErrorMessage,
>)
    ensures
        r is Ok <==> permits(allowed@, context.user.role),
        r matches Err(e) ==> e == ErrorMessage::PermissionDenied,
{
    if role_allowed(allowed, context.user.role) {
        Ok(())
    } else {
        Err(ErrorMessage::PermissionDenied)
    }
}

/// The role check of a route: a request that carries no context was not
/// authenticated, and one that does is let pass or refused by `authorize`.
pub fn role_check(context: Option<&JWTAuthMiddleware>, required_roles: &Vec<UserRole>) -> (r:
    Result<(), ErrorMessage>)
    ensures
        r is Ok <==> (context matches Some(c) && permits(required_roles@, c.user.role)),
        r matches Err(e) ==> e == (if context is Some {
            ErrorMessage::PermissionDenied
        } else {
            ErrorMessage::UserNotAuthenticated
        }),
{
    match context {
        Some(context) => authorize(context, required_roles),
        None => Err(ErrorMessage::UserNotAuthenticated),
    }
}

/// A request without a credential fails with `TokenNotProvided`, and one
/// whose credential does not start with the scheme fails with
/// `InvalidToken`: whatever the key, the clock and the identities are.
pub proof fn lemma_credential_shape(
    service: TokenService,
    users: Seq<UserView>,
    raw: Seq<char>,
    now: i64,
    r: Result<(UserView, ClaimsView), ErrorMessage>,
)
    ensures
        authenticate_result(service, None, now) == Err::<ClaimsView, ErrorMessage>(
            ErrorMessage::TokenNotProvided,
        ),
        resolve_outcome(service, users, None, now, r) ==> r == Err::<
            (UserView, ClaimsView),
            ErrorMessage,
        >(ErrorMessage::TokenNotProvided),
        !bearer_scheme().is_prefix_of(raw) ==> authenticate_result(service, Some(raw), now)
            == Err::<ClaimsView, ErrorMessage>(ErrorMessage::InvalidToken),
        !bearer_scheme().is_prefix_of(raw) && resolve_outcome(service, users, Some(raw), now, r)
            ==> r == Err::<(UserView, ClaimsView), ErrorMessage>(ErrorMessage::InvalidToken),
{
}

/// Of a token's failures the client learns one thing: authentication
/// answers with claims, with `TokenNotProvided` or with `InvalidToken`, and
/// with nothing else.
pub proof fn lemma_token_failures_look_alike(
    service: TokenService,
    raw: Option<Seq<char>>,
    now: i64,
)
    ensures
        match authenticate_result(service, raw, now) {
            Ok(_) => true,
            Err(e) => e == ErrorMessage::TokenNotProvided || e == ErrorMessage::InvalidToken,
        },
{
}

/// A context is handed on only for claims that verification returned for
/// the token in the credential, and only with an identity that the store
/// holds under the claims' subject at that time.
pub proof fn lemma_resolved_means_verified(
    service: TokenService,
    users: Seq<UserView>,
    raw: Option<Seq<char>>,
    now: i64,
    user: UserView,
    claims: ClaimsView,
)
    requires
        resolve_outcome(service, users, raw, now, Ok((user, claims))),
    ensures
        raw matches Some(value) && bearer_scheme().is_prefix_of(value) && verify_result(
            hs256_decoding(value.skip(7), service.secret()),
            now,
        ) == Ok::<ClaimsView, TokenError>(claims),
        claims.exp > now,
        users.contains(user),
        user.id == claims.sub,
{
}

/// Where administrators alone are allowed, an administrator passes and a
/// user does not.
pub proof fn lemma_admin_only()
    ensures
        permits(seq![UserRole::Admin], UserRole::Admin),
        !permits(seq![UserRole::Admin], UserRole::User),
        permits(seq![UserRole::Admin, UserRole::User], UserRole::User),
{
    assert(seq![UserRole::Admin][0] == UserRole::Admin);
    assert(seq![UserRole::Admin, UserRole::User][1] == UserRole::User);
}

} // verus!
