//! The endpoints, who may call each, and the guard that a request passes on
//! its way to one.

use vstd::prelude::*;

use crate::error::{ErrorMessage, HttpError};
use crate::middleware::{
    authorize, context_view, permits, resolve, resolve_at, resolve_outcome, text_view,
    JWTAuthMiddleware,
};
use crate::models::{UserRole, UserView};
use crate::store::Users;
use crate::text::text_eq;
use crate::token::{ClaimsView, TokenService};

verus! {

/// The request methods that the endpoints answer to.
#[derive(Debug, Clone, Copy, PartialEq, Eq, Structural)]
pub enum Method {
    Get,
    Post,
    Put,
}

/// The endpoints of the account service.
#[derive(Debug, Clone, Copy, PartialEq, Eq, Structural)]
pub enum Endpoint {
    Register,
    Login,
    VerifyEmail,
    ForgotPassword,
    ResetPassword,
    Me,
    Users,
    Name,
    Role,
    Password,
}

impl Endpoint {
    /// The path under which the endpoint is reached.
    pub open spec fn route(self) -> Seq<char> {
        match self {
            Endpoint::Register => "/api/auth/register"@,
            Endpoint::Login => "/api/auth/login"@,
            Endpoint::VerifyEmail => "/api/auth/verify"@,
            Endpoint::ForgotPassword => "/api/auth/forgot-password"@,
            Endpoint::ResetPassword => "/api/auth/reset-password"@,
            Endpoint::Me => "/api/users/me"@,
            Endpoint::Users => "/api/users/users"@,
            Endpoint::Name => "/api/users/name"@,
            Endpoint::Role => "/api/users/role"@,
            Endpoint::Password => "/api/users/password"@,
        }
    }

    /// The method that the endpoint answers to.
    pub open spec fn verb(self) -> Method {
        match self {
            Endpoint::Register => Method::Post,
            Endpoint::Login => Method::Post,
            Endpoint::VerifyEmail => Method::Get,
            Endpoint::ForgotPassword => Method::Post,
            Endpoint::ResetPassword => Method::Post,
            Endpoint::Me => Method::Get,
            Endpoint::Users => Method::Get,
            Endpoint::Name => Method::Put,
            Endpoint::Role => Method::Put,
            Endpoint::Password => Method::Put,
        }
    }

    /// The roles that may call the endpoint, or `None` where it is open to
    /// requests without a credential.
    ///
    /// Registration, login, verification and the two password recovery
    /// endpoints are open. The list of identities and the change of a role
    /// are for administrators. The rest is for every authenticated identity.
    pub open spec fn roles(self) -> Option<Seq<UserRole>> {
        match self {
            Endpoint::Register => None,
            Endpoint::Login => None,
            Endpoint::VerifyEmail => None,
            Endpoint::ForgotPassword => None,
            Endpoint::ResetPassword => None,
            Endpoint::Me => Some(seq![UserRole::Admin, UserRole::User]),
            Endpoint::Users => Some(seq![UserRole::Admin]),
            Endpoint::Name => Some(seq![UserRole::Admin, UserRole::User]),
            Endpoint::Role => Some(seq![UserRole::Admin]),
            Endpoint::Password => Some(seq![UserRole::Admin, UserRole::User]),
        }
    }

    /// The path under which the endpoint is reached.
    pub fn path(&self) -> (path: &'static str)
        ensures
            path@ == self.route(),
    {
        match self {
            Endpoint::Register => "/api/auth/register",
            Endpoint::Login => "/api/auth/login",
            Endpoint::VerifyEmail => "/api/auth/verify",
            Endpoint::ForgotPassword => "/api/auth/forgot-password",
            Endpoint::ResetPassword => "/api/auth/reset-password",
            Endpoint::Me => "/api/users/me",
            Endpoint::Users => "/api/users/users",
            Endpoint::Name => "/api/users/name",
            Endpoint::Role => "/api/users/role",
            Endpoint::Password => "/api/users/password",
        }
    }

    /// The method that the endpoint answers to.
    pub fn method(&self) -> (method: Method)
        ensures
            method == self.verb(),
    {
        match self {
            Endpoint::Register => Method::Post,
            Endpoint::Login => Method::Post,
            Endpoint::VerifyEmail => Method::Get,
            Endpoint::ForgotPassword => Method::Post,
            Endpoint::ResetPassword => Method::Post,
            Endpoint::Me => Method::Get,
            Endpoint::Users => Method::Get,
            Endpoint::Name => Method::Put,
            Endpoint::Role => Method::Put,
            Endpoint::Password => Method::Put,
        }
    }

    /// The roles that may call the endpoint, or `None` where it is open.
    pub fn allowed_roles(&self) -> (allowed: Option<Vec<UserRole>>)
        ensures
            match allowed {
                Some(roles) => self.roles() == Some(roles@),
                None => self.roles().is_none(),
            },
    {
        match self {
            Endpoint::Register
            | Endpoint::Login
            | Endpoint::VerifyEmail
            | Endpoint::ForgotPassword
            | Endpoint::ResetPassword => None,
            Endpoint::Users | Endpoint::Role => {
                let mut roles: Vec<UserRole> = Vec::new();
                roles.push(UserRole::Admin);
                assert(roles@ =~= seq![UserRole::Admin]);
                Some(roles)
            },
            Endpoint::Me | Endpoint::Name | Endpoint::Password => {
                let mut roles: Vec<UserRole> = Vec::new();
                roles.push(UserRole::Admin);
                roles.push(UserRole::User);
                assert(roles@ =~= seq![UserRole::Admin, UserRole::User]);
                Some(roles)
            },
        }
    }
}

/// Every endpoint, in the order in which a request is matched against them.
pub fn endpoints() -> (all: Vec<Endpoint>)
    ensures
        forall|e: Endpoint| all@.contains(e),
{
    let mut all: Vec<Endpoint> = Vec::new();
    all.push(Endpoint::Register);
    all.push(Endpoint::Login);
    all.push(Endpoint::VerifyEmail);
    all.push(Endpoint::ForgotPassword);
    all.push(Endpoint::ResetPassword);
    all.push(Endpoint::Me);
    all.push(Endpoint::Users);
    all.push(Endpoint::Name);
    all.push(Endpoint::Role);
    all.push(Endpoint::Password);
    assert forall|e: Endpoint| all@.contains(e) by {
        match e {
            Endpoint::Register => assert(all@[0] == e),
            Endpoint::Login => assert(all@[1] == e),
            Endpoint::VerifyEmail => assert(all@[2] == e),
            Endpoint::ForgotPassword => assert(all@[3] == e),
            Endpoint::ResetPassword => assert(all@[4] == e),
            Endpoint::Me => assert(all@[5] == e),
            Endpoint::Users => assert(all@[6] == e),
            Endpoint::Name => assert(all@[7] == e),
            Endpoint::Role => assert(all@[8] == e),
            Endpoint::Password => assert(all@[9] == e),
        }
    }
    all
}

/// Whether `endpoint` is reached by `method` under `path`.
pub open spec fn serves(endpoint: Endpoint, method: Method, path: Seq<char>) -> bool {
    endpoint.verb() == method && endpoint.route() == path
}

/// The endpoint that a request with `method` and `path` is for. There is
/// none where no endpoint has this path with this method.
pub fn find_route(method: Method, path: &str) -> (found: Option<Endpoint>)
    ensures
        match found {
            Some(endpoint) => serves(endpoint, method, path@),
            None => forall|e: Endpoint| !serves(e, method, path@),
        },
{
    let all = endpoints();
    let mut i: usize = 0;
    while i < all.len()
        invariant
            i <= all.len(),
            forall|e: Endpoint| all@.contains(e),
            forall|k: int| 0 <= k < i ==> !serves(#[trigger] all@[k], method, path@),
        decreases all.len() - i,
    {
        let endpoint = all[i];
        if endpoint.method() == method && text_eq(endpoint.path(), path) {
            return Some(endpoint);
        }
        i += 1;
    }
    assert forall|e: Endpoint| !serves(e, method, path@) by {
        assert(all@.contains(e));
        let k = choose|k: int| 0 <= k < all@.len() && all@[k] == e;
        assert(!serves(all@[k], method, path@));
    }
    None
}

/// No two endpoints are reached by the same method under the same path, so
/// that a request is for one endpoint at most.
pub proof fn lemma_one_endpoint_per_request(
    a: Endpoint,
    b: Endpoint,
    method: Method,
    path: Seq<char>,
)
    requires
        serves(a, method, path),
        serves(b, method, path),
    ensures
        a == b,
{
    reveal_strlit("/api/auth/register");
    reveal_strlit("/api/auth/login");
    reveal_strlit("/api/auth/verify");
    reveal_strlit("/api/auth/forgot-password");
    reveal_strlit("/api/auth/reset-password");
    reveal_strlit("/api/users/me");
    reveal_strlit("/api/users/users");
    reveal_strlit("/api/users/name");
    reveal_strlit("/api/users/role");
    reveal_strlit("/api/users/password");
    if a != b {
        assert(a.route().len() != b.route().len() || a.route()[10] != b.route()[10] || a.route()[11]
            != b.route()[11] || a.route()[12] != b.route()[12]);
    }
}

/// What the guard hands on, as plain values.
pub open spec fn passed_view(r: Result<Option<JWTAuthMiddleware>, HttpError>) -> Result<
    Option<(UserView, ClaimsView)>,
    (u16, Seq<char>),
> {
    match r {
        Ok(Some(context)) => Ok(Some((context.user@, context.claims@))),
        Ok(None) => Ok(None),
        Err(e) => Err(e@),
    }
}

/// What the guard answers for `endpoint`, given what resolving the
/// credential gave.
///
/// An open endpoint is reached without a context, whatever the credential.
/// For another one a failure to resolve is reported under its status class,
/// an identity whose role is not among the endpoint's is refused with the
/// status and text of `PermissionDenied`, and every other identity passes
/// with its context.
pub open spec fn guard_result(
    endpoint: Endpoint,
    resolved: Result<(UserView, ClaimsView), ErrorMessage>,
) -> Result<Option<(UserView, ClaimsView)>, (u16, Seq<char>)> {
    match endpoint.roles() {
        None => Ok(None),
        Some(allowed) => match resolved {
            Err(kind) => Err((kind.status_class(), kind.text())),
            Ok(context) => if permits(allowed, context.0.role) {
                Ok(Some(context))
            } else {
                Err(
                    (
                        ErrorMessage::PermissionDenied.status_class(),
                        ErrorMessage::PermissionDenied.text(),
                    ),
                )
            },
        },
    }
}

/// Lets a resolved request through to `endpoint` or refuses it.
pub fn pass_guard(endpoint: Endpoint, resolved: Result<JWTAuthMiddleware, ErrorMessage>) -> (r:
    Result<Option<JWTAuthMiddleware>, HttpError>)
    ensures
        passed_view(r) == guard_result(endpoint, context_view(resolved)),
{
    let allowed = match endpoint.allowed_roles() {
        Some(allowed) => allowed,
        None => return Ok(None),
    };
    let context = match resolved {
        Ok(context) => context,
        Err(kind) => return Err(HttpError::from_kind(&kind)),
    };
    match authorize(&context, &allowed) {
        Ok(_) => Ok(Some(context)),
        Err(kind) => Err(HttpError::from_kind(&kind)),
    }
}

/// What the guard may answer for `endpoint` at the moment `now`: for an
/// open endpoint that it is reached without a context, and for another one
/// what `guard_result` makes of some outcome of resolving the credential
/// `raw` over `users`.
pub open spec fn guard_outcome(
    endpoint: Endpoint,
    service: TokenService,
    users: Seq<UserView>,
    raw: Option<Seq<char>>,
    now: i64,
    r: Result<Option<(UserView, ClaimsView)>, (u16, Seq<char>)>,
) -> bool {
    if endpoint.roles().is_none() {
        r == Ok::<Option<(UserView, ClaimsView)>, (u16, Seq<char>)>(None)
    } else {
        exists|resolved: Result<(UserView, ClaimsView), ErrorMessage>|
            resolve_outcome(service, users, raw, now, resolved) && r == #[trigger] guard_result(
                endpoint,
                resolved,
            )
    }
}

/// Decides whether a request with the `Authorization` value `raw` reaches
/// `endpoint`, as if the clock showed `now`.
///
/// An open endpoint is reached at once, and the credential is not looked
/// at. For another one the credential is resolved against `users`, and the
/// identity's role is held against the endpoint's roles.
pub fn guard_at(
    endpoint: Endpoint,
    service: &TokenService,
    users: &Users,
    raw: Option<&str>,
    now: i64,
) -> (r: Result<Option<JWTAuthMiddleware>, HttpError>)
    ensures
        guard_outcome(endpoint, *service, users@, text_view(raw), now, passed_view(r)),
{
    if endpoint.allowed_roles().is_none() {
        return Ok(None);
    }
    let resolved = resolve_at(service, users, raw, now);
    let ghost seen = context_view(resolved);
    let r = pass_guard(endpoint, resolved);
    assert(passed_view(r) == guard_result(endpoint, seen));
    r
}

/// Decides whether a request with the `Authorization` value `raw` reaches
/// `endpoint`, against the clock's present reading.
pub fn guard(endpoint: Endpoint, service: &TokenService, users: &Users, raw: Option<&str>) -> (r:
    Result<Option<JWTAuthMiddleware>, HttpError>)
    ensures
        exists|now: i64|
            guard_outcome(endpoint, *service, users@, text_view(raw), now, passed_view(r)),
{
    if endpoint.allowed_roles().is_none() {
        assert(guard_outcome(
            endpoint,
            *service,
            users@,
            text_view(raw),
            0,
            passed_view(Ok::<Option<JWTAuthMiddleware>, HttpError>(None)),
        ));
        return Ok(None);
    }
    let resolved = resolve(service, users, raw);
    let ghost seen = context_view(resolved);
    let ghost now = choose|now: i64| resolve_outcome(*service, users@, text_view(raw), now, seen);
    let r = pass_guard(endpoint, resolved);
    assert(resolve_outcome(*service, users@, text_view(raw), now, seen) && passed_view(r)
        == guard_result(endpoint, seen));
    assert(guard_outcome(endpoint, *service, users@, text_view(raw), now, passed_view(r)));
    r
}

/// A request reaches an endpoint for administrators only with a context
/// whose identity is an administrator, and an endpoint that is not open
/// only with a context that resolving its credential gave.
pub proof fn lemma_guarded(
    endpoint: Endpoint,
    service: TokenService,
    users: Seq<UserView>,
    raw: Option<Seq<char>>,
    now: i64,
    r: Result<Option<(UserView, ClaimsView)>, (u16, Seq<char>)>,
)
    requires
        guard_outcome(endpoint, service, users, raw, now, r),
        r is Ok,
    ensures
        endpoint.roles() matches Some(allowed) ==> (r matches Ok(Some(context)) && permits(
            allowed,
            context.0.role,
        ) && resolve_outcome(service, users, raw, now, Ok(context))),
        endpoint == Endpoint::Users || endpoint == Endpoint::Role ==> (r matches Ok(Some(context))
            && context.0.role == UserRole::Admin),
{
    if endpoint == Endpoint::Users || endpoint == Endpoint::Role {
        let context = r->Ok_0->0;
        let allowed = seq![UserRole::Admin];
        assert(permits(allowed, context.0.role));
        let i = choose|i: int| 0 <= i < allowed.len() && allowed[i] == context.0.role;
        assert(allowed[i] == UserRole::Admin);
    }
}

} // verus!
