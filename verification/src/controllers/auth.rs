//! Registering an identity and logging in.

use vstd::prelude::*;

use crate::clock::unix_micros;
use crate::dtos::{LoginUserDto, RegisterUserDto, Response, UserLoginResponseDto};
use crate::error::{ErrorMessage, HttpError};
use crate::models::{new_user_id, User, UserRole, UserView};
use crate::password::{compare, compare_result, hash_outcome, hash_password, length_error};
use crate::store::{emails_distinct, holds_email, holds_id, stamped, written, Users};
use crate::token::{create_jwt, issued_view, IssueError, TokenService};

verus! {

/// A registration with its password hashed: what is left to do is to
/// write it.
#[derive(Debug, Clone)]
pub struct NewUser {
    pub name: String,
    pub email: String,
    pub password: String,
}

/// What the client is told where an operation succeeded.
pub const SUCCESS: &'static str = "success";

/// What a new identity is told.
pub const REGISTERED: &'static str =
    "Registration successful! Please check your email to verify your account.";

/// A reply or an error as plain values: the status and the text.
pub open spec fn error_view<T>(r: Result<T, HttpError>) -> Option<(u16, Seq<char>)> {
    match r {
        Ok(_) => None,
        Err(e) => Some(e@),
    }
}

/// What preparing the registration `body` may answer: for a password that
/// is empty or too long its length error under its status class, and for
/// every other password the name and the address with a hash that was made
/// for the password.
pub open spec fn prepared(body: RegisterUserDto, r: Result<NewUser, HttpError>) -> bool {
    match length_error(body.password@) {
        Some(kind) => error_view(r) == Some((kind.status_class(), kind.text())),
        None => r matches Ok(new) && new.name@ == body.name@ && new.email@ == body.email@
            && hash_outcome(body.password@, Ok(new.password@)),
    }
}

/// What preparing the registration `body` answers, given what hashing its
/// password returned: the name and the address with the hash, or the
/// error of the hashing under its status class.
pub fn registration_of(body: &RegisterUserDto, hashed: Result<String, ErrorMessage>) -> (r: Result<
    NewUser,
    HttpError,
>)
    ensures
        match hashed {
            Ok(password) => r matches Ok(new) && new.name@ == body.name@ && new.email@
                == body.email@ && new.password@ == password@,
            Err(kind) => error_view(r) == Some((kind.status_class(), kind.text())),
        },
{
    match hashed {
        Ok(password) => Ok(
            NewUser { name: body.name.clone(), email: body.email.clone(), password },
        ),
        Err(kind) => Err(HttpError::from_kind(&kind)),
    }
}

/// Hashes the password of a registration. The rules on the shape of the
/// request are not checked here: `RegisterUserDto::validate` does that.
pub fn prepare_registration(body: &RegisterUserDto) -> (r: Result<NewUser, HttpError>)
    ensures
        prepared(*body, r),
{
    registration_of(body, hash_password(body.password.as_str()))
}

/// The reply to a registration, given what the store answered when the new
/// identity was written: the confirmation, or the store's error under its
/// status class, which is 409 for an address that is in use.
pub fn registration_reply(saved: Result<(), ErrorMessage>) -> (r: Result<Response, HttpError>)
    ensures
        match saved {
            Ok(_) => r matches Ok(reply) && reply.status@ == SUCCESS@ && reply.message@
                == REGISTERED@,
            Err(kind) => error_view(r) == Some((kind.status_class(), kind.text())),
        },
{
    match saved {
        Ok(_) => Ok(Response { status: SUCCESS, message: REGISTERED.to_owned() }),
        Err(kind) => Err(HttpError::from_kind(&kind)),
    }
}

/// The record of a registration before the store has written it: the
/// role `User`, not verified.
pub open spec fn registered(id: Seq<char>, new: NewUser) -> UserView {
    UserView {
        id,
        name: new.name@,
        email: new.email@,
        password: new.password@,
        role: UserRole::User,
        verified: false,
        created_at: None,
        updated_at: None,
    }
}

/// What registering `body` may answer, and what it then leaves in the
/// store.
///
/// Where preparing fails, its error stands and nothing is written. An
/// address that is in use gives the status 409 with the text of
/// `EmailExists`, and nothing is written. Otherwise the reply confirms, and
/// the store holds the new record, with a hash that `compare` accepts for
/// the password.
pub open spec fn register_outcome(
    before: Seq<UserView>,
    after: Seq<UserView>,
    body: RegisterUserDto,
    r: Result<Response, HttpError>,
) -> bool {
    match r {
        Err(e) => after == before && (prepared(body, Err(e)) || (holds_email(
            before,
            body.email@,
        ) && e@ == (ErrorMessage::EmailExists.status_class(), ErrorMessage::EmailExists.text()))),
        Ok(reply) => {
            &&& reply.status@ == SUCCESS@
            &&& reply.message@ == REGISTERED@
            &&& !holds_email(before, body.email@)
            &&& exists|id: Seq<char>, new: NewUser, at: i64|
                prepared(body, Ok(new)) && after == written(
                    before,
                    #[trigger] stamped(registered(id, new), at),
                )
        },
    }
}

/// Writes the prepared registration `new` under the id `id` at the moment
/// `at`, with the role `User`, not verified.
///
/// An address that is in use gives the status and text of `EmailExists`,
/// and nothing is written. Otherwise the record is written and the reply
/// confirms.
pub fn store_registration(users: &mut Users, new: &NewUser, id: String, at: i64) -> (r: Result<
    Response,
    HttpError,
>)
    requires
        old(users).wf(),
    ensures
        final(users).wf(),
        if holds_email(old(users)@, new.email@) {
            final(users)@ == old(users)@ && error_view(r) == Some(
                (ErrorMessage::EmailExists.status_class(), ErrorMessage::EmailExists.text()),
            )
        } else {
            r matches Ok(reply) && reply.status@ == SUCCESS@ && reply.message@ == REGISTERED@
                && final(users)@ == written(old(users)@, stamped(registered(id@, *new), at))
        },
{
    let user = User {
        id,
        name: new.name.clone(),
        email: new.email.clone(),
        password: new.password.clone(),
        role: UserRole::User,
        verified: false,
        created_at: None,
        updated_at: None,
    };
    assert(user@ == registered(id@, *new));
    registration_reply(users.save(user, at))
}

/// Registers the identity that `body` describes: hashes the password and
/// writes the record with the role `User`, not verified. No token is
/// issued.
pub fn register(users: &mut Users, body: &RegisterUserDto) -> (r: Result<Response, HttpError>)
    requires
        old(users).wf(),
    ensures
        final(users).wf(),
        register_outcome(old(users)@, final(users)@, *body, r),
{
    let new = match prepare_registration(body) {
        Ok(new) => new,
        Err(e) => return Err(e),
    };
    let id = new_user_id();
    let at = unix_micros();
    let r = store_registration(users, &new, id, at);
    proof {
        if r is Ok {
            assert(users@ == written(old(users)@, stamped(registered(id@, new), at)));
        }
    }
    r
}

/// What a login with `body` may answer, where `found` is what the store
/// holds under the address.
///
/// No identity, a password that the stored hash does not accept, and a
/// password or a stored hash that cannot be compared all give the same
/// answer: the status and text of `WrongCredentials`. Where the password is
/// accepted the answer is that of issuing a token for the identity's id and
/// address at some reading of the clock: the token, or the status and text
/// of `ServerError` where none was issued. A service whose lifetime fits on
/// top of every reading of the clock always answers with a token.
pub open spec fn login_outcome(
    service: TokenService,
    body: LoginUserDto,
    found: Option<UserView>,
    r: Result<UserLoginResponseDto, HttpError>,
) -> bool {
    if found matches Some(user) && compare_result(body.password@, user.password) == Ok::<
        bool,
        ErrorMessage,
    >(true) {
        &&& service.always_issues() ==> r is Ok
        &&& match r {
            Ok(reply) => reply.status@ == SUCCESS@ && service.issue_now(
                found->0.id,
                found->0.email,
                Ok(reply.token@),
            ),
            Err(e) => e@ == (
                ErrorMessage::ServerError.status_class(),
                ErrorMessage::ServerError.text(),
            ) && exists|cause: IssueError| #[trigger]
                service.issue_now(found->0.id, found->0.email, Err(cause)),
        }
    } else {
        error_view(r) == Some(
            (
                ErrorMessage::WrongCredentials.status_class(),
                ErrorMessage::WrongCredentials.text(),
            ),
        )
    }
}

/// The identity that a lookup found, as plain values.
pub open spec fn found_view(found: Option<&User>) -> Option<UserView> {
    match found {
        Some(user) => Some(user@),
        None => None,
    }
}

/// Whether a login goes on, given what comparing the password with the
/// stored hash returned, or `None` where no identity was found. It goes on
/// for `Ok(true)` alone. Everything else is answered alike, with the status
/// and text of `WrongCredentials`.
pub fn judge_credentials(compared: Option<Result<bool, ErrorMessage>>) -> (r: Result<
    (),
    HttpError,
>)
    ensures
        if compared == Some(Ok::<bool, ErrorMessage>(true)) {
            r is Ok
        } else {
            error_view(r) == Some(
                (
                    ErrorMessage::WrongCredentials.status_class(),
                    ErrorMessage::WrongCredentials.text(),
                ),
            )
        },
{
    match compared {
        Some(Ok(true)) => Ok(()),
        _ => Err(HttpError::from_kind(&ErrorMessage::WrongCredentials)),
    }
}

/// The reply to a login whose password was accepted, given what issuing the
/// token returned: the token, or the status and text of `ServerError`.
pub fn login_reply(issued: Result<String, IssueError>) -> (r: Result<
    UserLoginResponseDto,
    HttpError,
>)
    ensures
        match issued {
            Ok(token) => r matches Ok(reply) && reply.status@ == SUCCESS@ && reply.token@
                == token@,
            Err(_) => error_view(r) == Some(
                (ErrorMessage::ServerError.status_class(), ErrorMessage::ServerError.text()),
            ),
        },
{
    match issued {
        Ok(token) => Ok(UserLoginResponseDto { status: SUCCESS.to_owned(), token }),
        Err(_) => Err(HttpError::from_kind(&ErrorMessage::ServerError)),
    }
}

/// Logs in with `body`, where `found` is what the store holds under the
/// address: compares the password with the stored hash and issues a token.
/// The rules on the shape of the request are not checked here:
/// `LoginUserDto::validate` does that.
pub fn login_with(service: &TokenService, body: &LoginUserDto, found: Option<&User>) -> (r: Result<
    UserLoginResponseDto,
    HttpError,
>)
    ensures
        login_outcome(*service, *body, found_view(found), r),
{
    let compared = match found {
        Some(user) => Some(compare(body.password.as_str(), user.password.as_str())),
        None => None,
    };
    if let Err(e) = judge_credentials(compared) {
        return Err(e);
    }
    let user = found.unwrap();
    let issued = create_jwt(service, user.id.as_str(), user.email.as_str());
    let r = login_reply(issued);
    proof {
        if r is Ok {
            assert(service.issue_now(user@.id, user@.email, Ok(r->Ok_0.token@)));
        } else {
            assert(service.issue_now(user@.id, user@.email, Err(issued->Err_0)));
        }
    }
    r
}

/// The identity of `users` with the address `email`, if there is one.
pub open spec fn with_email(users: Seq<UserView>, email: Seq<char>) -> Option<UserView> {
    if holds_email(users, email) {
        Some(users[choose|i: int| 0 <= i < users.len() && users[i].email == email])
    } else {
        None
    }
}

/// Logs in with `body` against the identities in `users`.
pub fn login(users: &Users, service: &TokenService, body: &LoginUserDto) -> (r: Result<
    UserLoginResponseDto,
    HttpError,
>)
    requires
        users.wf(),
    ensures
        login_outcome(*service, *body, with_email(users@, body.email@), r),
{
    let found = users.find_by_email(body.email.as_str());
    proof {
        if let Some(user) = found {
            let i = choose|i: int| 0 <= i < users@.len() && users@[i] == user@;
            let j = choose|j: int| 0 <= j < users@.len() && users@[j].email == body.email@;
            assert(users@[i].email == body.email@);
            assert(i == j);
        }
    }
    login_with(service, body, found)
}

/// The record that a successful registration wrote is in the store under
/// the address of the request, with the role `User`, not verified, and with
/// a hash that was made for the password of the request.
pub proof fn lemma_registered_is_stored(
    before: Seq<UserView>,
    after: Seq<UserView>,
    body: RegisterUserDto,
    reply: Response,
)
    requires
        register_outcome(before, after, body, Ok(reply)),
    ensures
        holds_email(after, body.email@),
        exists|i: int|
            0 <= i < after.len() && (#[trigger] after[i]).email == body.email@ && hash_outcome(
                body.password@,
                Ok(after[i].password),
            ) && after[i].role == UserRole::User && !after[i].verified,
{
    let (id, new, at) = choose|id: Seq<char>, new: NewUser, at: i64|
        prepared(body, Ok(new)) && after == written(
            before,
            #[trigger] stamped(registered(id, new), at),
        );
    let record = stamped(registered(id, new), at);
    let i = if holds_id(before, record.id) {
        choose|i: int| 0 <= i < before.len() && before[i].id == record.id
    } else {
        before.len() as int
    };
    assert(after[i] == record);
}

/// Registering an address a second time writes nothing and is refused:
/// once the first registration succeeded, a second one for the same address
/// answers with an error, which is that of `EmailExists` unless hashing
/// failed before the store was asked.
pub proof fn lemma_second_registration_is_refused(
    before: Seq<UserView>,
    between: Seq<UserView>,
    after: Seq<UserView>,
    first: RegisterUserDto,
    reply: Response,
    second: RegisterUserDto,
    r: Result<Response, HttpError>,
)
    requires
        register_outcome(before, between, first, Ok(reply)),
        second.email@ == first.email@,
        register_outcome(between, after, second, r),
    ensures
        r is Err,
        after == between,
        prepared(second, Err(r->Err_0)) || r->Err_0@ == (
            ErrorMessage::EmailExists.status_class(),
            ErrorMessage::EmailExists.text(),
        ),
{
    lemma_registered_is_stored(before, between, first, reply);
}

/// After a successful registration, a login with the same address and the
/// same password is never answered with `WrongCredentials`: it yields a
/// token for the new identity, unless the expiry of the token cannot be
/// held, which does not happen with a service whose lifetime fits on top of
/// every reading of the clock. A login with another password that Argon2
/// does not accept for the stored hash is answered with `WrongCredentials`.
pub proof fn lemma_login_after_registration(
    service: TokenService,
    before: Seq<UserView>,
    after: Seq<UserView>,
    body: RegisterUserDto,
    reply: Response,
    credentials: LoginUserDto,
    r: Result<UserLoginResponseDto, HttpError>,
)
    requires
        emails_distinct(after),
        register_outcome(before, after, body, Ok(reply)),
        credentials.email@ == body.email@,
        login_outcome(service, credentials, with_email(after, credentials.email@), r),
    ensures
        with_email(after, credentials.email@) matches Some(user) && user.email == body.email@
            && compare_result(body.password@, user.password) == Ok::<bool, ErrorMessage>(true),
        credentials.password@ == body.password@ ==> (r matches Ok(login) ==> login.status@
            == SUCCESS@) && (r matches Err(e) ==> e@ == (
            ErrorMessage::ServerError.status_class(),
            ErrorMessage::ServerError.text(),
        )),
        credentials.password@ == body.password@ && service.always_issues() ==> (r matches Ok(
            login,
        ) && login.status@ == SUCCESS@ && service.issue_now(
            with_email(after, credentials.email@)->0.id,
            body.email@,
            Ok(login.token@),
        )),
        !crate::password::argon2_accepts(
            credentials.password@,
            with_email(after, credentials.email@)->0.password,
        ) ==> error_view(r) == Some(
            (
                ErrorMessage::WrongCredentials.status_class(),
                ErrorMessage::WrongCredentials.text(),
            ),
        ),
{
    let (id, new, at) = choose|id: Seq<char>, new: NewUser, at: i64|
        prepared(body, Ok(new)) && after == written(
            before,
            #[trigger] stamped(registered(id, new), at),
        );
    let record = stamped(registered(id, new), at);
    let i = if holds_id(before, record.id) {
        choose|i: int| 0 <= i < before.len() && before[i].id == record.id
    } else {
        before.len() as int
    };
    assert(after[i] == record);
    assert(holds_email(after, body.email@));
    let j = choose|j: int| 0 <= j < after.len() && after[j].email == credentials.email@;
    assert(i == j);
}

/// A login with a password that the stored hash accepts returns a token
/// for the identity, where the service's lifetime fits on top of every
/// reading of the clock.
pub proof fn lemma_login_returns_a_token(
    service: TokenService,
    body: LoginUserDto,
    user: UserView,
    r: Result<UserLoginResponseDto, HttpError>,
)
    requires
        service.always_issues(),
        compare_result(body.password@, user.password) == Ok::<bool, ErrorMessage>(true),
        login_outcome(service, body, Some(user), r),
    ensures
        r matches Ok(reply) && reply.status@ == SUCCESS@ && service.issue_now(
            user.id,
            user.email,
            Ok(reply.token@),
        ),
{
}

} // verus!
