//! What an authenticated identity may ask for: its own record, the list of
//! identities, and changes to its name, role and password.

use vstd::prelude::*;

use crate::controllers::auth::{error_view, found_view, SUCCESS};
use crate::dtos::{
    describe_violations, shown, verdict, violations_text, FilterUserDto, FilterUserView,
    NameUpdateDto, RequestQueryDto, Response, RoleUpdateDto, UserData, UserListResponseDto,
    UserPasswordUpdateDto, UserResponse,
};
use crate::error::{ErrorMessage, HttpError, BAD_REQUEST};
use crate::middleware::JWTAuthMiddleware;
use crate::models::{User, UserView};
use crate::password::{
    acceptable_length, compare, compare_result, hash_outcome, hash_password, length_error,
};
use crate::store::{
    holds_id, page_of, page_start, renamed, stored, views, with_password, with_role, Users,
};

verus! {

/// The page that is shown where a request names none.
pub const DEFAULT_PAGE: usize = 1;

/// The number of identities on a page where a request names none.
pub const DEFAULT_LIMIT: usize = 10;

/// What the caller is told once its password was changed.
pub const PASSWORD_UPDATED: &'static str = "Password updated Successfully";

/// What the caller is told where its present password was not the one it
/// gave.
pub const OLD_PASSWORD_INCORRECT: &'static str = "Old password is incorrect";

/// The reply that shows `user`.
pub fn user_reply(user: &User) -> (reply: UserResponse)
    requires
        stored(user@),
    ensures
        reply.status@ == SUCCESS@,
        reply.user.user@ == shown(user@),
{
    UserResponse {
        status: SUCCESS.to_owned(),
        user: UserData { user: FilterUserDto::filter_user(user) },
    }
}

/// Shows the caller its own record, without the password hash.
pub fn get_me(context: &JWTAuthMiddleware) -> (reply: UserResponse)
    requires
        stored(context.user@),
    ensures
        reply.status@ == SUCCESS@,
        reply.user.user@ == shown(context.user@),
{
    user_reply(&context.user)
}

/// The page and the page length that `query` asks for, with the defaults
/// where it names none.
pub open spec fn asked_page(query: RequestQueryDto) -> (usize, usize) {
    (
        match query.page {
            Some(page) => page,
            None => DEFAULT_PAGE,
        },
        match query.limit {
            Some(limit) => limit,
            None => DEFAULT_LIMIT,
        },
    )
}

/// Checks the rules of a query for a page and fills in the defaults. The
/// page is then at least 1 and the page length from 1 to 50.
pub fn page_request(query: &RequestQueryDto) -> (r: Result<(usize, usize), HttpError>)
    ensures
        match verdict(query.rules()) {
            Err(violations) => error_view(r) == Some((BAD_REQUEST, violations_text(violations))),
            Ok(_) => r matches Ok(asked) && asked == asked_page(*query) && asked.0 >= 1 && 1
                <= asked.1 <= 50,
        },
{
    if let Err(violations) = query.validate() {
        let text = describe_violations(&violations);
        return Err(HttpError::bad_request(text.as_str()));
    }
    proof {
        reveal_with_fuel(crate::dtos::violations_among, 3);
        assert(query.rules().drop_last() =~= seq![query.rules()[0]]);
        assert(query.rules().drop_last().drop_last() =~= Seq::empty());
    }
    let page = match query.page {
        Some(page) => page,
        None => DEFAULT_PAGE,
    };
    let limit = match query.limit {
        Some(limit) => limit,
        None => DEFAULT_LIMIT,
    };
    Ok((page, limit))
}

/// The number of identities as the list reply holds it.
pub open spec fn count_of(n: nat) -> i64 {
    if n <= i64::MAX {
        n as i64
    } else {
        i64::MAX
    }
}

/// The reply that lists `users`, which the store has written, beside the
/// number `user_count` of all identities.
pub fn users_reply(users: &Vec<User>, user_count: i64) -> (reply: UserListResponseDto)
    requires
        forall|i: int| 0 <= i < users.len() ==> stored(#[trigger] users[i]@),
    ensures
        reply.status@ == SUCCESS@,
        reply.result == user_count,
        reply.users.len() == users.len(),
        forall|i: int| 0 <= i < users.len() ==> (#[trigger] reply.users[i])@ == shown(users[i]@),
{
    UserListResponseDto {
        status: SUCCESS.to_owned(),
        users: FilterUserDto::filter_users(users),
        result: user_count,
    }
}

/// The identities that a list reply shows, as plain values.
pub open spec fn listed(reply: UserListResponseDto) -> Seq<FilterUserView> {
    reply.users@.map_values(|dto: FilterUserDto| dto@)
}

/// Lists one page of the identities, beside the number of all of them.
pub fn get_users(users: &Users, query: &RequestQueryDto) -> (r: Result<
    UserListResponseDto,
    HttpError,
>)
    requires
        users.wf(),
    ensures
        match verdict(query.rules()) {
            Err(violations) => error_view(r) == Some((BAD_REQUEST, violations_text(violations))),
            Ok(_) => r matches Ok(reply) && reply.status@ == SUCCESS@ && reply.result == count_of(
                users@.len(),
            ) && listed(reply) == page_of(
                users@,
                asked_page(*query).0,
                asked_page(*query).1,
            ).map_values(|u: UserView| shown(u)),
        },
{
    let (page, limit) = match page_request(query) {
        Ok(asked) => asked,
        Err(e) => return Err(e),
    };
    let list = users.page(page, limit);
    let n = users.len();
    let user_count: i64 = if n as u64 > i64::MAX as u64 {
        i64::MAX
    } else {
        n as i64
    };
    let ghost shown_page = page_of(users@, page, limit);
    assert forall|i: int| 0 <= i < list.len() implies stored(#[trigger] list[i]@) by {
        assert(views(list@).len() == list.len());
        assert(views(list@)[i] == list[i]@);
        let start = page_start(page, limit);
        assert(0 <= start) by (nonlinear_arith)
            requires
                start == (page - 1) * limit,
                page >= 1,
                limit >= 0,
        {}
        assert(shown_page[i] == users@[start + i]);
    }
    let reply = users_reply(&list, user_count);
    assert(listed(reply) =~= shown_page.map_values(|u: UserView| shown(u))) by {
        assert forall|i: int| 0 <= i < list.len() implies listed(reply)[i] == shown(
            shown_page[i],
        ) by {
            assert(views(list@)[i] == list[i]@);
            assert(reply.users[i]@ == shown(list[i]@));
        }
    }
    Ok(reply)
}

/// The status and text of an error that is no more specific than that the
/// server failed.
pub open spec fn server_failure() -> (u16, Seq<char>) {
    (ErrorMessage::ServerError.status_class(), ErrorMessage::ServerError.text())
}

/// Changes the caller's name and shows the record as it then is.
///
/// Broken rules give the status 400 with the violations' text, and nothing
/// changes. Nothing changes either where the store no longer holds the
/// caller; that is answered as a failure of the server.
pub fn update_user_name(users: &mut Users, context: &JWTAuthMiddleware, body: &NameUpdateDto) -> (r:
    Result<UserResponse, HttpError>)
    requires
        old(users).wf(),
    ensures
        final(users).wf(),
        match verdict(body.rules()) {
            Err(violations) => final(users)@ == old(users)@ && error_view(r) == Some(
                (BAD_REQUEST, violations_text(violations)),
            ),
            Ok(_) => {
                &&& final(users)@ == renamed(old(users)@, context.user.id@, body.name@)
                &&& if holds_id(old(users)@, context.user.id@) {
                    r matches Ok(reply) && reply.status@ == SUCCESS@ && reply.user.user@.id
                        == context.user.id@ && reply.user.user@.name == body.name@ && exists|
                        u: UserView,
                    |
                        final(users)@.contains(u) && reply.user.user@ == #[trigger] shown(u)
                } else {
                    error_view(r) == Some(server_failure())
                }
            },
        },
{
    if let Err(violations) = body.validate() {
        let text = describe_violations(&violations);
        return Err(HttpError::bad_request(text.as_str()));
    }
    match users.update_name(context.user.id.as_str(), body.name.as_str()) {
        Some(user) => {
            let reply = user_reply(&user);
            assert(reply.user.user@ == shown(user@));
            Ok(reply)
        },
        None => Err(HttpError::from_kind(&ErrorMessage::ServerError)),
    }
}

/// Changes the caller's role and shows the record as it then is.
///
/// Every role meets the rule on roles. Nothing changes where the store no
/// longer holds the caller; that is answered as a failure of the server.
pub fn update_user_role(users: &mut Users, context: &JWTAuthMiddleware, body: &RoleUpdateDto) -> (r:
    Result<UserResponse, HttpError>)
    requires
        old(users).wf(),
    ensures
        final(users).wf(),
        final(users)@ == with_role(old(users)@, context.user.id@, body.role),
        if holds_id(old(users)@, context.user.id@) {
            r matches Ok(reply) && reply.status@ == SUCCESS@ && reply.user.user@.id
                == context.user.id@ && reply.user.user@.role == body.role.name() && exists|
                u: UserView,
            |
                final(users)@.contains(u) && reply.user.user@ == #[trigger] shown(u)
        } else {
            error_view(r) == Some(server_failure())
        },
{
    if let Err(violations) = body.validate() {
        let text = describe_violations(&violations);
        return Err(HttpError::bad_request(text.as_str()));
    }
    match users.update_role(context.user.id.as_str(), body.role) {
        Some(user) => {
            let reply = user_reply(&user);
            assert(reply.user.user@ == shown(user@));
            Ok(reply)
        },
        None => Err(HttpError::from_kind(&ErrorMessage::ServerError)),
    }
}

/// What deciding on the change of password `body` may answer, where `found`
/// is what the store holds under the caller's id.
///
/// Broken rules give the status 400 with the violations' text. Without an
/// identity the token is not believed: the status and text of
/// `InvalidToken`. A present password that cannot be compared gives the
/// error of the comparison under its status class, and one that the stored
/// hash does not accept the status 400 with `OLD_PASSWORD_INCORRECT`. Then
/// a new password that is too long gives its length error under its status
/// class, and every other one is hashed: the answer is a hash that was made
/// for it.
pub open spec fn password_change_outcome(
    body: UserPasswordUpdateDto,
    found: Option<UserView>,
    r: Result<String, HttpError>,
) -> bool {
    match verdict(body.rules()) {
        Err(violations) => error_view(r) == Some((BAD_REQUEST, violations_text(violations))),
        Ok(_) => match found {
            None => error_view(r) == Some(
                (ErrorMessage::InvalidToken.status_class(), ErrorMessage::InvalidToken.text()),
            ),
            Some(user) => match compare_result(body.old_password@, user.password) {
                Err(kind) => error_view(r) == Some((kind.status_class(), kind.text())),
                Ok(false) => error_view(r) == Some((BAD_REQUEST, OLD_PASSWORD_INCORRECT@)),
                Ok(true) => match length_error(body.new_password@) {
                    Some(kind) => error_view(r) == Some((kind.status_class(), kind.text())),
                    None => r matches Ok(hashed) && hash_outcome(body.new_password@, Ok(hashed@)),
                },
            },
        },
    }
}

/// Whether a change of password goes on, given what comparing the present
/// password with the stored hash returned. An error of the comparison is
/// passed on under its status class, and a password that the hash does not
/// accept gives the status 400 with `OLD_PASSWORD_INCORRECT`.
pub fn judge_old_password(compared: Result<bool, ErrorMessage>) -> (r: Result<(), HttpError>)
    ensures
        match compared {
            Ok(true) => r is Ok,
            Ok(false) => error_view(r) == Some((BAD_REQUEST, OLD_PASSWORD_INCORRECT@)),
            Err(kind) => error_view(r) == Some((kind.status_class(), kind.text())),
        },
{
    match compared {
        Ok(true) => Ok(()),
        Ok(false) => Err(HttpError::bad_request(OLD_PASSWORD_INCORRECT)),
        Err(kind) => Err(HttpError::from_kind(&kind)),
    }
}

/// The hash to write, given what hashing the new password returned, or the
/// error of the hashing under its status class.
pub fn new_hash_or_error(hashed: Result<String, ErrorMessage>) -> (r: Result<String, HttpError>)
    ensures
        match hashed {
            Ok(h) => r matches Ok(new) && new@ == h@,
            Err(kind) => error_view(r) == Some((kind.status_class(), kind.text())),
        },
{
    match hashed {
        Ok(h) => Ok(h),
        Err(kind) => Err(HttpError::from_kind(&kind)),
    }
}

/// Decides on a change of password, where `found` is what the store holds
/// under the caller's id: checks the rules, verifies the present password
/// against the stored hash, and hashes the new one. What is returned is the
/// hash to write.
pub fn password_change(body: &UserPasswordUpdateDto, found: Option<&User>) -> (r: Result<
    String,
    HttpError,
>)
    ensures
        password_change_outcome(*body, found_view(found), r),
{
    if let Err(violations) = body.validate() {
        let text = describe_violations(&violations);
        return Err(HttpError::bad_request(text.as_str()));
    }
    let user = match found {
        Some(user) => user,
        None => return Err(HttpError::from_kind(&ErrorMessage::InvalidToken)),
    };
    let compared = compare(body.old_password.as_str(), user.password.as_str());
    if let Err(e) = judge_old_password(compared) {
        return Err(e);
    }
    new_hash_or_error(hash_password(body.new_password.as_str()))
}

/// The identity of `users` with the id `id`, if there is one.
pub open spec fn with_id(users: Seq<UserView>, id: Seq<char>) -> Option<UserView> {
    if holds_id(users, id) {
        Some(users[choose|i: int| 0 <= i < users.len() && users[i].id == id])
    } else {
        None
    }
}

/// Changes the caller's password: decides as `password_change` does on what
/// the store holds under the caller's id, and writes the new hash. Where
/// the decision is an error, nothing changes.
pub fn update_user_password(
    users: &mut Users,
    context: &JWTAuthMiddleware,
    body: &UserPasswordUpdateDto,
) -> (r: Result<Response, HttpError>)
    requires
        old(users).wf(),
    ensures
        final(users).wf(),
        match r {
            Ok(reply) => reply.status@ == SUCCESS@ && reply.message@ == PASSWORD_UPDATED@
                && exists|hashed: String|
                password_change_outcome(
                    *body,
                    with_id(old(users)@, context.user.id@),
                    Ok(hashed),
                ) && final(users)@ == #[trigger] with_password(
                    old(users)@,
                    context.user.id@,
                    hashed@,
                ),
            Err(e) => final(users)@ == old(users)@ && password_change_outcome(
                *body,
                with_id(old(users)@, context.user.id@),
                Err(e),
            ),
        },
{
    let found = users.find_by_id(context.user.id.as_str());
    proof {
        if let Some(user) = found {
            let i = choose|i: int| 0 <= i < users@.len() && users@[i] == user@;
            let j = choose|j: int| 0 <= j < users@.len() && users@[j].id == context.user.id@;
            assert(users@[i].id == context.user.id@);
            assert(i == j);
        }
    }
    let hashed = match password_change(body, found) {
        Ok(hashed) => hashed,
        Err(e) => return Err(e),
    };
    users.update_password(context.user.id.as_str(), hashed.as_str());
    Ok(Response { status: SUCCESS, message: PASSWORD_UPDATED.to_owned() })
}

/// A change of password whose rules are met succeeds where the store holds
/// the caller, the stored hash accepts the present password and the new
/// password has an acceptable length: the answer is a hash that `compare`
/// accepts for the new password and that is not the new password.
pub proof fn lemma_password_change_succeeds(
    body: UserPasswordUpdateDto,
    user: UserView,
    r: Result<String, HttpError>,
)
    requires
        verdict(body.rules()) is Ok,
        compare_result(body.old_password@, user.password) == Ok::<bool, ErrorMessage>(true),
        acceptable_length(body.new_password@),
        password_change_outcome(body, Some(user), r),
    ensures
        r matches Ok(hashed) && hashed@ != body.new_password@ && compare_result(
            body.new_password@,
            hashed@,
        ) == Ok::<bool, ErrorMessage>(true),
{
    crate::text::lemma_empty_has_no_bytes(body.new_password@);
}

/// Where `update_user_password` succeeded, the store holds for the caller a
/// hash that `compare` accepts for the new password and that is not the new
/// password, and every other identity is as it was.
pub proof fn lemma_updated_password_is_hashed(
    before: Seq<UserView>,
    after: Seq<UserView>,
    id: Seq<char>,
    body: UserPasswordUpdateDto,
    hashed: String,
)
    requires
        password_change_outcome(body, with_id(before, id), Ok(hashed)),
        after == with_password(before, id, hashed@),
    ensures
        holds_id(before, id),
        after.len() == before.len(),
        forall|i: int|
            0 <= i < after.len() ==> if before[i].id == id {
                (#[trigger] after[i]).password == hashed@ && after[i].password
                    != body.new_password@ && compare_result(
                    body.new_password@,
                    after[i].password,
                ) == Ok::<bool, ErrorMessage>(true)
            } else {
                after[i] == before[i]
            },
{
}

} // verus!
