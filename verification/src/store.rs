//! A user store in memory: identities with no id and no e-mail address used
//! twice.

use vstd::prelude::*;

use crate::error::ErrorMessage;
use crate::models::{User, UserRole, UserView};
use crate::text::text_eq;

verus! {

/// The records of `users` as plain values, in their order.
pub open spec fn views(users: Seq<User>) -> Seq<UserView> {
    users.map_values(|u: User| u@)
}

/// Whether no two of `users` share an id.
pub open spec fn ids_distinct(users: Seq<UserView>) -> bool {
    forall|i: int, j: int| 0 <= i < j < users.len() ==> users[i].id != users[j].id
}

/// Whether no two of `users` share an e-mail address.
pub open spec fn emails_distinct(users: Seq<UserView>) -> bool {
    forall|i: int, j: int| 0 <= i < j < users.len() ==> users[i].email != users[j].email
}

/// Whether one of `users` has the e-mail address `email`.
pub open spec fn holds_email(users: Seq<UserView>, email: Seq<char>) -> bool {
    exists|i: int| 0 <= i < users.len() && users[i].email == email
}

/// Whether one of `users` has the id `id`.
pub open spec fn holds_id(users: Seq<UserView>, id: Seq<char>) -> bool {
    exists|i: int| 0 <= i < users.len() && users[i].id == id
}

/// Whether the store has written `user`, so that both of its moments are
/// known.
pub open spec fn stored(user: UserView) -> bool {
    user.created_at is Some && user.updated_at is Some
}

/// Whether the store has written each of `users`.
pub open spec fn all_stored(users: Seq<UserView>) -> bool {
    forall|i: int| 0 <= i < users.len() ==> stored(#[trigger] users[i])
}

/// `user` as it is written at the moment `now`: changed at `now`, and made
/// at `now` unless it says when it was made.
pub open spec fn stamped(user: UserView, now: i64) -> UserView {
    UserView {
        created_at: match user.created_at {
            Some(made) => Some(made),
            None => Some(now),
        },
        updated_at: Some(now),
        ..user
    }
}

/// `users` with `user` written to it: in the place of the record that has
/// its id, or at the end where there is none.
pub open spec fn written(users: Seq<UserView>, user: UserView) -> Seq<UserView> {
    if holds_id(users, user.id) {
        users.update(choose|i: int| 0 <= i < users.len() && users[i].id == user.id, user)
    } else {
        users.push(user)
    }
}

/// The position in `users` of the record with the address `email`.
pub fn position_of_email(users: &Vec<User>, email: &str) -> (found: Option<usize>)
    ensures
        match found {
            Some(i) => i < users.len() && users[i as int].email@ == email@,
            None => forall|k: int| 0 <= k < users.len() ==> users[k].email@ != email@,
        },
{
    let mut i: usize = 0;
    while i < users.len()
        invariant
            i <= users.len(),
            forall|k: int| 0 <= k < i ==> users[k].email@ != email@,
        decreases users.len() - i,
    {
        if text_eq(users[i].email.as_str(), email) {
            return Some(i);
        }
        i += 1;
    }
    None
}

/// The position in `users` of the record with the id `id`.
pub fn position_of_id(users: &Vec<User>, id: &str) -> (found: Option<usize>)
    ensures
        match found {
            Some(i) => i < users.len() && users[i as int].id@ == id@,
            None => forall|k: int| 0 <= k < users.len() ==> users[k].id@ != id@,
        },
{
    let mut i: usize = 0;
    while i < users.len()
        invariant
            i <= users.len(),
            forall|k: int| 0 <= k < i ==> users[k].id@ != id@,
        decreases users.len() - i,
    {
        if text_eq(users[i].id.as_str(), id) {
            return Some(i);
        }
        i += 1;
    }
    None
}

/// `users` after the identity with the id `id` took the name `name`.
pub open spec fn renamed(users: Seq<UserView>, id: Seq<char>, name: Seq<char>) -> Seq<UserView> {
    users.map_values(
        |u: UserView|
            if u.id == id {
                UserView { name, ..u }
            } else {
                u
            },
    )
}

/// `users` after the identity with the id `id` took the role `role`.
pub open spec fn with_role(users: Seq<UserView>, id: Seq<char>, role: UserRole) -> Seq<UserView> {
    users.map_values(
        |u: UserView|
            if u.id == id {
                UserView { role, ..u }
            } else {
                u
            },
    )
}

/// `users` after the identity with the id `id` took the password hash
/// `password`.
pub open spec fn with_password(users: Seq<UserView>, id: Seq<char>, password: Seq<char>) -> Seq<
    UserView,
> {
    users.map_values(
        |u: UserView|
            if u.id == id {
                UserView { password, ..u }
            } else {
                u
            },
    )
}

/// The first position of page `page`, with `limit` identities to a page.
/// Pages are counted from 1.
pub open spec fn page_start(page: usize, limit: usize) -> int {
    (page - 1) * limit
}

/// Page `page` of `users`, with `limit` identities to a page: those from
/// `page_start` on, as far as there are any, and `limit` of them at most.
/// There is no page 0: it is empty.
pub open spec fn page_of(users: Seq<UserView>, page: usize, limit: usize) -> Seq<UserView> {
    let start = page_start(page, limit);
    if page == 0 || start >= users.len() {
        Seq::empty()
    } else if start + limit >= users.len() {
        users.subrange(start, users.len() as int)
    } else {
        users.subrange(start, start + limit)
    }
}

/// The identities that the application knows.
pub struct Users {
    entries: Vec<User>,
}

impl View for Users {
    type V = Seq<UserView>;

    closed spec fn view(&self) -> Seq<UserView> {
        views(self.entries@)
    }
}

impl Users {
    /// Whether no id and no e-mail address occurs twice and every record has
    /// its moments. It holds of every store that `new` made, whatever was
    /// written to it since.
    pub open spec fn wf(&self) -> bool {
        ids_distinct(self@) && emails_distinct(self@) && all_stored(self@)
    }

    /// A store without identities.
    pub fn new() -> (users: Users)
        ensures
            users@ == Seq::<UserView>::empty(),
            users.wf(),
    {
        let users = Users { entries: Vec::new() };
        assert(users@ =~= Seq::<UserView>::empty());
        users
    }

    /// The number of identities.
    pub fn len(&self) -> (n: usize)
        ensures
            n == self@.len(),
    {
        self.entries.len()
    }

    /// The identity with the e-mail address `email`.
    pub fn find_by_email(&self, email: &str) -> (found: Option<&User>)
        ensures
            match found {
                Some(user) => user@.email == email@ && self@.contains(user@),
                None => !holds_email(self@, email@),
            },
    {
        match position_of_email(&self.entries, email) {
            Some(i) => {
                assert(self@[i as int] == self.entries[i as int]@);
                Some(&self.entries[i])
            },
            None => {
                assert forall|k: int| 0 <= k < self@.len() implies self@[k].email != email@ by {
                    assert(self@[k] == self.entries[k]@);
                }
                None
            },
        }
    }

    /// The identity with the id `id`.
    pub fn find_by_id(&self, id: &str) -> (found: Option<&User>)
        ensures
            match found {
                Some(user) => user@.id == id@ && self@.contains(user@),
                None => !holds_id(self@, id@),
            },
    {
        match position_of_id(&self.entries, id) {
            Some(i) => {
                assert(self@[i as int] == self.entries[i as int]@);
                Some(&self.entries[i])
            },
            None => {
                assert forall|k: int| 0 <= k < self@.len() implies self@[k].id != id@ by {
                    assert(self@[k] == self.entries[k]@);
                }
                None
            },
        }
    }

    /// Writes `user` to the store at the moment `now`, in microseconds since
    /// the epoch.
    ///
    /// Where its e-mail address is in use, nothing is written and the answer
    /// is `EmailExists`. Otherwise the record, with its moments set, takes
    /// the place of the one with its id, or is added where there is none.
    pub fn save(&mut self, user: User, now: i64) -> (r: Result<(), ErrorMessage>)
        requires
            old(self).wf(),
        ensures
            final(self).wf(),
            match r {
                Ok(_) => !holds_email(old(self)@, user@.email) && final(self)@ == written(
                    old(self)@,
                    stamped(user@, now),
                ),
                Err(e) => e == ErrorMessage::EmailExists && holds_email(old(self)@, user@.email)
                    && final(self)@ == old(self)@,
            },
    {
        let ghost before = self@;
        assert forall|k: int| 0 <= k < before.len() implies before[k] == self.entries[k]@ by {}
        if let Some(taken) = position_of_email(&self.entries, user.email.as_str()) {
            assert(before[taken as int].email == user@.email);
            return Err(ErrorMessage::EmailExists);
        }
        assert(!holds_email(before, user@.email));
        let user = User {
            created_at: match user.created_at {
                Some(made) => Some(made),
                None => Some(now),
            },
            updated_at: Some(now),
            id: user.id,
            name: user.name,
            email: user.email,
            password: user.password,
            role: user.role,
            verified: user.verified,
        };
        match position_of_id(&self.entries, user.id.as_str()) {
            Some(i) => {
                assert(before[i as int].id == user@.id);
                let ghost place = choose|p: int| 0 <= p < before.len() && before[p].id == user@.id;
                assert(place == i);
                let ghost new_view = user@;
                self.entries.set(i, user);
                assert(views(self.entries@) =~= before.update(i as int, new_view));
            },
            None => {
                assert(!holds_id(before, user@.id));
                let ghost new_view = user@;
                self.entries.push(user);
                assert(views(self.entries@) =~= before.push(new_view));
            },
        }
        Ok(())
    }

    /// Gives the identity with the id `id` the name `name`, and returns the
    /// identity as it then is. Without such an identity nothing changes.
    pub fn update_name(&mut self, id: &str, name: &str) -> (updated: Option<User>)
        requires
            old(self).wf(),
        ensures
            final(self).wf(),
            final(self)@ == renamed(old(self)@, id@, name@),
            match updated {
                Some(user) => user@.id == id@ && user@.name == name@ && final(self)@.contains(
                    user@,
                ) && holds_id(old(self)@, id@),
                None => !holds_id(old(self)@, id@) && final(self)@ == old(self)@,
            },
    {
        let ghost before = self@;
        assert forall|k: int| 0 <= k < before.len() implies before[k] == self.entries[k]@ by {}
        match position_of_id(&self.entries, id) {
            Some(i) => {
                let current = &self.entries[i];
                let user = User {
                    id: current.id.clone(),
                    name: name.to_owned(),
                    email: current.email.clone(),
                    password: current.password.clone(),
                    role: current.role,
                    verified: current.verified,
                    created_at: current.created_at,
                    updated_at: current.updated_at,
                };
                let copy = user.clone();
                self.entries.set(i, user);
                assert(before[i as int].id == id@);
                assert(self@ =~= renamed(before, id@, name@));
                assert(self@[i as int] == copy@);
                Some(copy)
            },
            None => {
                assert(self@ =~= renamed(before, id@, name@));
                None
            },
        }
    }

    /// Gives the identity with the id `id` the role `role`, and returns the
    /// identity as it then is. Without such an identity nothing changes.
    pub fn update_role(&mut self, id: &str, role: UserRole) -> (updated: Option<User>)
        requires
            old(self).wf(),
        ensures
            final(self).wf(),
            final(self)@ == with_role(old(self)@, id@, role),
            match updated {
                Some(user) => user@.id == id@ && user@.role == role && final(self)@.contains(
                    user@,
                ) && holds_id(old(self)@, id@),
                None => !holds_id(old(self)@, id@) && final(self)@ == old(self)@,
            },
    {
        let ghost before = self@;
        assert forall|k: int| 0 <= k < before.len() implies before[k] == self.entries[k]@ by {}
        match position_of_id(&self.entries, id) {
            Some(i) => {
                let current = &self.entries[i];
                let user = User {
                    id: current.id.clone(),
                    name: current.name.clone(),
                    email: current.email.clone(),
                    password: current.password.clone(),
                    role,
                    verified: current.verified,
                    created_at: current.created_at,
                    updated_at: current.updated_at,
                };
                let copy = user.clone();
                self.entries.set(i, user);
                assert(before[i as int].id == id@);
                assert(self@ =~= with_role(before, id@, role));
                assert(self@[i as int] == copy@);
                Some(copy)
            },
            None => {
                assert(self@ =~= with_role(before, id@, role));
                None
            },
        }
    }

    /// Gives the identity with the id `id` the password hash `password`, and
    /// returns the identity as it then is. Without such an identity nothing
    /// changes.
    pub fn update_password(&mut self, id: &str, password: &str) -> (updated: Option<User>)
        requires
            old(self).wf(),
        ensures
            final(self).wf(),
            final(self)@ == with_password(old(self)@, id@, password@),
            match updated {
                Some(user) => user@.id == id@ && user@.password == password@
                    && final(self)@.contains(user@) && holds_id(old(self)@, id@),
                None => !holds_id(old(self)@, id@) && final(self)@ == old(self)@,
            },
    {
        let ghost before = self@;
        assert forall|k: int| 0 <= k < before.len() implies before[k] == self.entries[k]@ by {}
        match position_of_id(&self.entries, id) {
            Some(i) => {
                let current = &self.entries[i];
                let user = User {
                    id: current.id.clone(),
                    name: current.name.clone(),
                    email: current.email.clone(),
                    password: password.to_owned(),
                    role: current.role,
                    verified: current.verified,
                    created_at: current.created_at,
                    updated_at: current.updated_at,
                };
                let copy = user.clone();
                self.entries.set(i, user);
                assert(before[i as int].id == id@);
                assert(self@ =~= with_password(before, id@, password@));
                assert(self@[i as int] == copy@);
                Some(copy)
            },
            None => {
                assert(self@ =~= with_password(before, id@, password@));
                None
            },
        }
    }

    /// Copies page `page` of the identities, with `limit` of them to a page.
    /// Pages are counted from 1.
    pub fn page(&self, page: usize, limit: usize) -> (users: Vec<User>)
        ensures
            views(users@) == page_of(self@, page, limit),
    {
        let mut users: Vec<User> = Vec::new();
        let n = self.entries.len();
        if page == 0 {
            assert(views(users@) =~= page_of(self@, page, limit));
            return users;
        }
        let start = match (page - 1).checked_mul(limit) {
            Some(start) => start,
            None => {
                assert(page_start(page, limit) >= n) by (nonlinear_arith)
                    requires
                        (page - 1) * limit > usize::MAX,
                        n <= usize::MAX,
                        page >= 1,
                {}
                assert(views(users@) =~= page_of(self@, page, limit));
                return users;
            },
        };
        if start >= n {
            assert(views(users@) =~= page_of(self@, page, limit));
            return users;
        }
        let end = if limit >= n - start {
            n
        } else {
            start + limit
        };
        let mut i: usize = start;
        while i < end
            invariant
                start <= i <= end <= n,
                n == self.entries.len(),
                users.len() == i - start,
                forall|k: int|
                    0 <= k < i - start ==> (#[trigger] users[k])@ == self.entries[start + k]@,
            decreases end - i,
        {
            users.push(self.entries[i].clone());
            i += 1;
        }
        assert(views(users@) =~= self@.subrange(start as int, end as int));
        users
    }
}

} // verus!
