//! The identity record and the roles an identity can hold.

use uuid::Uuid;
use vstd::prelude::*;

verus! {

/// The role that decides which protected operations an identity may call.
#[derive(Debug, Clone, Copy, PartialEq, Eq, Structural)]
pub enum UserRole {
    Admin,
    User,
}

impl UserRole {
    /// The role's name as it is stored and shown.
    pub open spec fn name(self) -> Seq<char> {
        match self {
            UserRole::Admin => "admin"@,
            UserRole::User => "user"@,
        }
    }

    /// The role's name.
    pub fn to_str(&self) -> (s: &'static str)
        ensures
            s@ == self.name(),
    {
        match self {
            UserRole::Admin => "admin",
            UserRole::User => "user",
        }
    }
}

/// An identity as the user store holds it.
///
/// `password` is the hash that the password module made, never the
/// password. The two moments are microseconds since the epoch, and are
/// missing until the store has written the record.
#[derive(Debug)]
pub struct User {
    pub id: String,
    pub name: String,
    pub email: String,
    pub password: String,
    pub role: UserRole,
    pub verified: bool,
    pub created_at: Option<i64>,
    pub updated_at: Option<i64>,
}

/// `User` as plain values.
pub struct UserView {
    pub id: Seq<char>,
    pub name: Seq<char>,
    pub email: Seq<char>,
    pub password: Seq<char>,
    pub role: UserRole,
    pub verified: bool,
    pub created_at: Option<i64>,
    pub updated_at: Option<i64>,
}

impl View for User {
    type V = UserView;

    open spec fn view(&self) -> UserView {
        UserView {
            id: self.id@,
            name: self.name@,
            email: self.email@,
            password: self.password@,
            role: self.role,
            verified: self.verified,
            created_at: self.created_at,
            updated_at: self.updated_at,
        }
    }
}

impl Clone for User {
    fn clone(&self) -> (copy: Self)
        ensures
            copy@ == self@,
    {
        User {
            id: self.id.clone(),
            name: self.name.clone(),
            email: self.email.clone(),
            password: self.password.clone(),
            role: self.role,
            verified: self.verified,
            created_at: self.created_at,
            updated_at: self.updated_at,
        }
    }
}

impl User {
    /// The identity's e-mail address.
    pub fn get_email(&self) -> (email: &str)
        ensures
            email@ == self.email@,
    {
        self.email.as_str()
    }
}

/// Calls `Uuid::new_v4` and writes the id out: thirty-two hexadecimal digits
/// in five groups, with four hyphens between them. The id is random.
#[verifier::external_body]
pub(crate) fn new_user_id() -> (id: String)
    ensures
        id@.len() == 36,
{
    Uuid::new_v4().to_string()
}

} // verus!
