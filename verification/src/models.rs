//! The records that the stores keep: users and sessions.
//!
//! A user has an identity and an email address; a session ties a token to the
//! user that owns it. Both carry the times at which the record was made and
//! last changed. An identity is a value of the `uuid` crate. The library never
//! looks inside it: it keeps it and hands it back.

use uuid::Uuid;
use vstd::prelude::*;

verus! {

/// `uuid::Uuid`, taken as it is: nothing is said of what it holds.
#[verifier::external_type_specification]
#[verifier::external_body]
pub struct ExUuid(Uuid);

/// A point in time, in UTC: the whole seconds since the Unix epoch, and the
/// nanoseconds past that second.
#[derive(Clone, Copy, Debug, PartialEq, Eq, Structural)]
pub struct Timestamp {
    pub secs: i64,
    pub nanos: u32,
}

/// A user, as the user store keeps it.
#[derive(Debug)]
pub struct User {
    id: Uuid,
    email: String,
    updated_at: Timestamp,
    created_at: Timestamp,
}

/// What a [`User`] holds, the email address by its text.
pub struct UserView {
    pub id: Uuid,
    pub email: Seq<char>,
    pub updated_at: Timestamp,
    pub created_at: Timestamp,
}

impl View for User {
    type V = UserView;

    closed spec fn view(&self) -> UserView {
        UserView {
            id: self.id,
            email: self.email@,
            updated_at: self.updated_at,
            created_at: self.created_at,
        }
    }
}

impl Clone for User {
    /// A second record that holds the same.
    fn clone(&self) -> (copy: User)
        ensures
            copy@ == self@,
    {
        User {
            id: self.id,
            email: self.email.clone(),
            updated_at: self.updated_at,
            created_at: self.created_at,
        }
    }
}

impl User {
    /// The user with these fields.
    pub fn new(
        id: Uuid,
        email: String,
        updated_at: Timestamp,
        created_at: Timestamp,
    ) -> (user: User)
        ensures
            user@ == (UserView { id, email: email@, updated_at, created_at }),
    {
        User { id, email, updated_at, created_at }
    }

    /// The user's identity.
    pub fn id(&self) -> (id: &Uuid)
        ensures
            *id == self@.id,
    {
        &self.id
    }

    /// The user's email address.
    pub fn email(&self) -> (email: &str)
        ensures
            email@ == self@.email,
    {
        self.email.as_str()
    }

    /// When the record was last changed.
    pub fn updated_at(&self) -> (at: &Timestamp)
        ensures
            *at == self@.updated_at,
    {
        &self.updated_at
    }

    /// When the record was made.
    pub fn created_at(&self) -> (at: &Timestamp)
        ensures
            *at == self@.created_at,
    {
        &self.created_at
    }
}

/// What the user store needs to make a new user.
pub struct CreateUser {
    email: String,
}

impl View for CreateUser {
    type V = Seq<char>;

    closed spec fn view(&self) -> Seq<char> {
        self.email@
    }
}

impl CreateUser {
    /// The request for a user with this email address.
    pub fn new(email: String) -> (request: CreateUser)
        ensures
            request@ == email@,
    {
        CreateUser { email }
    }

    /// The email address of the user to be made.
    pub fn email(&self) -> (email: &str)
        ensures
            email@ == self@,
    {
        self.email.as_str()
    }
}

/// A session, as the session store keeps it.
#[derive(Debug)]
pub struct Session {
    user_id: Uuid,
    token: String,
    updated_at: Timestamp,
    created_at: Timestamp,
}

/// What a [`Session`] holds, the token by its text.
pub struct SessionView {
    pub user_id: Uuid,
    pub token: Seq<char>,
    pub updated_at: Timestamp,
    pub created_at: Timestamp,
}

impl View for Session {
    type V = SessionView;

    closed spec fn view(&self) -> SessionView {
        SessionView {
            user_id: self.user_id,
            token: self.token@,
            updated_at: self.updated_at,
            created_at: self.created_at,
        }
    }
}

impl Clone for Session {
    /// A second record that holds the same.
    fn clone(&self) -> (copy: Session)
        ensures
            copy@ == self@,
    {
        Session {
            user_id: self.user_id,
            token: self.token.clone(),
            updated_at: self.updated_at,
            created_at: self.created_at,
        }
    }
}

impl Session {
    /// The session with these fields.
    pub fn new(
        user_id: Uuid,
        token: String,
        updated_at: Timestamp,
        created_at: Timestamp,
    ) -> (session: Session)
        ensures
            session@ == (SessionView { user_id, token: token@, updated_at, created_at }),
    {
        Session { user_id, token, updated_at, created_at }
    }

    /// The identity of the user that owns the session.
    pub fn user_id(&self) -> (id: &Uuid)
        ensures
            *id == self@.user_id,
    {
        &self.user_id
    }

    /// The session's token.
    pub fn token(&self) -> (token: &str)
        ensures
            token@ == self@.token,
    {
        self.token.as_str()
    }

    /// When the record was last changed.
    pub fn updated_at(&self) -> (at: &Timestamp)
        ensures
            *at == self@.updated_at,
    {
        &self.updated_at
    }

    /// When the record was made.
    pub fn created_at(&self) -> (at: &Timestamp)
        ensures
            *at == self@.created_at,
    {
        &self.created_at
    }
}

} // verus!
