//! The decisions of one authentication attempt, as a state machine.
//!
//! The work that an attempt needs from outside (reading the request's
//! cookies, asking the session store, asking the user store, running the rest
//! of the pipeline) is not done here. The caller does it, and reports each
//! result as an [`AuthEvent`]; [`step`] answers with the next [`AuthState`] and
//! the [`AuthAction`] that is due. The states are the points at which an
//! attempt waits for the outside:
//!
//! ```text
//! Start --cookies--> SessionLookup --session--> UserLookup --user--> Continuation --> Done
//!   |                     |                         |
//!   +---------------------+-------------------------+--> Unauthorized
//! ```
//!
//! Every failure ends in `Unauthorized`, and the caller cannot tell from the
//! action which failure it was: a missing session, a missing user and a store
//! that is down all give the same rejection. Only the missing token differs,
//! in that the rejection then carries the request's own context.

use crate::cookie::cookie_texts;
use crate::cookie::extract_token;
use crate::cookie::token_among;
use vstd::prelude::*;

verus! {

/// Where an authentication attempt stands.
#[derive(Clone, Copy, Debug, PartialEq, Eq, Structural)]
pub enum AuthState {
    /// Nothing has been looked at yet; the request's cookies are awaited.
    Start,
    /// A token was found; the session store's answer is awaited.
    SessionLookup,
    /// The session was found; the user store's answer is awaited.
    UserLookup,
    /// The user is attached and the continuation runs.
    Continuation,
    /// The attempt failed. Nothing follows.
    Unauthorized,
    /// The continuation has returned. Nothing follows.
    Done,
}

/// Which context an unauthorized outcome carries.
#[derive(Clone, Copy, Debug, PartialEq, Eq, Structural)]
pub enum Rejection {
    /// The request's own context, as it came in: no token was found, and
    /// nothing has touched the context.
    OriginalContext,
    /// A freshly defaulted context: a store was asked and the attempt failed
    /// after that, so nothing of the request is handed back.
    DefaultedContext,
}

/// What the outside reports to the machine.
#[derive(Debug, PartialEq, Eq)]
pub enum AuthEvent<Id, U, SE, UE> {
    /// The request has arrived, with these cookies.
    Request { cookies: Vec<String> },
    /// The session store has answered: the user that owns the session, or the
    /// store's error.
    SessionFetched { owner: Result<Id, SE> },
    /// The user store has answered: the user, or the store's error.
    UserFetched { user: Result<U, UE> },
    /// The continuation has returned.
    ContinuationReturned,
}

/// What the machine asks of the outside.
#[derive(Debug, PartialEq, Eq)]
pub enum AuthAction<Id, U> {
    /// Ask the session store for the session with this token.
    FetchSession { token: String },
    /// Ask the user store for the user with this identity.
    FetchUser { user_id: Id },
    /// Record this user in the context as the authenticated user, then run
    /// the continuation on that context.
    Continue { user: U },
    /// Turn the request away as unauthorized, with this context. The
    /// continuation is not run.
    Reject { context: Rejection },
    /// Hand back what the continuation returned, as it is.
    Finish,
    /// Nothing: the event was not one that the state awaits.
    Ignore,
}

/// An [`AuthEvent`] as contracts see it: the cookies by their texts.
pub enum EventView<Id, U, SE, UE> {
    Request { cookies: Seq<Seq<char>> },
    SessionFetched { owner: Result<Id, SE> },
    UserFetched { user: Result<U, UE> },
    ContinuationReturned,
}

/// An [`AuthAction`] as contracts see it: the token by its text.
pub enum ActionView<Id, U> {
    FetchSession { token: Seq<char> },
    FetchUser { user_id: Id },
    Continue { user: U },
    Reject { context: Rejection },
    Finish,
    Ignore,
}

impl<Id, U, SE, UE> View for AuthEvent<Id, U, SE, UE> {
    type V = EventView<Id, U, SE, UE>;

    open spec fn view(&self) -> EventView<Id, U, SE, UE> {
        match *self {
            AuthEvent::Request { cookies } => EventView::Request { cookies: cookie_texts(cookies@) },
            AuthEvent::SessionFetched { owner } => EventView::SessionFetched { owner },
            AuthEvent::UserFetched { user } => EventView::UserFetched { user },
            AuthEvent::ContinuationReturned => EventView::ContinuationReturned,
        }
    }
}

impl<Id, U> View for AuthAction<Id, U> {
    type V = ActionView<Id, U>;

    open spec fn view(&self) -> ActionView<Id, U> {
        match *self {
            AuthAction::FetchSession { token } => ActionView::FetchSession { token: token@ },
            AuthAction::FetchUser { user_id } => ActionView::FetchUser { user_id },
            AuthAction::Continue { user } => ActionView::Continue { user },
            AuthAction::Reject { context } => ActionView::Reject { context },
            AuthAction::Finish => ActionView::Finish,
            AuthAction::Ignore => ActionView::Ignore,
        }
    }
}

impl AuthState {
    /// Whether the attempt is over: no event leads out of such a state.
    pub open spec fn is_terminal(self) -> bool {
        self == AuthState::Unauthorized || self == AuthState::Done
    }

    /// How far the attempt has come. No transition leads to a lower rank.
    pub open spec fn rank(self) -> nat {
        match self {
            AuthState::Start => 0,
            AuthState::SessionLookup => 1,
            AuthState::UserLookup => 2,
            AuthState::Continuation => 3,
            AuthState::Unauthorized => 4,
            AuthState::Done => 4,
        }
    }
}

/// The transition function: the state that follows `state` on `event`, and the
/// action that is due.
///
/// Each state awaits one kind of event. On the cookies, the attempt goes on to
/// the session lookup with the token that they carry, or fails with the
/// original context where they carry none. On a store's answer, it goes on
/// with what the store found, or fails with a defaulted context whatever the
/// error was. An event that the state does not await changes nothing.
pub open spec fn spec_step<Id, U, SE, UE>(
    state: AuthState,
    event: EventView<Id, U, SE, UE>,
) -> (AuthState, ActionView<Id, U>) {
    match (state, event) {
        (AuthState::Start, EventView::Request { cookies }) => match token_among(cookies) {
            Some(token) => (AuthState::SessionLookup, ActionView::FetchSession { token }),
            None => (
                AuthState::Unauthorized,
                ActionView::Reject { context: Rejection::OriginalContext },
            ),
        },
        (AuthState::SessionLookup, EventView::SessionFetched { owner }) => match owner {
            Ok(user_id) => (AuthState::UserLookup, ActionView::FetchUser { user_id }),
            Err(_) => (
                AuthState::Unauthorized,
                ActionView::Reject { context: Rejection::DefaultedContext },
            ),
        },
        (AuthState::UserLookup, EventView::UserFetched { user }) => match user {
            Ok(user) => (AuthState::Continuation, ActionView::Continue { user }),
            Err(_) => (
                AuthState::Unauthorized,
                ActionView::Reject { context: Rejection::DefaultedContext },
            ),
        },
        (AuthState::Continuation, EventView::ContinuationReturned) => (
            AuthState::Done,
            ActionView::Finish,
        ),
        _ => (state, ActionView::Ignore),
    }
}

/// Takes one step of an authentication attempt: from the state and what the
/// outside reports, to the next state and what the outside is to do.
pub fn step<Id, U, SE, UE>(
    state: AuthState,
    event: AuthEvent<Id, U, SE, UE>,
) -> (out: (AuthState, AuthAction<Id, U>))
    ensures
        out.0 == spec_step(state, event@).0,
        out.1@ == spec_step(state, event@).1,
{
    match state {
        AuthState::Start => match event {
            AuthEvent::Request { cookies } => match extract_token(&cookies) {
                Some(token) => (AuthState::SessionLookup, AuthAction::FetchSession { token }),
                None => (
                    AuthState::Unauthorized,
                    AuthAction::Reject { context: Rejection::OriginalContext },
                ),
            },
            _ => (state, AuthAction::Ignore),
        },
        AuthState::SessionLookup => match event {
            AuthEvent::SessionFetched { owner } => match owner {
                Ok(user_id) => (AuthState::UserLookup, AuthAction::FetchUser { user_id }),
                Err(_) => (
                    AuthState::Unauthorized,
                    AuthAction::Reject { context: Rejection::DefaultedContext },
                ),
            },
            _ => (state, AuthAction::Ignore),
        },
        AuthState::UserLookup => match event {
            AuthEvent::UserFetched { user } => match user {
                Ok(user) => (AuthState::Continuation, AuthAction::Continue { user }),
                Err(_) => (
                    AuthState::Unauthorized,
                    AuthAction::Reject { context: Rejection::DefaultedContext },
                ),
            },
            _ => (state, AuthAction::Ignore),
        },
        AuthState::Continuation => match event {
            AuthEvent::ContinuationReturned => (AuthState::Done, AuthAction::Finish),
            _ => (state, AuthAction::Ignore),
        },
        AuthState::Unauthorized => (state, AuthAction::Ignore),
        AuthState::Done => (state, AuthAction::Ignore),
    }
}

impl Rejection {
    /// The context that an unauthorized outcome carries: the request's own,
    /// untouched, or a fresh default in place of it.
    pub fn context_for<T: Default>(self, original: T) -> (context: T)
        ensures
            self == Rejection::OriginalContext ==> context == original,
            self == Rejection::DefaultedContext ==> call_ensures(T::default, (), context),
    {
        match self {
            Rejection::OriginalContext => original,
            Rejection::DefaultedContext => T::default(),
        }
    }
}

} // verus!
