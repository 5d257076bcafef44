//! Cookie-based session authentication for a request pipeline.
//!
//! A request carries a list of cookie strings. The library finds the session
//! token among them, and decides, from what the session store and the user
//! store answer, whether the request goes on with a user attached or is turned
//! away as unauthorized. The stores themselves, the request context and the
//! continuation are the caller's: the library never performs a lookup, it says
//! which one is due and what follows from its answer.

use vstd::prelude::*;

pub mod attempt;
pub mod auth;
pub mod cookie;
pub mod models;

pub use crate::auth::step;
pub use crate::auth::AuthAction;
pub use crate::auth::AuthEvent;
pub use crate::auth::AuthState;
pub use crate::auth::Rejection;
pub use crate::cookie::extract_token;
pub use crate::cookie::COOKIE_AUTH_TOKEN;
pub use crate::models::CreateUser;
pub use crate::models::Session;
pub use crate::models::Timestamp;
pub use crate::models::User;

verus! {

/// The sum of two sizes.
pub fn add(left: usize, right: usize) -> (sum: usize)
    requires
        left + right <= usize::MAX,
    ensures
        sum == left + right,
{
    left + right
}

} // verus!
