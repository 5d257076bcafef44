//! What holds of every authentication attempt.
//!
//! Two views of the machine are taken here. [`attempt`] follows one attempt as
//! a caller drives it: it feeds the cookies, then answers each lookup that the
//! machine asks for from the stores as they stand. [`run`] feeds any sequence
//! of events at all, in or out of turn. The first says what an attempt comes
//! to; the second, what no sequence of events can make the machine do.

use crate::auth::spec_step;
use crate::auth::ActionView;
use crate::auth::AuthState;
use crate::auth::EventView;
use crate::auth::Rejection;
use crate::cookie::token_among;
use vstd::prelude::*;

verus! {

/// One attempt, driven to its end: the state that it ends in and the actions
/// that the machine asked for, in order.
///
/// `sessions` is the session store as it stands: what it answers when asked
/// for the owner of a token. `users` is the user store: what it answers when
/// asked for a user. Each is asked only where the machine says so, and with
/// what the machine hands out.
pub open spec fn attempt<Id, U, SE, UE>(
    cookies: Seq<Seq<char>>,
    sessions: spec_fn(Seq<char>) -> Result<Id, SE>,
    users: spec_fn(Id) -> Result<U, UE>,
) -> (AuthState, Seq<ActionView<Id, U>>) {
    let first = spec_step::<Id, U, SE, UE>(AuthState::Start, EventView::Request { cookies });
    match first.1 {
        ActionView::FetchSession { token } => {
            let second = spec_step::<Id, U, SE, UE>(
                first.0,
                EventView::SessionFetched { owner: sessions(token) },
            );
            match second.1 {
                ActionView::FetchUser { user_id } => {
                    let third = spec_step::<Id, U, SE, UE>(
                        second.0,
                        EventView::UserFetched { user: users(user_id) },
                    );
                    match third.1 {
                        ActionView::Continue { user } => {
                            let fourth = spec_step::<Id, U, SE, UE>(
                                third.0,
                                EventView::ContinuationReturned,
                            );
                            (fourth.0, seq![first.1, second.1, third.1, fourth.1])
                        },
                        _ => (third.0, seq![first.1, second.1, third.1]),
                    }
                },
                _ => (second.0, seq![first.1, second.1]),
            }
        },
        _ => (first.0, seq![first.1]),
    }
}

/// A request without an auth cookie is turned away with its own context, and
/// that is all that happens: no store is asked and the continuation does not
/// run.
pub proof fn attempt_without_token<Id, U, SE, UE>(
    cookies: Seq<Seq<char>>,
    sessions: spec_fn(Seq<char>) -> Result<Id, SE>,
    users: spec_fn(Id) -> Result<U, UE>,
)
    requires
        token_among(cookies) is None,
    ensures
        attempt(cookies, sessions, users) == (
            AuthState::Unauthorized,
            seq![ActionView::<Id, U>::Reject { context: Rejection::OriginalContext }],
        ),
{
}

/// A request whose token the session store does not resolve, for whatever
/// reason, is turned away with a defaulted context. The session store was
/// asked for that token and nothing else happened: the user store is not
/// asked and the continuation does not run.
pub proof fn attempt_with_unknown_session<Id, U, SE, UE>(
    cookies: Seq<Seq<char>>,
    sessions: spec_fn(Seq<char>) -> Result<Id, SE>,
    users: spec_fn(Id) -> Result<U, UE>,
)
    requires
        token_among(cookies) is Some,
        sessions(token_among(cookies)->0) is Err,
    ensures
        attempt(cookies, sessions, users) == (
            AuthState::Unauthorized,
            seq![
                ActionView::<Id, U>::FetchSession { token: token_among(cookies)->0 },
                ActionView::<Id, U>::Reject { context: Rejection::DefaultedContext },
            ],
        ),
{
}

/// A request whose session resolves but whose user the user store does not
/// resolve, for whatever reason, is turned away with a defaulted context.
/// Nothing of the session that was found shows in the outcome, and the
/// continuation does not run.
pub proof fn attempt_with_unknown_user<Id, U, SE, UE>(
    cookies: Seq<Seq<char>>,
    sessions: spec_fn(Seq<char>) -> Result<Id, SE>,
    users: spec_fn(Id) -> Result<U, UE>,
)
    requires
        token_among(cookies) is Some,
        sessions(token_among(cookies)->0) is Ok,
        users(sessions(token_among(cookies)->0)->Ok_0) is Err,
    ensures
        attempt(cookies, sessions, users) == (
            AuthState::Unauthorized,
            seq![
                ActionView::<Id, U>::FetchSession { token: token_among(cookies)->0 },
                ActionView::<Id, U>::FetchUser { user_id: sessions(token_among(cookies)->0)->Ok_0 },
                ActionView::<Id, U>::Reject { context: Rejection::DefaultedContext },
            ],
        ),
{
}

/// A request whose session and user both resolve goes on: the user that is
/// attached is the very record that the user store gave for the session's
/// owner, the continuation runs once, and what it returns is handed back.
pub proof fn attempt_that_succeeds<Id, U, SE, UE>(
    cookies: Seq<Seq<char>>,
    sessions: spec_fn(Seq<char>) -> Result<Id, SE>,
    users: spec_fn(Id) -> Result<U, UE>,
)
    requires
        token_among(cookies) is Some,
        sessions(token_among(cookies)->0) is Ok,
        users(sessions(token_among(cookies)->0)->Ok_0) is Ok,
    ensures
        attempt(cookies, sessions, users) == (
            AuthState::Done,
            seq![
                ActionView::<Id, U>::FetchSession { token: token_among(cookies)->0 },
                ActionView::<Id, U>::FetchUser { user_id: sessions(token_among(cookies)->0)->Ok_0 },
                ActionView::<Id, U>::Continue {
                    user: users(sessions(token_among(cookies)->0)->Ok_0)->Ok_0,
                },
                ActionView::<Id, U>::Finish,
            ],
        ),
{
}

/// Whatever the stores' errors are, the outcome is the same: two attempts on
/// the same cookies that both fail at a store end in the same state with the
/// same rejection, whichever store failed and however.
pub proof fn store_failures_look_alike<Id, U, SE, UE>(
    cookies: Seq<Seq<char>>,
    sessions_a: spec_fn(Seq<char>) -> Result<Id, SE>,
    users_a: spec_fn(Id) -> Result<U, UE>,
    sessions_b: spec_fn(Seq<char>) -> Result<Id, SE>,
    users_b: spec_fn(Id) -> Result<U, UE>,
)
    requires
        token_among(cookies) is Some,
        attempt(cookies, sessions_a, users_a).0 == AuthState::Unauthorized,
        attempt(cookies, sessions_b, users_b).0 == AuthState::Unauthorized,
    ensures
        attempt(cookies, sessions_a, users_a).1.last() == attempt(
            cookies,
            sessions_b,
            users_b,
        ).1.last(),
        attempt(cookies, sessions_a, users_a).1.last() == (ActionView::<Id, U>::Reject {
            context: Rejection::DefaultedContext,
        }),
{
}

/// An attempt rests on the stores' answers to what it asks, and on nothing
/// else: the machine keeps nothing from one attempt to the next. Where two
/// session stores answer alike for the token of the request, and two user
/// stores answer alike for the owner that was found, the two attempts ask the
/// same and end the same. So stores that answer a repeated question as before
/// give a repeated request the outcome that it had before.
pub proof fn attempt_rests_on_the_answers<Id, U, SE, UE>(
    cookies: Seq<Seq<char>>,
    sessions_a: spec_fn(Seq<char>) -> Result<Id, SE>,
    users_a: spec_fn(Id) -> Result<U, UE>,
    sessions_b: spec_fn(Seq<char>) -> Result<Id, SE>,
    users_b: spec_fn(Id) -> Result<U, UE>,
)
    requires
        token_among(cookies) is Some ==> sessions_a(token_among(cookies)->0) == sessions_b(
            token_among(cookies)->0,
        ),
        token_among(cookies) is Some && sessions_a(token_among(cookies)->0) is Ok ==> users_a(
            sessions_a(token_among(cookies)->0)->Ok_0,
        ) == users_b(sessions_a(token_among(cookies)->0)->Ok_0),
    ensures
        attempt(cookies, sessions_a, users_a) == attempt(cookies, sessions_b, users_b),
{
}

/// The user store is asked only on the session store's answer, and for the
/// owner that this answer named: a step asks for a user exactly when the
/// state awaits the session and the event brings one.
pub proof fn user_lookup_follows_session_lookup<Id, U, SE, UE>(
    state: AuthState,
    event: EventView<Id, U, SE, UE>,
)
    ensures
        spec_step(state, event).1 is FetchUser <==> state == AuthState::SessionLookup
            && event is SessionFetched && event->owner is Ok,
        spec_step(state, event).1 is FetchUser ==> spec_step(state, event).1->user_id
            == event->owner->Ok_0,
        spec_step(state, event).0 == AuthState::SessionLookup && state != AuthState::SessionLookup
            ==> state == AuthState::Start && spec_step(state, event).1 is FetchSession,
{
}

/// No transition leads back: a step never lowers the rank of the state, and
/// every step that asks for something raises it.
pub proof fn no_backward_transition<Id, U, SE, UE>(
    state: AuthState,
    event: EventView<Id, U, SE, UE>,
)
    ensures
        state.rank() <= spec_step(state, event).0.rank(),
        !(spec_step(state, event).1 is Ignore) ==> state.rank() < spec_step(state, event).0.rank(),
        spec_step(state, event).1 is Ignore ==> spec_step(state, event).0 == state,
        state.is_terminal() ==> spec_step(state, event) == (state, ActionView::<Id, U>::Ignore),
{
}

/// The machine fed a sequence of events, one after the other: the state that
/// it ends in and the action that each event was answered with.
pub open spec fn run<Id, U, SE, UE>(
    state: AuthState,
    events: Seq<EventView<Id, U, SE, UE>>,
) -> (AuthState, Seq<ActionView<Id, U>>)
    decreases events.len(),
{
    if events.len() == 0 {
        (state, Seq::empty())
    } else {
        let before = run(state, events.drop_last());
        let last = spec_step(before.0, events.last());
        (last.0, before.1.push(last.1))
    }
}

/// The actions of a sequence that ask for something: all but `Ignore`, in
/// order.
pub open spec fn asked_for<Id, U>(actions: Seq<ActionView<Id, U>>) -> Seq<ActionView<Id, U>>
    decreases actions.len(),
{
    if actions.len() == 0 {
        Seq::empty()
    } else if actions.last() is Ignore {
        asked_for(actions.drop_last())
    } else {
        asked_for(actions.drop_last()).push(actions.last())
    }
}

/// Whether `asked` is what an attempt that stands in `state` has asked for so
/// far. Each state is reached by one order of actions only: the session
/// lookup, then the user lookup, then the continuation, then its return; a
/// rejection ends any of the first three, with the original context only
/// where no lookup was asked for.
pub open spec fn in_order<Id, U>(state: AuthState, asked: Seq<ActionView<Id, U>>) -> bool {
    match state {
        AuthState::Start => asked.len() == 0,
        AuthState::SessionLookup => asked.len() == 1 && asked[0] is FetchSession,
        AuthState::UserLookup => asked.len() == 2 && asked[0] is FetchSession
            && asked[1] is FetchUser,
        AuthState::Continuation => asked.len() == 3 && asked[0] is FetchSession
            && asked[1] is FetchUser && asked[2] is Continue,
        AuthState::Done => asked.len() == 4 && asked[0] is FetchSession && asked[1] is FetchUser
            && asked[2] is Continue && asked[3] is Finish,
        AuthState::Unauthorized => {
            ||| asked.len() == 1 && asked[0] == (ActionView::<Id, U>::Reject {
                context: Rejection::OriginalContext,
            })
            ||| asked.len() == 2 && asked[0] is FetchSession && asked[1] == (ActionView::<Id, U>::Reject {
                context: Rejection::DefaultedContext,
            })
            ||| asked.len() == 3 && asked[0] is FetchSession && asked[1] is FetchUser
                && asked[2] == (ActionView::<Id, U>::Reject {
                context: Rejection::DefaultedContext,
            })
        },
    }
}

/// Whatever events the machine is fed from the start, in or out of turn, what
/// it asks for comes in order. So the user store is never asked before the
/// session store has answered; the continuation runs at most once, and only
/// after both lookups; and once a request is rejected nothing more is asked,
/// so the continuation never runs on the unauthorized path.
pub proof fn run_keeps_order<Id, U, SE, UE>(events: Seq<EventView<Id, U, SE, UE>>)
    ensures
        in_order(run(AuthState::Start, events).0, asked_for(run(AuthState::Start, events).1)),
    decreases events.len(),
{
    if events.len() > 0 {
        let front = events.drop_last();
        run_keeps_order(front);
        let before = run(AuthState::Start, front);
        let last = spec_step(before.0, events.last());
        let actions = before.1.push(last.1);
        assert(run(AuthState::Start, events) == (last.0, actions));
        assert(actions.drop_last() == before.1);
        assert(actions.last() == last.1);
        no_backward_transition(before.0, events.last());
    }
}

/// A run answers each event with one action.
pub proof fn run_answers_each_event<Id, U, SE, UE>(
    state: AuthState,
    events: Seq<EventView<Id, U, SE, UE>>,
)
    ensures
        run(state, events).1.len() == events.len(),
    decreases events.len(),
{
    if events.len() > 0 {
        run_answers_each_event(state, events.drop_last());
    }
}

/// A user is attached only as the user store's answer comes in, and it is the
/// user of that answer: whatever events the machine is fed from the start, an
/// action that attaches a user answers an event that brought that user.
pub proof fn attached_user_is_fetched_user<Id, U, SE, UE>(
    events: Seq<EventView<Id, U, SE, UE>>,
    i: int,
)
    requires
        0 <= i < events.len(),
        run(AuthState::Start, events).1[i] is Continue,
    ensures
        events[i] is UserFetched,
        events[i]->user == Ok::<U, UE>(run(AuthState::Start, events).1[i]->user),
    decreases events.len(),
{
    let front = events.drop_last();
    let before = run(AuthState::Start, front);
    let last = spec_step(before.0, events.last());
    run_answers_each_event(AuthState::Start, front);
    assert(run(AuthState::Start, events).1 == before.1.push(last.1));
    if i < events.len() - 1 {
        assert(front[i] == events[i]);
        attached_user_is_fetched_user(front, i);
    }
}

} // verus!
