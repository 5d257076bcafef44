use thruster_auth::auth::step;
use thruster_auth::auth::AuthAction;
use thruster_auth::auth::AuthEvent;
use thruster_auth::auth::AuthState;
use thruster_auth::auth::Rejection;

type Event = AuthEvent<u32, String, String, String>;
type Action = AuthAction<u32, String>;

fn request(texts: &[&str]) -> Event {
    AuthEvent::Request { cookies: texts.iter().map(|t| t.to_string()).collect() }
}

fn all_states() -> Vec<AuthState> {
    vec![
        AuthState::Start,
        AuthState::SessionLookup,
        AuthState::UserLookup,
        AuthState::Continuation,
        AuthState::Unauthorized,
        AuthState::Done,
    ]
}

fn some_events() -> Vec<Event> {
    vec![
        request(&["auth-token=abc"]),
        request(&["theme=dark"]),
        AuthEvent::SessionFetched { owner: Ok(7) },
        AuthEvent::SessionFetched { owner: Err("no row".to_string()) },
        AuthEvent::UserFetched { user: Ok("ann".to_string()) },
        AuthEvent::UserFetched { user: Err("no row".to_string()) },
        AuthEvent::ContinuationReturned,
    ]
}

#[test]
fn request_with_token_asks_for_the_session() {
    let (state, action) = step(AuthState::Start, request(&["theme=dark", "auth-token=abc123"]));
    assert_eq!(state, AuthState::SessionLookup);
    assert_eq!(action, Action::FetchSession { token: "abc123".to_string() });
}

#[test]
fn request_without_token_is_rejected_with_its_own_context() {
    let (state, action) = step(AuthState::Start, request(&["theme=dark"]));
    assert_eq!(state, AuthState::Unauthorized);
    assert_eq!(action, Action::Reject { context: Rejection::OriginalContext });
}

#[test]
fn request_without_cookies_is_rejected_with_its_own_context() {
    let (state, action) = step(AuthState::Start, request(&[]));
    assert_eq!(state, AuthState::Unauthorized);
    assert_eq!(action, Action::Reject { context: Rejection::OriginalContext });
}

#[test]
fn found_session_asks_for_its_owner() {
    let event: Event = AuthEvent::SessionFetched { owner: Ok(42) };
    let (state, action) = step(AuthState::SessionLookup, event);
    assert_eq!(state, AuthState::UserLookup);
    assert_eq!(action, Action::FetchUser { user_id: 42 });
}

#[test]
fn failed_session_lookup_is_rejected_with_a_default_context() {
    let event: Event = AuthEvent::SessionFetched { owner: Err("no row".to_string()) };
    let (state, action) = step(AuthState::SessionLookup, event);
    assert_eq!(state, AuthState::Unauthorized);
    assert_eq!(action, Action::Reject { context: Rejection::DefaultedContext });
}

#[test]
fn found_user_is_attached_and_the_continuation_runs() {
    let event: Event = AuthEvent::UserFetched { user: Ok("ann".to_string()) };
    let (state, action) = step(AuthState::UserLookup, event);
    assert_eq!(state, AuthState::Continuation);
    assert_eq!(action, Action::Continue { user: "ann".to_string() });
}

#[test]
fn failed_user_lookup_is_rejected_with_a_default_context() {
    let event: Event = AuthEvent::UserFetched { user: Err("gone".to_string()) };
    let (state, action) = step(AuthState::UserLookup, event);
    assert_eq!(state, AuthState::Unauthorized);
    assert_eq!(action, Action::Reject { context: Rejection::DefaultedContext });
}

#[test]
fn returned_continuation_ends_the_attempt() {
    let event: Event = AuthEvent::ContinuationReturned;
    let (state, action) = step(AuthState::Continuation, event);
    assert_eq!(state, AuthState::Done);
    assert_eq!(action, Action::Finish);
}

#[test]
fn every_store_error_gives_the_same_rejection() {
    let errors = ["no row", "malformed token", "connection refused", ""];
    for e in errors {
        let session: Event = AuthEvent::SessionFetched { owner: Err(e.to_string()) };
        let user: Event = AuthEvent::UserFetched { user: Err(e.to_string()) };
        let at_session = step(AuthState::SessionLookup, session);
        let at_user = step(AuthState::UserLookup, user);
        assert_eq!(at_session, at_user);
        assert_eq!(
            at_session,
            (AuthState::Unauthorized, Action::Reject { context: Rejection::DefaultedContext })
        );
    }
}

#[test]
fn finished_attempts_ignore_every_event() {
    for state in [AuthState::Unauthorized, AuthState::Done] {
        for event in some_events() {
            assert_eq!(step(state, event), (state, Action::Ignore));
        }
    }
}

#[test]
fn events_out_of_turn_change_nothing() {
    let awaited = |state: AuthState, event: &Event| match (state, event) {
        (AuthState::Start, AuthEvent::Request { .. }) => true,
        (AuthState::SessionLookup, AuthEvent::SessionFetched { .. }) => true,
        (AuthState::UserLookup, AuthEvent::UserFetched { .. }) => true,
        (AuthState::Continuation, AuthEvent::ContinuationReturned) => true,
        _ => false,
    };
    for state in all_states() {
        for event in some_events() {
            if !awaited(state, &event) {
                assert_eq!(step(state, event), (state, Action::Ignore));
            }
        }
    }
}

#[test]
fn user_lookup_is_asked_only_on_a_found_session() {
    for state in all_states() {
        for event in some_events() {
            let found = matches!(event, AuthEvent::SessionFetched { owner: Ok(_) });
            let (_, action) = step(state, event);
            let asked = matches!(action, AuthAction::FetchUser { .. });
            assert_eq!(asked, state == AuthState::SessionLookup && found);
        }
    }
}

#[test]
fn continuation_runs_only_on_a_found_user() {
    for state in all_states() {
        for event in some_events() {
            let found = matches!(event, AuthEvent::UserFetched { user: Ok(_) });
            let (_, action) = step(state, event);
            let runs = matches!(action, AuthAction::Continue { .. });
            assert_eq!(runs, state == AuthState::UserLookup && found);
        }
    }
}

fn rank(state: AuthState) -> u8 {
    match state {
        AuthState::Start => 0,
        AuthState::SessionLookup => 1,
        AuthState::UserLookup => 2,
        AuthState::Continuation => 3,
        AuthState::Unauthorized => 4,
        AuthState::Done => 4,
    }
}

#[test]
fn no_step_leads_back() {
    for state in all_states() {
        for event in some_events() {
            let (next, action) = step(state, event);
            if action == Action::Ignore {
                assert_eq!(next, state);
            } else {
                assert!(rank(next) > rank(state));
            }
        }
    }
}

#[test]
fn events_in_any_order_never_ask_out_of_order() {
    let events = some_events();
    let n = events.len();
    for a in 0..n {
        for b in 0..n {
            for c in 0..n {
                for d in 0..n {
                    let mut state = AuthState::Start;
                    let mut asked: Vec<Action> = Vec::new();
                    for i in [a, b, c, d] {
                        let event = some_events().swap_remove(i);
                        let (next, action) = step(state, event);
                        state = next;
                        if action != Action::Ignore {
                            asked.push(action);
                        }
                    }
                    let kinds: Vec<u8> = asked
                        .iter()
                        .map(|x| match x {
                            AuthAction::FetchSession { .. } => 1,
                            AuthAction::FetchUser { .. } => 2,
                            AuthAction::Continue { .. } => 3,
                            AuthAction::Finish => 4,
                            AuthAction::Reject { .. } => 9,
                            AuthAction::Ignore => 0,
                        })
                        .collect();
                    let allowed: [&[u8]; 8] = [
                        &[],
                        &[9],
                        &[1],
                        &[1, 9],
                        &[1, 2],
                        &[1, 2, 9],
                        &[1, 2, 3],
                        &[1, 2, 3, 4],
                    ];
                    assert!(allowed.contains(&kinds.as_slice()));
                    let continued = kinds.iter().filter(|k| **k == 3).count();
                    let rejected = kinds.iter().filter(|k| **k == 9).count();
                    assert!(continued + rejected <= 1);
                }
            }
        }
    }
}

#[test]
fn original_context_is_kept_as_it_is() {
    let ctx = vec![1u8, 2, 3];
    assert_eq!(Rejection::OriginalContext.context_for(ctx.clone()), ctx);
    assert_eq!(Rejection::OriginalContext.context_for("kept".to_string()), "kept");
}

#[test]
fn defaulted_context_holds_nothing_of_the_original() {
    let ctx = vec![1u8, 2, 3];
    assert_eq!(Rejection::DefaultedContext.context_for(ctx), Vec::<u8>::new());
    assert_eq!(Rejection::DefaultedContext.context_for("secret".to_string()), "");
    assert_eq!(Rejection::DefaultedContext.context_for(17u32), 0);
}
