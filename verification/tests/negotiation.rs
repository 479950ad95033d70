use login_negotiation::{
    login, AdvertisedMechanism, IdentityProvider, LoginChoice, LoginError, Negotiation, Reply,
    Request, Session,
};

fn provider(id: &str, name: &str) -> IdentityProvider {
    IdentityProvider::new(id.to_string(), name.to_string())
}

fn sso(providers: Vec<IdentityProvider>) -> AdvertisedMechanism {
    AdvertisedMechanism::SingleSignOn { providers }
}

fn session() -> Session {
    Session {
        access_token: "syt_token".to_string(),
        user_id: "@alice:example.org".to_string(),
        device_id: "DEVICE".to_string(),
    }
}

fn failed_with(state: &Negotiation, expected: LoginError) -> bool {
    matches!(state, Negotiation::Failed { reason } if *reason == expected)
}

#[test]
fn empty_list_fails_for_want_of_a_method() {
    let state = login(Vec::new());
    assert!(failed_with(&state, LoginError::NoCompatibleMethod));
}

#[test]
fn token_and_unknown_only_fail_for_want_of_a_method() {
    let state = login(vec![
        AdvertisedMechanism::Token,
        AdvertisedMechanism::Unknown("m.login.dummy".to_string()),
    ]);
    assert!(failed_with(&state, LoginError::NoCompatibleMethod));
    assert!(state.is_terminal());
}

#[test]
fn password_alone_is_dispatched_without_selection() {
    let state = login(vec![AdvertisedMechanism::Password]);
    match state {
        Negotiation::Dispatching { choice, pending } => {
            assert!(matches!(choice, LoginChoice::Password));
            assert!(matches!(pending, Request::Credentials));
        }
        other => panic!("expected a dispatch, got {:?}", other),
    }
}

#[test]
fn single_provider_is_dispatched_without_selection() {
    let state = login(vec![AdvertisedMechanism::Token, sso(vec![provider("gh", "GitHub")])]);
    match state {
        Negotiation::Dispatching { choice, pending } => {
            assert!(matches!(&choice, LoginChoice::SsoVia(p) if p.id == "gh" && p.name == "GitHub"));
            assert!(
                matches!(&pending, Request::SsoInitiation { provider: Some(id) } if id == "gh")
            );
        }
        other => panic!("expected a dispatch, got {:?}", other),
    }
}

#[test]
fn several_choices_await_selection() {
    let state = login(vec![AdvertisedMechanism::Password, sso(Vec::new())]);
    match &state {
        Negotiation::AwaitingSelection { offered } => {
            assert_eq!(offered.len(), 2);
            assert!(matches!(offered[0], LoginChoice::Password));
            assert!(matches!(offered[1], LoginChoice::GenericSso));
        }
        other => panic!("expected a wait for selection, got {:?}", other),
    }
    assert!(!state.is_terminal());
}

#[test]
fn two_providers_await_selection() {
    let state = login(vec![sso(vec![provider("a", "A"), provider("b", "B")])]);
    assert!(matches!(&state, Negotiation::AwaitingSelection { offered } if offered.len() == 2));
}

#[test]
fn selecting_an_offered_choice_dispatches_it() {
    let state = login(vec![AdvertisedMechanism::Password, sso(Vec::new())]);
    let state = state.select(LoginChoice::GenericSso);
    match state {
        Negotiation::Dispatching { choice, pending } => {
            assert!(matches!(choice, LoginChoice::GenericSso));
            assert!(matches!(pending, Request::SsoInitiation { provider: None }));
        }
        other => panic!("expected a dispatch, got {:?}", other),
    }
}

#[test]
fn selecting_an_absent_choice_is_an_invalid_selection() {
    let state = login(vec![AdvertisedMechanism::Password, sso(Vec::new())]);
    let state = state.select(LoginChoice::SsoVia(provider("gh", "GitHub")));
    assert!(failed_with(&state, LoginError::InvalidSelection));
    assert!(!matches!(state, Negotiation::Dispatching { .. }));
}

#[test]
fn selecting_an_absent_provider_is_an_invalid_selection() {
    let state = login(vec![sso(vec![provider("a", "A"), provider("b", "B")])]);
    let state = state.select(LoginChoice::SsoVia(provider("c", "A")));
    assert!(failed_with(&state, LoginError::InvalidSelection));
}

#[test]
fn selecting_generic_sso_when_only_providers_are_offered_is_invalid() {
    let state = login(vec![sso(vec![provider("a", "A"), provider("b", "B")])]);
    let state = state.select(LoginChoice::GenericSso);
    assert!(failed_with(&state, LoginError::InvalidSelection));
}

#[test]
fn a_provider_is_selected_by_its_identifier() {
    let state = login(vec![sso(vec![provider("a", "A"), provider("b", "B")])]);
    let state = state.select(LoginChoice::SsoVia(provider("b", "shown otherwise")));
    assert!(matches!(
        &state,
        Negotiation::Dispatching { pending: Request::SsoInitiation { provider: Some(id) }, .. }
            if id == "b"
    ));
}

#[test]
fn a_failed_negotiation_takes_no_selection() {
    let state = login(Vec::new()).select(LoginChoice::Password);
    assert!(failed_with(&state, LoginError::NoCompatibleMethod));
}

#[test]
fn a_dispatch_takes_no_selection() {
    let state = login(vec![AdvertisedMechanism::Password]).select(LoginChoice::GenericSso);
    assert!(matches!(
        state,
        Negotiation::Dispatching { choice: LoginChoice::Password, pending: Request::Credentials }
    ));
}

#[test]
fn a_wait_for_selection_takes_no_reply() {
    let state = login(vec![AdvertisedMechanism::Password, sso(Vec::new())]);
    let state = state.deliver(Reply::Session { session: session() });
    assert!(matches!(&state, Negotiation::AwaitingSelection { offered } if offered.len() == 2));
    let state = state.deliver(Reply::Rejected);
    assert!(matches!(&state, Negotiation::AwaitingSelection { offered } if offered.len() == 2));
}

#[test]
fn the_start_is_resolved_and_then_routed() {
    let state = Negotiation::start(vec![
        AdvertisedMechanism::Password,
        AdvertisedMechanism::Token,
        sso(vec![provider("gh", "GitHub")]),
    ]);
    assert!(matches!(&state, Negotiation::Start { mechanisms } if mechanisms.len() == 3));
    let state = state.advance();
    match &state {
        Negotiation::Resolved { choices } => {
            assert_eq!(choices.len(), 2);
            assert!(matches!(choices[0], LoginChoice::Password));
            assert!(matches!(&choices[1], LoginChoice::SsoVia(p) if p.id == "gh"));
        }
        other => panic!("expected resolved choices, got {:?}", other),
    }
    let state = state.advance();
    assert!(matches!(&state, Negotiation::AwaitingSelection { offered } if offered.len() == 2));
    let state = state.advance();
    assert!(matches!(&state, Negotiation::AwaitingSelection { offered } if offered.len() == 2));
}

#[test]
fn the_start_takes_no_selection_and_no_reply() {
    let state = Negotiation::start(vec![AdvertisedMechanism::Password]);
    let state = state.select(LoginChoice::Password);
    assert!(matches!(&state, Negotiation::Start { mechanisms } if mechanisms.len() == 1));
    let state = state.deliver(Reply::NetworkFailure);
    assert!(matches!(&state, Negotiation::Start { mechanisms } if mechanisms.len() == 1));
}

#[test]
fn a_password_login_runs_to_a_session() {
    let state = login(vec![AdvertisedMechanism::Password]);
    let state = state.deliver(Reply::Credentials {
        identifier: "alice".to_string(),
        secret: "wonderland".to_string(),
    });
    assert!(matches!(
        &state,
        Negotiation::Dispatching {
            choice: LoginChoice::Password,
            pending: Request::PasswordAuth { identifier, secret },
        } if identifier == "alice" && secret == "wonderland"
    ));
    let state = state.deliver(Reply::Session { session: session() });
    assert!(state.is_terminal());
    match state.outcome() {
        Some(Ok(session)) => {
            assert_eq!(session.access_token, "syt_token");
            assert_eq!(session.user_id, "@alice:example.org");
            assert_eq!(session.device_id, "DEVICE");
        }
        other => panic!("expected a session, got {:?}", other),
    }
}

#[test]
fn a_rejection_fails_the_negotiation() {
    let state = login(vec![AdvertisedMechanism::Password])
        .deliver(Reply::Credentials { identifier: "alice".to_string(), secret: "x".to_string() })
        .deliver(Reply::Rejected);
    assert!(failed_with(&state, LoginError::Rejected));
    assert!(matches!(state.outcome(), Some(Err(LoginError::Rejected))));
}

#[test]
fn a_network_failure_fails_the_negotiation() {
    let state = login(vec![sso(Vec::new())]).deliver(Reply::NetworkFailure);
    assert!(failed_with(&state, LoginError::Network));
}

#[test]
fn an_ended_negotiation_stays_as_it_ended() {
    let state = login(vec![AdvertisedMechanism::Password])
        .deliver(Reply::Credentials { identifier: "alice".to_string(), secret: "x".to_string() })
        .deliver(Reply::Rejected);
    let state = state
        .advance()
        .select(LoginChoice::Password)
        .deliver(Reply::Session { session: session() })
        .deliver(Reply::NetworkFailure);
    assert!(failed_with(&state, LoginError::Rejected));

    let state = login(vec![AdvertisedMechanism::Password])
        .deliver(Reply::Credentials { identifier: "alice".to_string(), secret: "w".to_string() })
        .deliver(Reply::Session { session: session() });
    let state = state.advance().select(LoginChoice::GenericSso).deliver(Reply::Rejected);
    assert!(matches!(
        &state,
        Negotiation::Authenticated { session } if session.access_token == "syt_token"
    ));
}

#[test]
fn a_negotiation_under_way_has_no_outcome() {
    assert!(login(vec![AdvertisedMechanism::Password]).outcome().is_none());
    assert!(login(vec![AdvertisedMechanism::Password, sso(Vec::new())]).outcome().is_none());
    assert!(Negotiation::start(Vec::new()).outcome().is_none());
    assert!(Negotiation::start(Vec::new()).advance().outcome().is_none());
    assert!(matches!(
        login(Vec::new()).outcome(),
        Some(Err(LoginError::NoCompatibleMethod))
    ));
}

#[test]
fn failures_are_told_apart() {
    assert!(!LoginError::NoCompatibleMethod.is_recoverable());
    assert!(!LoginError::InvalidSelection.is_recoverable());
    assert!(LoginError::Rejected.is_recoverable());
    assert!(LoginError::Network.is_recoverable());
    assert!(LoginError::InvalidSelection.is_integration_fault());
    assert!(!LoginError::NoCompatibleMethod.is_integration_fault());
    assert!(!LoginError::Rejected.is_integration_fault());
    assert!(!LoginError::Network.is_integration_fault());
}

#[test]
fn failures_have_their_messages() {
    assert_eq!(
        LoginError::NoCompatibleMethod.message(),
        "Homeserver login types incompatible with this client"
    );
    assert_eq!(LoginError::InvalidSelection.message(), "Selected login choice was not offered");
    assert_eq!(LoginError::Rejected.message(), "Homeserver rejected the credentials");
    assert_eq!(LoginError::Network.message(), "Network failure during login");
}
