use fit_launcher_real_debrid::error::RealDebridError;
use fit_launcher_real_debrid::flow::{DeviceAuthFlow, FlowAction, FlowEvent, FlowPhase};
use fit_launcher_real_debrid::model::{
    DeviceCodeResponse, RealDebridSettings, SettingsConfigurationError, TokenResponse,
};
use fit_launcher_real_debrid::token::TokenState;

fn fresh_state() -> TokenState {
    TokenState::new(RealDebridSettings { client_id: "cid".to_string(), refresh_token: None })
}

fn device(interval: u64, expires_in: u64) -> DeviceCodeResponse {
    DeviceCodeResponse {
        device_code: "d1".to_string(),
        user_code: "U1".to_string(),
        interval,
        expires_in,
        verification_url: "https://x/device".to_string(),
    }
}

fn pending() -> RealDebridError {
    RealDebridError::Api { message: "pending".to_string(), code: 8 }
}

fn tokens() -> TokenResponse {
    TokenResponse {
        access_token: "A".to_string(),
        expires_in: 3600,
        token_type: "bearer".to_string(),
        refresh_token: "R".to_string(),
    }
}

/// Runs the flow up to its first poll, with polling started at `start`.
fn polling(auth: &mut TokenState, interval: u64, expires_in: u64, start: u64) -> DeviceAuthFlow {
    let mut flow = DeviceAuthFlow::new();
    flow.step(auth, FlowEvent::Begin);
    flow.step(auth, FlowEvent::DeviceCode { code: Ok(device(interval, expires_in)), now: start });
    let a = flow.step(auth, FlowEvent::Prompted { shown: Ok(()), now: start });
    assert!(matches!(a, FlowAction::Poll { .. }));
    flow
}

fn is_terminal(a: &FlowAction) -> bool {
    matches!(a, FlowAction::Succeed | FlowAction::Fail(_))
}

#[test]
fn device_grant_succeeds_after_two_pending_polls() {
    let mut auth = fresh_state();
    let mut flow = DeviceAuthFlow::new();
    let mut prompts = 0;
    let mut absorbed = 0;
    let mut successes = 0;
    let mut failures = 0;
    let mut persisted: Vec<RealDebridSettings> = Vec::new();

    match flow.step(&mut auth, FlowEvent::Begin) {
        FlowAction::RequestDeviceCode { client_id } => assert_eq!(client_id, "cid"),
        other => panic!("unexpected {:?}", other),
    }
    match flow.step(&mut auth, FlowEvent::DeviceCode { code: Ok(device(5, 1800)), now: 1000 }) {
        FlowAction::Prompt { verification_url } => {
            assert_eq!(verification_url, "https://x/device");
            prompts += 1;
        }
        other => panic!("unexpected {:?}", other),
    }
    let mut action = flow.step(&mut auth, FlowEvent::Prompted { shown: Ok(()), now: 1000 });
    let replies: Vec<(Result<TokenResponse, RealDebridError>, u64)> =
        vec![(Err(pending()), 1005), (Err(pending()), 1010), (Ok(tokens()), 1015)];
    for (reply, now) in replies {
        match action {
            FlowAction::Poll { wait_secs, client_id, device_code } => {
                assert_eq!(wait_secs, 5);
                assert_eq!(client_id, "cid");
                assert_eq!(device_code, "d1");
            }
            other => panic!("unexpected {:?}", other),
        }
        let was_pending = reply.is_err();
        action = flow.step(&mut auth, FlowEvent::Polled { reply, now });
        if was_pending {
            assert!(!is_terminal(&action));
            absorbed += 1;
        }
    }
    match action {
        FlowAction::Persist(settings) => persisted.push(settings),
        other => panic!("unexpected {:?}", other),
    }
    assert!(auth.access_token.is_none());
    match flow.step(&mut auth, FlowEvent::Saved(Ok(()))) {
        FlowAction::Succeed => successes += 1,
        FlowAction::Fail(_) => failures += 1,
        other => panic!("unexpected {:?}", other),
    }
    assert_eq!(prompts, 1);
    assert_eq!(absorbed, 2);
    assert_eq!(successes, 1);
    assert_eq!(failures, 0);
    assert_eq!(persisted.len(), 1);
    assert_eq!(persisted[0].client_id, "cid");
    assert_eq!(persisted[0].refresh_token.as_deref(), Some("R"));
    assert_eq!(auth.access_token.as_deref(), Some("A"));
    assert_eq!(auth.refresh_token.as_deref(), Some("R"));
    assert_eq!(auth.expires_at, 1015 + 3600);
    assert!(flow.is_finished());
    assert!(matches!(flow.phase, FlowPhase::Succeeded));
}

#[test]
fn invalid_request_on_first_poll_fails_attempt() {
    let mut auth = fresh_state();
    let mut flow = polling(&mut auth, 5, 1800, 1000);
    let error = RealDebridError::Api { message: "invalid request".to_string(), code: 17 };
    match flow.step(&mut auth, FlowEvent::Polled { reply: Err(error), now: 1005 }) {
        FlowAction::Fail(RealDebridError::Api { message, code }) => {
            assert_eq!(message, "invalid request");
            assert_eq!(code, 17);
        }
        other => panic!("unexpected {:?}", other),
    }
    assert!(flow.is_finished());
    assert!(auth.access_token.is_none());
    assert!(auth.refresh_token.is_none());
    assert_eq!(auth.expires_at, 0);
    assert_eq!(auth.client_id, "cid");
}

#[test]
fn polling_stops_once_device_code_expired() {
    let mut auth = fresh_state();
    let mut flow = polling(&mut auth, 5, 30, 1000);
    let a = flow.step(&mut auth, FlowEvent::Polled { reply: Err(pending()), now: 1030 });
    assert!(matches!(a, FlowAction::Poll { .. }));
    match flow.step(&mut auth, FlowEvent::Polled { reply: Err(pending()), now: 1031 }) {
        FlowAction::Fail(RealDebridError::Auth(m)) => assert_eq!(m, "Device code expired."),
        other => panic!("unexpected {:?}", other),
    }
    assert!(flow.is_finished());
}

#[test]
fn endless_pending_ends_at_expiry() {
    let mut auth = fresh_state();
    let mut flow = polling(&mut auth, 5, 60, 0);
    let mut now = 0;
    let mut polls = 0;
    loop {
        now += 5;
        let a = flow.step(&mut auth, FlowEvent::Polled { reply: Err(pending()), now });
        polls += 1;
        if is_terminal(&a) {
            break;
        }
        assert!(polls < 1000);
    }
    assert_eq!(now, 65);
    assert!(flow.is_finished());
}

#[test]
fn pending_polls_never_report_failure() {
    let mut auth = fresh_state();
    let mut flow = polling(&mut auth, 5, 1800, 1000);
    for k in 1..=50u64 {
        let a = flow.step(&mut auth, FlowEvent::Polled { reply: Err(pending()), now: 1000 + 5 * k });
        assert!(matches!(a, FlowAction::Poll { wait_secs: 5, .. }));
    }
    assert!(!flow.is_finished());
    assert!(auth.access_token.is_none());
}

#[test]
fn device_code_failure_ends_attempt() {
    let mut auth = fresh_state();
    let mut flow = DeviceAuthFlow::new();
    flow.step(&mut auth, FlowEvent::Begin);
    let a = flow.step(
        &mut auth,
        FlowEvent::DeviceCode { code: Err(RealDebridError::Reqwest("offline".to_string())), now: 1 },
    );
    assert!(matches!(a, FlowAction::Fail(RealDebridError::Reqwest(_))));
    assert!(flow.is_finished());
}

#[test]
fn prompt_failure_ends_attempt() {
    let mut auth = fresh_state();
    let mut flow = DeviceAuthFlow::new();
    flow.step(&mut auth, FlowEvent::Begin);
    flow.step(&mut auth, FlowEvent::DeviceCode { code: Ok(device(5, 1800)), now: 1 });
    let a = flow.step(
        &mut auth,
        FlowEvent::Prompted { shown: Err(RealDebridError::Tauri("closed".to_string())), now: 1 },
    );
    assert!(matches!(a, FlowAction::Fail(RealDebridError::Tauri(_))));
    assert!(flow.is_finished());
}

#[test]
fn settings_failure_ends_attempt_with_auth_error() {
    let mut auth = fresh_state();
    let mut flow = polling(&mut auth, 5, 1800, 1000);
    flow.step(&mut auth, FlowEvent::Polled { reply: Ok(tokens()), now: 1005 });
    let a = flow.step(
        &mut auth,
        FlowEvent::Saved(Err(SettingsConfigurationError::new("disk full".to_string()))),
    );
    match a {
        FlowAction::Fail(RealDebridError::Auth(m)) => assert_eq!(m, "disk full"),
        other => panic!("unexpected {:?}", other),
    }
    assert!(matches!(flow.phase, FlowPhase::Failed));
    assert!(auth.access_token.is_none());
    assert!(auth.refresh_token.is_none());
    assert_eq!(auth.client_id, "cid");
    assert_eq!(auth.expires_at, 0);
}

#[test]
fn settings_failure_keeps_earlier_credentials() {
    let mut auth = TokenState {
        access_token: Some("OLD".to_string()),
        refresh_token: Some("R0".to_string()),
        client_id: "cid".to_string(),
        expires_at: 500,
    };
    let mut flow = polling(&mut auth, 5, 1800, 1000);
    flow.step(&mut auth, FlowEvent::Polled { reply: Ok(tokens()), now: 1005 });
    let a = flow.step(
        &mut auth,
        FlowEvent::Saved(Err(SettingsConfigurationError::new("disk full".to_string()))),
    );
    assert!(matches!(a, FlowAction::Fail(_)));
    assert_eq!(auth.access_token.as_deref(), Some("OLD"));
    assert_eq!(auth.refresh_token.as_deref(), Some("R0"));
    assert_eq!(auth.client_id, "cid");
    assert_eq!(auth.expires_at, 500);
}

#[test]
fn expiry_counts_from_device_code_arrival() {
    let mut auth = fresh_state();
    let mut flow = DeviceAuthFlow::new();
    flow.step(&mut auth, FlowEvent::Begin);
    flow.step(&mut auth, FlowEvent::DeviceCode { code: Ok(device(5, 30)), now: 1000 });
    match flow.step(&mut auth, FlowEvent::Prompted { shown: Ok(()), now: 1031 }) {
        FlowAction::Fail(RealDebridError::Auth(m)) => assert_eq!(m, "Device code expired."),
        other => panic!("unexpected {:?}", other),
    }
    assert!(flow.is_finished());
}

#[test]
fn finished_attempt_ignores_events() {
    let mut auth = fresh_state();
    let mut flow = polling(&mut auth, 5, 1800, 1000);
    flow.step(&mut auth, FlowEvent::Polled { reply: Ok(tokens()), now: 1005 });
    assert!(matches!(flow.step(&mut auth, FlowEvent::Saved(Ok(()))), FlowAction::Succeed));
    assert!(matches!(flow.step(&mut auth, FlowEvent::Saved(Ok(()))), FlowAction::Nothing));
    assert!(matches!(flow.step(&mut auth, FlowEvent::Begin), FlowAction::Nothing));
    assert!(matches!(flow.phase, FlowPhase::Succeeded));
}

#[test]
fn out_of_order_event_does_nothing() {
    let mut auth = fresh_state();
    let mut flow = DeviceAuthFlow::new();
    let a = flow.step(&mut auth, FlowEvent::Polled { reply: Ok(tokens()), now: 5 });
    assert!(matches!(a, FlowAction::Nothing));
    assert!(matches!(flow.phase, FlowPhase::Start));
    assert!(auth.access_token.is_none());
}
