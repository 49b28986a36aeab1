use ibctl::state_machine::types::{client_advisory, IbSystemStatus, PauseControl, State, StateMachineError};
use ibctl::supervisor::SupervisorError;

#[test]
fn test_connected_should_connect() {
    let (should_connect, should_wait, reason, stale) = client_advisory(&State::Connected);
    assert!(should_connect);
    assert!(!should_wait);
    assert!(reason.is_none());
    assert!(!stale);
}

#[test]
fn test_init_should_wait() {
    let (should_connect, should_wait, reason, _) = client_advisory(&State::Init);
    assert!(!should_connect);
    assert!(should_wait);
    assert_eq!(reason, Some("launching"));
}

#[test]
fn test_2fa_pending() {
    let (should_connect, should_wait, reason, _) = client_advisory(&State::WaitingFor2fa);
    assert!(!should_connect);
    assert!(should_wait);
    assert_eq!(reason, Some("2fa_pending"));
}

#[test]
fn test_restarting_stale_ids() {
    let (_, should_wait, reason, stale) = client_advisory(&State::Restarting);
    assert!(should_wait);
    assert_eq!(reason, Some("restarting"));
    assert!(stale);
}

#[test]
fn test_shutdown_no_connect_no_wait() {
    let (should_connect, should_wait, _, _) = client_advisory(&State::Shutdown);
    assert!(!should_connect);
    assert!(!should_wait);
}

#[test]
fn test_error_no_connect_no_wait() {
    let (should_connect, should_wait, _, _) = client_advisory(&State::Error("test".into()));
    assert!(!should_connect);
    assert!(!should_wait);
}

#[test]
fn test_configuring_api_should_wait() {
    let (should_connect, should_wait, reason, _) = client_advisory(&State::ConfiguringApi);
    assert!(!should_connect);
    assert!(should_wait);
    assert_eq!(reason, Some("configuring"));
}

#[test]
fn test_waiting_for_launch_standby() {
    let (should_connect, should_wait, reason, _) = client_advisory(&State::WaitingForLaunch);
    assert!(!should_connect);
    assert!(!should_wait);
    assert_eq!(reason, Some("standby"));
}

#[test]
fn test_all_states_covered() {
    let states = vec![
        State::WaitingForLaunch,
        State::Init,
        State::Launching,
        State::WaitingForAgent,
        State::WaitingForLogin,
        State::Authenticating,
        State::WaitingFor2fa,
        State::HandlingSessionConflict,
        State::DismissingPopups,
        State::ConfiguringApi,
        State::Connected,
        State::Restarting,
        State::Shutdown,
        State::Error("test".into()),
    ];
    for state in &states {
        let (sc, sw, _, _) = client_advisory(state);
        if matches!(state, State::Connected) {
            assert!(sc, "Connected should allow connect");
            assert!(!sw, "Connected should not wait");
        }
    }
}

#[test]
fn test_state_display() {
    assert_eq!(State::Init.to_string(), "Init");
    assert_eq!(State::Connected.to_string(), "Connected");
    assert_eq!(State::WaitingFor2fa.to_string(), "WaitingFor2fa");
    assert_eq!(State::Error("boom".into()).to_string(), "Error(boom)");
}

#[test]
fn test_from_name_accepts_all_states_including_connected() {
    assert!(matches!(State::from_name("Connected"), Some(State::Connected)));
    assert!(matches!(State::from_name("Init"), Some(State::Init)));
    assert!(matches!(State::from_name("WaitingForLogin"), Some(State::WaitingForLogin)));
    assert!(State::from_name("NotARealState").is_none());
}

#[test]
fn every_state_but_an_error_is_found_by_its_name() {
    let states = vec![
        State::WaitingForLaunch,
        State::Init,
        State::Launching,
        State::WaitingForAgent,
        State::WaitingForLogin,
        State::Authenticating,
        State::WaitingFor2fa,
        State::HandlingSessionConflict,
        State::DismissingPopups,
        State::WaitingForApiReady,
        State::ConfiguringApi,
        State::Connected,
        State::ReconnectingSession,
        State::Restarting,
        State::WaitingForIB,
        State::WaitingForHitl2fa,
        State::Shutdown,
    ];
    for state in &states {
        let name = state.to_string();
        assert_eq!(name, format!("{:?}", state));
        let found = State::from_name(&name).unwrap();
        assert!(found.same_as(state));
        assert_eq!(found, state.clone());
    }
    assert!(State::from_name("Error(boom)").is_none());
    assert!(State::from_name("connected").is_none());
    assert!(!State::Error("a".into()).same_as(&State::Error("b".into())));
}

#[test]
fn advice_names_every_wait() {
    assert_eq!(client_advisory(&State::WaitingForHitl2fa), (false, true, Some("awaiting_operator"), false));
    assert_eq!(client_advisory(&State::WaitingForIB), (false, true, Some("ib_maintenance"), false));
    assert_eq!(client_advisory(&State::ReconnectingSession), (false, true, Some("reconnecting"), false));
    assert_eq!(client_advisory(&State::HandlingSessionConflict), (false, true, Some("session_conflict"), false));
    assert_eq!(client_advisory(&State::Authenticating), (false, true, Some("logging_in"), false));
}

#[test]
fn fresh_controls() {
    let ib = IbSystemStatus::new();
    assert!(ib.available);
    assert_eq!(ib.status, "available");
    assert!(ib.reason.is_empty() && ib.last_updated.is_none() && ib.return_state.is_none());
    let pause = PauseControl::new();
    assert!(!pause.paused && pause.ceiling_state.is_none());
}

#[test]
fn errors_convert() {
    let e = StateMachineError::from(SupervisorError::NotRunning);
    assert!(matches!(e, StateMachineError::Supervisor(SupervisorError::NotRunning)));
}
