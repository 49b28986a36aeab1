use ibctl::agent_client::{Bounds, WindowInfo};
use ibctl::agent_events::{AgentEvent, ReportedWindow};
use ibctl::clock::Moment;
use ibctl::config::{Config, CounterReset, OnTimeout, ReloginFailureAction, Strategy};
use ibctl::state_machine::machine::{CommandAction, StateMachine};
use ibctl::state_machine::outcome::{HandlerReply, Outcome, Stage};
use ibctl::state_machine::queries::{JvmInfo, SocatInfo};
use ibctl::state_machine::types::State;
use ibctl::types::{Command, Signal, WindowId};
use ibctl::windows::{Components, SeenComponents, SeenWindow};

const SEC: u128 = 1_000_000_000;

fn at(secs: u64) -> Moment {
    Moment { nanos: secs as u128 * SEC, epoch_secs: 1000 + secs }
}

fn machine(state: State) -> StateMachine {
    let mut m = StateMachine::new(Config::default(), false, at(0));
    m.state = state;
    m
}

fn seen(id: u64, title: &str) -> SeenWindow {
    SeenWindow::of(&WindowInfo {
        id: WindowId(id),
        title: title.into(),
        class: format!("class{}", id),
        bounds: Some(Bounds { x: 0, y: 0, width: 700, height: 500 }),
        visible: true,
    })
}

fn windows(titles: &[&str]) -> Option<Vec<SeenWindow>> {
    Some(titles.iter().enumerate().map(|(i, t)| seen(i as u64 + 1, t)).collect())
}

fn components(textfields: usize, labels: &[&str], rows: &[(&str, &str)]) -> Option<SeenComponents> {
    Some(SeenComponents::of(&Components {
        textfields,
        labels: labels.iter().map(|l| l.to_string()).collect(),
        rows: rows.iter().map(|(a, b)| (a.to_string(), b.to_string())).collect(),
    }))
}

fn done(stage: Stage) -> Outcome {
    match stage {
        Stage::Done(o) => o,
        other => panic!("{:?}", other),
    }
}

fn next(stage: Stage) -> State {
    done(stage).next
}

fn inspects(stage: Stage) -> Vec<u64> {
    match stage {
        Stage::Inspect(ids) => ids.iter().map(|w| w.0).collect(),
        other => panic!("{:?}", other),
    }
}

fn open(m: &mut StateMachine, id: u64, title: &str, login: bool) {
    let window = ReportedWindow {
        id: WindowId(id),
        title: title.into(),
        class: format!("class{}", id),
        has_login_button: login,
    };
    m.handle_agent_event(&AgentEvent::WindowOpened { seq: id, window }, 0);
}

fn snapshot(m: &mut StateMachine, list: &[(u64, &str, bool)]) {
    let windows = list
        .iter()
        .map(|(id, title, login)| ReportedWindow {
            id: WindowId(*id),
            title: title.to_string(),
            class: format!("class{}", id),
            has_login_button: *login,
        })
        .collect();
    m.handle_agent_event(&AgentEvent::Snapshot { seq: 1, windows }, 0);
}

#[test]
fn startup_to_login() {
    let mut m = machine(State::Init);
    m.begin();
    assert_eq!(m.state, State::Init);
    assert_eq!(m.do_init(true).next, State::Launching);
    assert_eq!(
        m.do_init(false).next,
        State::Error("TWS path does not exist: /home/ibgateway/Jts".into())
    );
    assert_eq!(m.do_launch().next, State::WaitingForAgent);
    assert_eq!(m.do_wait_for_agent(true, true, at(1)).next, State::WaitingForLogin);
    assert_eq!(m.do_wait_for_agent(true, false, at(60)).next, State::WaitingForAgent);
    assert_eq!(
        m.do_wait_for_agent(true, false, at(61)).next,
        State::Error("Timed out waiting for agent health check".into())
    );
    assert_eq!(
        m.do_wait_for_agent(false, true, at(1)).next,
        State::Error("JVM process exited before agent became ready".into())
    );
    assert_eq!(m.do_waiting_for_launch().pause_ms, 500);
}

#[test]
fn standby_sites_wait_for_start() {
    let mut config = Config::default();
    config.site.auto_launch = false;
    let mut m = StateMachine::new(config, false, at(0));
    m.begin();
    assert_eq!(m.state, State::WaitingForLaunch);
    m.dispatch_command(&Command::Start, at(1));
    assert_eq!(m.state, State::Init);
    m.dispatch_command(&Command::Start, at(2));
    assert_eq!(m.transition_history.len(), 1);
}

#[test]
fn login_by_the_cache() {
    for (title, login, expected) in [
        ("Existing session detected", false, State::HandlingSessionConflict),
        ("Second Factor Authentication", false, State::WaitingFor2fa),
        ("RE-LOGIN IS REQUIRED", false, State::ReconnectingSession),
        ("IBKR Gateway", true, State::Authenticating),
        ("IBKR Gateway", false, State::DismissingPopups),
    ] {
        let mut m = machine(State::WaitingForLogin);
        snapshot(&mut m, &[(1, title, login)]);
        assert_eq!(next(m.do_wait_for_login(true, &None, &None, at(1))), expected, "{}", title);
    }
    let mut m = machine(State::WaitingForLogin);
    snapshot(&mut m, &[]);
    assert_eq!(next(m.do_wait_for_login(true, &windows(&["Second Factor"]), &None, at(1))), State::WaitingForLogin);
    assert_eq!(
        next(m.do_wait_for_login(true, &None, &None, at(121))),
        State::Error("Timed out waiting for login window".into())
    );
    assert_eq!(
        next(m.do_wait_for_login(false, &None, &None, at(1))),
        State::Error("JVM process exited while waiting for login window".into())
    );
}

#[test]
fn login_by_the_listed_windows() {
    let mut m = machine(State::WaitingForLogin);
    let blocking = windows(&["x", "Second Factor Authentication"]);
    assert_eq!(next(m.do_wait_for_login(true, &blocking, &None, at(1))), State::WaitingFor2fa);
    let conflict = windows(&["IBKR Gateway", "Existing session"]);
    assert_eq!(next(m.do_wait_for_login(true, &None, &conflict, at(1))), State::HandlingSessionConflict);
    let main = windows(&["x", "IB Gateway", "IBKR Gateway"]);
    assert_eq!(inspects(m.do_wait_for_login(true, &None, &main, at(1))), vec![2]);
    assert_eq!(StateMachine::login_inspected(&components(2, &[], &[])).next, State::Authenticating);
    assert_eq!(StateMachine::login_inspected(&components(0, &[], &[])).next, State::DismissingPopups);
    assert_eq!(StateMachine::login_inspected(&None).next, State::Authenticating);
}

#[test]
fn warm_restarts_wait_for_the_gateway() {
    let mut m = machine(State::WaitingForLogin);
    m.warm_restart_pending = Some("hash".into());
    assert_eq!(m.restart_token(), Some("hash"));
    let o = done(m.do_wait_for_login(true, &None, &windows(&["IBKR Gateway Login"]), at(5)));
    assert_eq!((o.next, o.pause_ms), (State::WaitingForLogin, 2000));
    assert!(m.warm_restart_pending.is_some());
    assert_eq!(next(m.do_wait_for_login(true, &None, &windows(&["IBKR Gateway"]), at(6))), State::DismissingPopups);
    assert!(m.warm_restart_pending.is_none());

    m.warm_restart_pending = Some("hash".into());
    assert_eq!(next(m.do_wait_for_login(true, &None, &None, at(121))), State::WaitingForLogin);
    assert!(m.warm_restart_pending.is_none());
    assert_eq!(m.state_entered_at, 121 * SEC);

    m.warm_restart_pending = Some("hash".into());
    assert_eq!(
        next(m.do_wait_for_login(false, &None, &None, at(122))),
        State::Error("JVM exited during warm restart login".into())
    );
}

#[test]
fn authentication() {
    let main = vec![seen(9, "IBKR Gateway")];
    assert_eq!(inspects(StateMachine::do_authenticate(&None, &main)), vec![9]);
    assert_eq!(next(StateMachine::do_authenticate(&windows(&["Re-Login"]), &main)), State::ReconnectingSession);
    assert_eq!(next(StateMachine::do_authenticate(&None, &vec![])), State::WaitingForLogin);
    let w = WindowId(9);
    assert!(matches!(
        StateMachine::authenticate_inspected(w, &components(1, &[], &[])),
        Stage::Dispatch(WindowId(9))
    ));
    assert_eq!(next(StateMachine::authenticate_inspected(w, &None)), State::DismissingPopups);

    let mut m = machine(State::Authenticating);
    open(&mut m, 1, "IBKR Gateway", true);
    let o = m.authenticate_replied(HandlerReply::Error);
    assert!(o.effects.reset_handlers && o.next == State::WaitingForLogin);
    assert!(m.observation.has_login_form());
    let o = m.authenticate_replied(HandlerReply::Unmatched);
    assert_eq!((o.next, o.pause_ms, o.effects.reset_handlers), (State::WaitingForLogin, 2000, false));
    let o = m.authenticate_replied(HandlerReply::Handled);
    assert_eq!((o.next, o.pause_ms), (State::WaitingFor2fa, 1000));
    assert!(!m.observation.has_login_form());
}

#[test]
fn session_conflicts() {
    assert!(matches!(
        StateMachine::do_handle_session_conflict(&vec![seen(1, "x"), seen(2, "Existing Session")]),
        Stage::Dispatch(WindowId(2))
    ));
    assert_eq!(next(StateMachine::do_handle_session_conflict(&vec![])), State::DismissingPopups);
    assert_eq!(StateMachine::session_conflict_handled().next, State::DismissingPopups);
}

#[test]
fn second_factor_dialogs() {
    let dialog = windows(&["IBKR Gateway", "Second Factor Authentication"]);
    let mut m = machine(State::WaitingFor2fa);
    assert_eq!(next(m.do_wait_for_2fa(true, &dialog, at(1))), State::WaitingFor2fa);
    assert!(m.twofa_seen && m.twofa_device_selected);

    m.has_totp_secret = true;
    assert!(matches!(m.do_wait_for_2fa(true, &dialog, at(2)), Stage::Dispatch(WindowId(2))));
    assert_eq!(next(m.twofa_code_tried(HandlerReply::Unmatched, at(2))), State::WaitingFor2fa);
    let o = done(m.twofa_code_tried(HandlerReply::Handled, at(2)));
    assert_eq!((o.next, o.pause_ms), (State::DismissingPopups, 3000));

    m.twofa_device_selected = false;
    m.config.twofa.device = "IB Key".into();
    assert!(matches!(m.do_wait_for_2fa(true, &dialog, at(3)), Stage::SelectDevice(WindowId(2))));
    assert!(!m.twofa_device_selected);
    assert!(matches!(m.twofa_device_tried(WindowId(2), false, at(3)), Stage::Dispatch(WindowId(2))));
    assert!(m.twofa_device_selected);
    let o = done(m.twofa_device_tried(WindowId(2), true, at(3)));
    assert_eq!((o.next, o.pause_ms), (State::WaitingFor2fa, 2000));
}

#[test]
fn second_factor_confirmation() {
    let gone = windows(&["IBKR Gateway", "x", "IB Gateway"]);
    let mut m = machine(State::WaitingFor2fa);
    assert_eq!(next(m.do_wait_for_2fa(true, &gone, at(10))), State::WaitingFor2fa);
    assert_eq!(next(m.do_wait_for_2fa(true, &gone, at(11))), State::DismissingPopups);
    m.twofa_seen = true;
    assert_eq!(next(m.do_wait_for_2fa(true, &gone, at(12))), State::WaitingFor2fa);
    assert_eq!(next(m.do_wait_for_2fa(true, &gone, at(16))), State::WaitingFor2fa);
    assert_eq!(inspects(m.do_wait_for_2fa(true, &gone, at(17))), vec![1, 3]);
    let form = components(2, &[], &[]);
    let plain = components(0, &[], &[]);
    let o = done(m.twofa_inspected(&vec![components(0, &[], &[]), form], at(17)));
    assert!(o.next == State::WaitingForLogin && o.effects.reset_handlers);
    assert_eq!(next(m.twofa_inspected(&vec![None, plain], at(17))), State::DismissingPopups);
    assert_eq!(next(m.twofa_inspected(&vec![None], at(17))), State::WaitingFor2fa);
}

#[test]
fn second_factor_interruptions() {
    let mut m = machine(State::WaitingFor2fa);
    assert_eq!(
        next(m.do_wait_for_2fa(false, &None, at(1))),
        State::Error("JVM exited during 2FA wait".into())
    );
    assert_eq!(next(m.do_wait_for_2fa(true, &windows(&["Existing session"]), at(1))), State::HandlingSessionConflict);
    for _ in 0..9 {
        assert_eq!(next(m.do_wait_for_2fa(true, &None, at(1))), State::WaitingFor2fa);
    }
    assert_eq!(
        next(m.do_wait_for_2fa(true, &None, at(1))),
        State::Error("Agent unreachable during 2FA wait".into())
    );
    open(&mut m, 1, "Re-login", false);
    assert_eq!(next(m.do_wait_for_2fa(true, &None, at(1))), State::WaitingForLogin);
}

fn time_out(m: &mut StateMachine, now: u64) -> State {
    m.state = State::WaitingFor2fa;
    m.state_entered_at = at(now).nanos;
    let n = next(m.do_wait_for_2fa(true, &None, at(now + 181)));
    m.settle(n.clone(), at(now + 181));
    n
}

#[test]
fn repeated_timeouts_wait_for_the_operator() {
    let mut m = machine(State::WaitingFor2fa);
    assert_eq!(time_out(&mut m, 0), State::Restarting);
    assert_eq!(time_out(&mut m, 1000), State::Restarting);
    assert_eq!(time_out(&mut m, 2000), State::WaitingForHitl2fa);
    assert_eq!(m.hitl.consecutive_timeouts, 3);
    let entered = 2181;
    assert_eq!(next(m.do_wait_for_hitl(at(entered + 3599))), State::WaitingForHitl2fa);
    let n = next(m.do_wait_for_hitl(at(entered + 3600)));
    assert_eq!(n, State::Restarting);
    m.settle(n, at(entered + 3600));
    assert!(m.hitl.entered_at.is_none());
    assert_eq!(time_out(&mut m, 9000), State::WaitingForHitl2fa);
    m.settle(State::Connected, at(9500));
    assert_eq!(m.hitl.consecutive_timeouts, 0);
    assert_eq!(time_out(&mut m, 10_000), State::Restarting);
}

#[test]
fn timeout_policies() {
    let mut m = machine(State::WaitingFor2fa);
    m.config.twofa.backoff.on_timeout = OnTimeout::HitlImmediately;
    assert_eq!(time_out(&mut m, 0), State::WaitingForHitl2fa);
    m.config.twofa.backoff.on_timeout = OnTimeout::RestartForever;
    for i in 0..5 {
        assert_eq!(time_out(&mut m, 1000 * (i + 1)), State::Restarting);
    }
    m.config.twofa.backoff.on_timeout = OnTimeout::RestartThenHitl;
    m.config.twofa.backoff.max_immediate_attempts = 0;
    assert_eq!(time_out(&mut m, 20_000), State::Restarting);
    m.config.twofa.timeout_action = "exit".into();
    assert_eq!(time_out(&mut m, 30_000), State::Shutdown);
    m.config.twofa.relogin_after_timeout = true;
    assert_eq!(time_out(&mut m, 40_000), State::Restarting);
}

#[test]
fn the_schedule_holds_its_last_entry() {
    let mut m = machine(State::WaitingForHitl2fa);
    m.config.twofa.backoff.intervals_minutes = vec![30, 60, 120];
    let mut now = 0;
    let mut waits = Vec::new();
    for _ in 0..5 {
        m.state = State::Restarting;
        m.settle(State::WaitingForHitl2fa, at(now));
        let due = (m.hitl.next_retry_at.unwrap() / SEC) as u64;
        waits.push((due - now) / 60);
        now = due;
        assert_eq!(next(m.do_wait_for_hitl(at(now))), State::Restarting);
    }
    assert_eq!(waits, vec![30, 60, 120, 120, 120]);
}

#[test]
fn notifications_are_retried() {
    let mut m = machine(State::Restarting);
    m.config.twofa.backoff.strategy = Strategy::NtfyCallback;
    m.settle(State::WaitingForHitl2fa, at(0));
    assert!(m.hitl.next_retry_at.is_none());
    assert!(matches!(m.do_wait_for_hitl(at(1)), Stage::Notify));
    assert_eq!(m.hitl_notified(false).next, State::WaitingForHitl2fa);
    assert!(matches!(m.do_wait_for_hitl(at(2)), Stage::Notify));
    m.hitl_notified(false);
    assert_eq!(next(m.do_wait_for_hitl(at(3))), State::WaitingForHitl2fa);
    assert_eq!(m.hitl.ntfy_attempts, 2);
    let (effects, _) = m.dispatch_command(&Command::HitlResume, at(4));
    assert!(effects.abort_client_task);
    assert_eq!(m.state, State::Restarting);
    m.dispatch_command(&Command::HitlResume, at(5));
    assert_eq!(m.state, State::Restarting);
}

#[test]
fn stable_sessions_reset_the_count() {
    let mut m = machine(State::ConfiguringApi);
    m.config.twofa.backoff.counter_reset = CounterReset::Stable;
    m.hitl.consecutive_timeouts = 2;
    m.settle(State::Connected, at(0));
    assert_eq!(m.hitl.consecutive_timeouts, 2);
    m.do_connected(true, None, &None, false, at(299));
    assert_eq!(m.hitl.consecutive_timeouts, 2);
    m.do_connected(true, None, &None, false, at(300));
    assert_eq!(m.hitl.consecutive_timeouts, 0);
}

#[test]
fn any_exit_breaks_a_stable_session() {
    let mut m = machine(State::ConfiguringApi);
    m.config.twofa.backoff.counter_reset = CounterReset::Stable;
    m.hitl.consecutive_timeouts = 2;
    m.settle(State::Connected, at(0));
    assert_eq!(m.hitl.connected_continuously_since, Some(0));
    m.dispatch_command(&Command::SetState("WaitingForLogin".into()), at(100));
    assert!(m.hitl.connected_continuously_since.is_none());
    m.dispatch_command(&Command::SetState("Connected".into()), at(200));
    m.do_connected(true, None, &None, false, at(400));
    assert_eq!(m.hitl.consecutive_timeouts, 2);
}

#[test]
fn popups() {
    let mut m = machine(State::DismissingPopups);
    assert!(matches!(m.do_dismiss_popups(true, &None), Stage::DispatchAll));
    assert_eq!(
        next(m.do_dismiss_popups(false, &None)),
        State::Error("JVM exited during popup dismissal".into())
    );
    let o = done(m.do_dismiss_popups(true, &windows(&["Re-login"])));
    assert!(o.next == State::ReconnectingSession && o.effects.reset_handlers);
    let o = done(m.do_dismiss_popups(true, &windows(&["Second factor"])));
    assert!(o.next == State::WaitingFor2fa && !o.effects.reset_handlers);

    assert_eq!(m.popups_dispatched(&vec![HandlerReply::Unmatched], at(5)).next, State::DismissingPopups);
    assert_eq!(m.popups_dispatched(&vec![], at(6)).next, State::WaitingForApiReady);
    assert_eq!(m.popups_dispatched(&vec![HandlerReply::Handled], at(6)).next, State::DismissingPopups);
    assert_eq!(m.popups_dispatched(&vec![], at(11)).next, State::DismissingPopups);
    assert_eq!(m.popups_dispatched(&vec![], at(12)).next, State::WaitingForApiReady);
    assert_eq!(m.popups_dispatched(&vec![HandlerReply::Handled], at(31)).next, State::WaitingForApiReady);

    let mut synced = machine(State::DismissingPopups);
    snapshot(&mut synced, &[]);
    assert!(matches!(synced.do_dismiss_popups(true, &windows(&["Re-login"])), Stage::DispatchAll));
}

#[test]
fn the_api_server_is_confirmed() {
    let m = machine(State::WaitingForApiReady);
    assert_eq!(inspects(m.do_wait_for_api_ready(true, &None, &windows(&["IBKR Gateway"]), at(1))), vec![1]);
    assert_eq!(next(m.do_wait_for_api_ready(false, &None, &None, at(1))), State::Restarting);
    assert_eq!(next(m.do_wait_for_api_ready(true, &windows(&["Second factor"]), &None, at(1))), State::WaitingFor2fa);
    let label = vec![components(0, &["API Server", "Connected"], &[])];
    assert_eq!(m.api_inspected(&label, at(1)).next, State::ConfiguringApi);
    let table = vec![None, components(0, &[], &[("Interactive Brokers API Server", "Connected")])];
    assert_eq!(m.api_inspected(&table, at(1)).next, State::ConfiguringApi);
    let off = vec![components(0, &["API Server", "disconnected"], &[("API Server", "disconnected")])];
    assert_eq!(m.api_inspected(&off, at(1)).next, State::WaitingForApiReady);
    let form = vec![components(1, &["connected"], &[]), components(0, &["connected"], &[])];
    assert_eq!(m.api_inspected(&form, at(1)).next, State::WaitingForApiReady);
}

#[test]
fn an_unconfirmed_api_server_fails_closed() {
    let m = machine(State::WaitingForApiReady);
    let o = m.api_inspected(&vec![], at(120));
    assert_eq!((o.next, o.pause_ms), (State::WaitingForApiReady, 2000));
    let o = m.api_inspected(&vec![], at(121));
    assert!(o.next == State::Restarting && o.effects.abort_client_task);
    assert_eq!(next(m.do_wait_for_api_ready(true, &None, &None, at(121))), State::Restarting);
}

#[test]
fn the_api_is_configured_or_restarted() {
    let mut m = machine(State::ConfiguringApi);
    for _ in 0..2 {
        assert!(matches!(m.do_configure_api(true, &None), Stage::Configure));
        assert_eq!(m.configuration_tried(false).next, State::ConfiguringApi);
    }
    assert!(matches!(m.do_configure_api(true, &None), Stage::Configure));
    let o = m.configuration_tried(false);
    assert!(o.next == State::Restarting && o.effects.abort_client_task);
    assert_eq!(m.config_retries, 0);
    assert!(matches!(m.do_configure_api(true, &None), Stage::Configure));
    assert_eq!(m.configuration_tried(true).next, State::Connected);
    assert_eq!(next(m.do_configure_api(false, &None)), State::Restarting);
    assert_eq!(next(m.do_configure_api(true, &windows(&["relogin"]))), State::ReconnectingSession);
}

#[test]
fn connected_sessions_are_watched() {
    let mut m = machine(State::Connected);
    let o = done(m.do_connected(true, None, &windows(&["IBKR Gateway"]), false, at(1)));
    assert_eq!((o.next, o.pause_ms), (State::Connected, 10_000));
    assert_eq!(m.connected_window_class.as_deref(), Some("class1"));
    open(&mut m, 5, "IBKR Gateway", false);
    m.do_connected(true, None, &None, false, at(1));
    assert_eq!(m.connected_window_class.as_deref(), Some("class5"));

    let o = done(m.do_connected(false, Some("tok".into()), &None, false, at(1)));
    assert_eq!(o.next, State::Restarting);
    assert!(o.effects.stop_socat && o.effects.abort_client_task && o.effects.remove_socket);
    assert_eq!(m.warm_restart_pending.as_deref(), Some("tok"));

    let o = done(m.do_connected(true, None, &None, true, at(1)));
    assert_eq!(o.next, State::WaitingForLogin);
    assert!(o.effects.stop_socat && o.effects.reset_handlers && m.connected_window_class.is_none());

    open(&mut m, 5, "IBKR Gateway", true);
    let o = done(m.do_connected(true, None, &None, false, at(1)));
    assert!(o.next == State::WaitingForLogin && !o.effects.stop_socat && o.effects.reset_handlers);
    open(&mut m, 6, "Existing session", false);
    assert_eq!(next(m.do_connected(true, None, &None, false, at(1))), State::HandlingSessionConflict);
    open(&mut m, 7, "re-login", false);
    assert_eq!(next(m.do_connected(true, None, &None, false, at(1))), State::ReconnectingSession);
}

#[test]
fn liveness_is_checked_actively() {
    let mut m = machine(State::Connected);
    assert_eq!(next(m.do_connected(true, None, &None, false, at(30))), State::Connected);
    assert!(matches!(m.do_connected(true, None, &None, false, at(31)), Stage::List));
    assert_eq!(next(StateMachine::connected_listed(&windows(&["Second Factor"]))), State::WaitingFor2fa);
    assert_eq!(next(StateMachine::connected_listed(&None)), State::Connected);
    assert_eq!(inspects(StateMachine::connected_listed(&windows(&["x", "IB Gateway"]))), vec![2]);
    let label = vec![components(0, &["Purpose", "Status", "API Server", "disconnected", "IBKR GATEWAY"], &[])];
    assert_eq!(next(m.connected_inspected(&label)), State::WaitingForLogin);
    let table = vec![components(0, &[], &[("API Server", "Disconnected")])];
    assert_eq!(next(m.connected_inspected(&table)), State::WaitingForLogin);
    assert_eq!(next(m.connected_inspected(&vec![components(3, &[], &[])])), State::WaitingForLogin);
    let fine = vec![components(0, &["disconnected"], &[("Market data", "disconnected")]), None];
    assert!(matches!(m.connected_inspected(&fine), Stage::DispatchAll));
    assert_eq!(StateMachine::connected_reconciled().next, State::Connected);
}

#[test]
fn sessions_are_recovered_in_steps() {
    let mut m = machine(State::ReconnectingSession);
    m.relogin_attempts = 1;
    assert_eq!(next(m.do_reconnecting_session(&windows(&["Re-login"]), at(29))), State::ReconnectingSession);
    assert!(matches!(
        m.do_reconnecting_session(&windows(&["x", "Re-login"]), at(30)),
        Stage::ClickRelogin(WindowId(2))
    ));
    let o = StateMachine::relogin_clicked();
    assert!(o.next == State::WaitingForLogin && o.pause_ms == 5000 && o.effects.reset_handlers);
    assert_eq!(next(m.do_reconnecting_session(&None, at(30))), State::ReconnectingSession);
    assert!(matches!(m.do_reconnecting_session(&windows(&["x"]), at(30)), Stage::Confirm));
    assert_eq!(inspects(m.reconnect_listed(&windows(&["IB Gateway"]))), vec![1]);
    assert_eq!(next(m.reconnect_listed(&None)), State::ReconnectingSession);
    assert_eq!(next(m.reconnect_listed(&windows(&["Second Factor"]))), State::WaitingFor2fa);
    assert_eq!(m.relogin_attempts, 0);
    m.relogin_attempts = 1;
    assert_eq!(next(m.reconnect_inspected(&vec![None])), State::ReconnectingSession);
    assert_eq!(next(m.reconnect_inspected(&vec![components(0, &[], &[])])), State::Connected);
    assert_eq!(m.relogin_attempts, 0);
    assert_eq!(
        next(m.reconnect_inspected(&vec![components(0, &[], &[]), components(1, &[], &[])])),
        State::WaitingForLogin
    );
}

#[test]
fn recovery_is_given_up() {
    let mut m = machine(State::ReconnectingSession);
    m.relogin_attempts = 4;
    match m.do_reconnecting_session(&windows(&["Re-login", "x", "Login is required"]), at(1)) {
        Stage::Cancel(ids, effects) => {
            assert_eq!(ids, vec![WindowId(1), WindowId(3)]);
            assert!(effects.reset_handlers && effects.abort_client_task && !effects.stop_socat);
        }
        other => panic!("{:?}", other),
    }
    assert_eq!(m.relogin_attempts, 0);
    let o = m.reconnect_cancelled(&windows(&["IBKR Gateway"]));
    assert_eq!((o.next, o.pause_ms), (State::Restarting, 0));
    m.config.timing.relogin_failure_action = ReloginFailureAction::Reauth;
    assert_eq!(m.reconnect_cancelled(&windows(&["IBKR Gateway"])).next, State::WaitingForLogin);
    assert_eq!(m.reconnect_cancelled(&None).next, State::Restarting);
    open(&mut m, 1, "IBKR Gateway", true);
    assert_eq!(m.reconnect_cancelled(&None).next, State::WaitingForLogin);
}

#[test]
fn restarts_are_delayed() {
    let mut m = machine(State::Restarting);
    match m.do_restart(at(0)) {
        Stage::EndJvm(e) => {
            assert!(e.kill_jvm && e.stop_socat && e.abort_client_task);
            assert!(!e.remove_socket && !e.reset_handlers);
        }
        other => panic!("{:?}", other),
    }
    let o = StateMachine::jvm_ended();
    assert!(o.next == State::Launching && o.effects.remove_socket && o.effects.reset_handlers);
    m.config.timing.restart_delay_secs = 10;
    assert_eq!(next(m.do_restart(at(9))), State::Restarting);
    assert!(matches!(m.do_restart(at(10)), Stage::EndJvm(_)));
}

#[test]
fn errors_are_recovered_from() {
    let mut m = machine(State::WaitingForAgent);
    let effects = m.settle(State::Error("boom".into()), at(7));
    assert!(!effects.kill_jvm);
    assert_eq!(m.state, State::Restarting);
    let last = m.transition_history.back().unwrap();
    assert_eq!((last.from.as_str(), last.to.as_str()), ("WaitingForAgent", "Error(boom)"));
    assert_eq!(last.timestamp, "1007");
    assert_eq!(m.state_entered_at, 7 * SEC);
}

#[test]
fn transitions_reset_their_trackers() {
    let mut m = machine(State::Launching);
    m.twofa_device_selected = true;
    m.twofa_seen = true;
    m.consecutive_agent_failures = 4;
    open(&mut m, 1, "IBKR Gateway", true);
    m.settle(State::WaitingFor2fa, at(1));
    assert!(!m.twofa_device_selected && !m.twofa_seen && m.consecutive_agent_failures == 0);
    assert!(!m.observation.has_login_form());
    m.settle(State::ReconnectingSession, at(2));
    assert_eq!(m.relogin_attempts, 1);
    m.settle(State::Connected, at(3));
    assert_eq!((m.relogin_attempts, m.connected_since), (0, Some(3 * SEC)));
    m.settle(State::Restarting, at(4));
    assert!(m.connected_since.is_none() && m.observation.windows.is_empty() && !m.observation.synced);
    let effects = m.settle(State::Shutdown, at(5));
    assert!(effects.kill_jvm && effects.remove_socket && effects.stop_socat && effects.abort_client_task);
}

#[test]
fn the_history_keeps_a_hundred() {
    let mut m = machine(State::Init);
    for i in 0..150 {
        m.settle(if i % 2 == 0 { State::Launching } else { State::Init }, at(i));
    }
    assert_eq!(m.transition_history.len(), 100);
    assert_eq!(m.transition_history[0].timestamp, "1050");
    assert_eq!(m.transition_history[99].timestamp, "1149");
    m.settle(State::Init, at(200));
    assert_eq!(m.transition_history[99].timestamp, "1149");
}

#[test]
fn pausing_and_ceilings() {
    let mut m = machine(State::Init);
    m.dispatch_command(&Command::PauseAt("Launching".into()), at(0));
    assert!(!m.pause.paused);
    m.settle(State::Launching, at(1));
    assert!(m.pause.paused && m.pause.ceiling_state.is_none());
    assert_eq!(m.do_paused().next, State::Launching);
    m.dispatch_command(&Command::Resume, at(2));
    assert!(!m.pause.paused);
    m.dispatch_command(&Command::PauseAt("Launching".into()), at(3));
    assert!(m.pause.paused);
    m.dispatch_command(&Command::Resume, at(3));
    m.dispatch_command(&Command::PauseAt("Nowhere".into()), at(3));
    assert!(!m.pause.paused && m.pause.ceiling_state.is_none());
    m.dispatch_command(&Command::Pause, at(4));
    assert!(m.pause.paused);
}

#[test]
fn commands() {
    let mut m = machine(State::Connected);
    let (effects, action) = m.dispatch_command(&Command::Stop, at(1));
    assert!(effects.kill_jvm && effects.stop_socat && effects.reset_handlers && effects.remove_socket);
    assert_eq!((m.state.clone(), action), (State::WaitingForLaunch, CommandAction::Nothing));
    let (effects, _) = m.dispatch_command(&Command::Stop, at(2));
    assert!(!effects.kill_jvm);
    m.dispatch_command(&Command::Restart, at(3));
    assert_eq!(m.state, State::Restarting);
    assert_eq!(m.dispatch_command(&Command::RestartSocat, at(3)).1, CommandAction::RestartSocat);
    assert_eq!(m.dispatch_command(&Command::ReconnectData, at(3)).1, CommandAction::SendKey("ctrl+f".into()));
    assert_eq!(m.dispatch_command(&Command::ReconnectAccount, at(3)).1, CommandAction::SendKey("ctrl+r".into()));
    assert_eq!(m.dispatch_command(&Command::EnableApi, at(3)).1, CommandAction::Nothing);
    assert_eq!(
        m.dispatch_command(&Command::SetRestartTime("09:00".into()), at(3)).1,
        CommandAction::SetRestartTime("09:00".into())
    );
    m.dispatch_command(&Command::SetState("Connected".into()), at(4));
    assert_eq!(m.state, State::Connected);
    m.dispatch_command(&Command::SetState("connected?".into()), at(4));
    assert_eq!(m.state, State::Connected);
    m.dispatch_command(&Command::Exit, at(5));
    assert_eq!(m.state, State::Shutdown);
    let mut m = machine(State::Connected);
    assert!(m.handle_signal(Signal::Terminate, at(1)).abort_client_task);
    assert_eq!(m.state, State::Shutdown);
}

#[test]
fn the_ib_system_is_waited_for() {
    let mut m = machine(State::WaitingForLogin);
    m.dispatch_command(&Command::IbStatus("maintenance".into(), "weekend reset".into()), at(1));
    assert!(!m.ib_status.available);
    assert_eq!(m.ib_status.reason, "weekend reset");
    m.before_step(at(2));
    assert_eq!(m.state, State::WaitingForIB);
    assert_eq!(m.do_waiting_for_ib().next, State::WaitingForIB);
    m.before_step(at(601));
    assert!(!m.ib_status.available);
    m.before_step(at(602));
    assert!(m.ib_status.available);
    assert_eq!(m.ib_status.status, "available");
    assert_eq!(m.do_waiting_for_ib().next, State::WaitingForLogin);
    assert_eq!(m.do_waiting_for_ib().next, State::Init);
}

#[test]
fn connected_sessions_are_not_kicked() {
    let down = Command::IbStatus("unavailable".into(), "".into());
    let mut m = machine(State::Connected);
    m.dispatch_command(&down, at(1));
    m.before_step(at(2));
    assert_eq!(m.state, State::Connected);
    m.config.ib_status.kick_active_session = true;
    m.before_step(at(3));
    assert_eq!(m.state, State::WaitingForIB);
    m.before_step(at(602));
    assert_eq!(m.do_waiting_for_ib().next, State::WaitingForApiReady);
    let mut m = machine(State::WaitingForLaunch);
    m.dispatch_command(&down, at(1));
    m.before_step(at(2));
    assert_eq!(m.state, State::WaitingForLaunch);
}

#[test]
fn cold_restarts() {
    let mut m = machine(State::Connected);
    assert!(m.handle_cold_restart(at(1)).abort_client_task);
    assert_eq!(m.state, State::Restarting);
    m.settle(State::WaitingForHitl2fa, at(2));
    m.handle_cold_restart(at(3));
    assert_eq!(m.state, State::Restarting);
    m.settle(State::WaitingForHitl2fa, at(4));
    m.config.twofa.backoff.cold_restart_preempts_hitl = false;
    assert!(!m.handle_cold_restart(at(5)).abort_client_task);
    m.before_step(at(6));
    assert_eq!(m.state, State::WaitingForHitl2fa);
    m.dispatch_command(&Command::SetState("WaitingForLogin".into()), at(7));
    assert!(m.before_step(at(8)).abort_client_task);
    assert_eq!(m.state, State::Restarting);
}

#[test]
fn events_keep_the_cache() {
    let mut m = machine(State::Connected);
    snapshot(&mut m, &[(1, "IBKR Gateway", false), (2, "Tip", false)]);
    assert!(m.observation.synced);
    open(&mut m, 2, "Existing Session", false);
    assert_eq!(m.observation.windows.len(), 2);
    assert!(m.observation.has_session_conflict());
    m.handle_agent_event(&AgentEvent::WindowClosed { seq: 9, window_id: WindowId(2) }, 5);
    assert!(!m.observation.has_session_conflict());
    assert_eq!((m.observation.last_seq, m.observation.last_updated), (9, 5));
    m.handle_agent_event(&AgentEvent::Keepalive, 6);
    assert_eq!(m.observation.last_updated, 5);
    m.handle_agent_event(&AgentEvent::Overflow, 7);
    assert!(!m.observation.synced);
    assert_eq!(m.state, State::Connected);
    assert!(m.action_in_progress() == false);
}

fn report(m: &mut StateMachine, socat: bool, now: u64) -> ibctl::state_machine::queries::QuerySnapshot {
    let jvm = JvmInfo {
        pid: Some(348),
        alive: true,
        uptime_secs: Some(5),
        config_dir: "/d".into(),
        agent_socket: "/s".into(),
    };
    m.publish_snapshot(jvm, SocatInfo { running: socat, pid: None }, at(now))
}

#[test]
fn reports() {
    let mut m = machine(State::ConfiguringApi);
    m.settle(State::Connected, at(100));
    m.sync_client_ids(vec!["A".into(), "B".into()]);
    m.sync_client_ids(vec![]);
    let r = report(&mut m, true, 3600);
    assert!(r.status.ready && r.status.advisory.should_connect);
    assert_eq!((r.status.state.as_str(), r.status.trading_mode.as_str()), ("Connected", "live"));
    assert_eq!((r.status.uptime_secs, r.status.connected_uptime_secs), (3600, Some(3500)));
    assert_eq!(r.status.client_ids, vec!["A", "B"]);
    assert_eq!(r.status.jvm.pid, Some(348));
    assert!(r.status.hitl.is_none() && r.status.ib_system.reason.is_none());
    assert_eq!((r.version, m.snapshot_version), (1, 1));
    assert_eq!((r.state.current.as_str(), r.state.history.len()), ("Connected", 1));
    assert_eq!(r.state.history[0].from, "ConfiguringApi");
    let r = report(&mut m, false, 3600);
    assert!(!r.status.ready && !r.status.advisory.should_connect && !r.status.advisory.should_wait);
    assert_eq!(m.forwarded_ports(), (4001, 4003));
    m.config.auth.trading_mode = "paper".into();
    assert_eq!(m.forwarded_ports(), (4002, 4004));
}

#[test]
fn the_configuration_report_hides_the_password() {
    let mut m = machine(State::Init);
    m.config.auth.username = "u".into();
    m.config.auth.password = "SECRET-REDACTED".into();
    let r = report(&mut m, false, 1).config;
    assert_eq!((r.username.as_str(), r.password.as_str()), ("u", "********"));
    assert!(!format!("{:?}", r).contains("SECRET-REDACTED"));
}

#[test]
fn the_ib_and_hitl_reports() {
    let mut m = machine(State::Restarting);
    m.dispatch_command(&Command::IbStatus("down".into(), "why".into()), at(10));
    m.hitl.consecutive_timeouts = 3;
    m.settle(State::WaitingForHitl2fa, at(20));
    let r = report(&mut m, false, 452).status;
    assert_eq!(r.ib_system.expires_in_secs, Some(158));
    assert_eq!(r.ib_system.reason.as_deref(), Some("why"));
    let h = r.hitl.unwrap();
    assert_eq!((h.entered_at_secs_ago, h.next_retry_in_secs), (432, Some(3168)));
    assert_eq!((h.consecutive_2fa_timeouts, h.intervals_index), (3, 0));
    assert_eq!(r.advisory.wait_reason.as_deref(), Some("awaiting_operator"));
    assert_eq!(report(&mut m, false, 700).status.ib_system.expires_in_secs, Some(0));
}
