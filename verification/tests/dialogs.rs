use ibctl::agent_client::{Bounds, WindowInfo};
use ibctl::handlers::accept_connection::AcceptConnectionHandler;
use ibctl::handlers::gateway_notification::GatewayNotificationHandler;
use ibctl::handlers::ssl_reconnect::SslReconnectHandler;
use ibctl::handlers::step::{reply_of, HandlerResult, HandlerStep, Reply};
use ibctl::handlers::tip_of_day::TipOfDayHandler;
use ibctl::handlers::version_notice::VersionNoticeHandler;
use ibctl::state_machine::machine::StateMachine;
use ibctl::state_machine::outcome::HandlerReply;
use ibctl::state_machine::types::State;
use ibctl::types::WindowId;

fn window(title: &str, bounds: Option<Bounds>) -> WindowInfo {
    WindowInfo { id: WindowId(1), title: title.into(), class: "c".into(), bounds, visible: true }
}

fn clicks(step: &HandlerStep, label: &str) -> bool {
    matches!(step, HandlerStep::Click(l) if l == label)
}

#[test]
fn test_relogin_dialog_detected() {
    assert_eq!(
        StateMachine::classify_blocking_dialog("RE-LOGIN IS REQUIRED"),
        Some(State::ReconnectingSession),
    );
}

#[test]
fn test_relogin_dialog_lowercase() {
    assert_eq!(
        StateMachine::classify_blocking_dialog("re-login is required"),
        Some(State::ReconnectingSession),
    );
}

#[test]
fn test_login_is_required_variant() {
    assert_eq!(
        StateMachine::classify_blocking_dialog("Login is required"),
        Some(State::ReconnectingSession),
    );
}

#[test]
fn test_2fa_dialog_detected() {
    assert_eq!(
        StateMachine::classify_blocking_dialog("Second Factor Authentication"),
        Some(State::WaitingFor2fa),
    );
}

#[test]
fn test_authentication_dialog() {
    assert_eq!(
        StateMachine::classify_blocking_dialog("IB Key Authentication"),
        Some(State::WaitingFor2fa),
    );
}

#[test]
fn test_authenticating_splash_not_blocking() {
    assert_eq!(StateMachine::classify_blocking_dialog("Attempt 2: Authenticating..."), None);
    assert_eq!(StateMachine::classify_blocking_dialog("Attempt 1: Authenticating..."), None);
}

#[test]
fn test_normal_window_not_blocking() {
    assert_eq!(StateMachine::classify_blocking_dialog("IBKR Gateway"), None);
}

#[test]
fn test_config_dialog_not_blocking() {
    assert_eq!(StateMachine::classify_blocking_dialog("Trader Workstation Configuration"), None);
}

#[test]
fn test_paper_warning_not_blocking() {
    assert_eq!(StateMachine::classify_blocking_dialog("Warning"), None);
}

#[test]
fn accept_handler_follows_its_setting() {
    let accept = AcceptConnectionHandler::new("accept".into());
    assert_eq!(accept.name(), "AcceptConnectionHandler");
    assert!(accept.can_handle(&window("Accept Incoming Connection?", None)));
    assert!(accept.can_handle(&window("API connection", None)));
    assert!(!accept.can_handle(&window("IBKR Gateway", None)));
    assert!(clicks(&accept.handle(&vec![]), "Accept"));
    assert!(matches!(accept.handle(&vec![Reply::Refused]), HandlerStep::Finish(HandlerResult::Handled)));
    assert!(matches!(accept.handle(&vec![Reply::Failed]), HandlerStep::Fail));
    assert!(clicks(&AcceptConnectionHandler::new("reject".into()).handle(&vec![]), "Reject"));
    let manual = AcceptConnectionHandler::new("manual".into());
    assert!(matches!(manual.handle(&vec![]), HandlerStep::Finish(HandlerResult::NotApplicable)));
    assert!(clicks(&AcceptConnectionHandler::new("other".into()).handle(&vec![]), "Accept"));
}

#[test]
fn notification_handler_spares_the_main_window() {
    let h = GatewayNotificationHandler;
    let small = Bounds { x: 0, y: 0, width: 400, height: 200 };
    let large = Bounds { x: 0, y: 0, width: 700, height: 550 };
    assert!(h.can_handle(&window("IBKR Gateway", Some(small))));
    assert!(!h.can_handle(&window("IBKR Gateway", Some(large))));
    assert!(!h.can_handle(&window("IBKR Gateway", None)));
    assert!(!h.can_handle(&window("Other", Some(Bounds::default()))));
    assert!(clicks(&h.handle(&vec![]), "Close"));
    assert!(clicks(&h.handle(&vec![Reply::Refused]), "OK"));
    assert!(matches!(h.handle(&vec![Reply::Done]), HandlerStep::Finish(HandlerResult::Handled)));
    assert!(matches!(
        h.handle(&vec![Reply::Failed, Reply::Refused]),
        HandlerStep::Finish(HandlerResult::NotApplicable)
    ));
    assert_eq!(h.name(), "GatewayNotificationHandler");
}

#[test]
fn ssl_handler_never_exits() {
    let h = SslReconnectHandler;
    assert!(h.can_handle(&window("USE SSL ENCRYPTION", None)));
    assert!(!h.can_handle(&window("Warning", None)));
    assert!(clicks(&h.handle(&vec![]), "Reconnect using SSL"));
    assert!(clicks(&h.handle(&vec![Reply::Failed]), "OK"));
    match h.handle(&vec![Reply::Failed, Reply::Failed]) {
        HandlerStep::Finish(HandlerResult::Error(m)) => assert_eq!(m, "no matching button"),
        other => panic!("{:?}", other),
    }
    assert_eq!(h.name(), "SslReconnectHandler");
}

#[test]
fn tip_handler_falls_back_to_ok() {
    let h = TipOfDayHandler;
    assert!(h.can_handle(&window("Tip of the Day", None)));
    assert!(h.can_handle(&window("Daily TIPS", None)));
    assert!(!h.can_handle(&window("Version", None)));
    assert!(clicks(&h.handle(&vec![]), "Close"));
    assert!(matches!(h.handle(&vec![Reply::Refused]), HandlerStep::Finish(HandlerResult::Handled)));
    assert!(clicks(&h.handle(&vec![Reply::Failed]), "OK"));
    assert!(matches!(h.handle(&vec![Reply::Failed, Reply::Failed]), HandlerStep::Fail));
    assert_eq!(h.name(), "TipOfDayHandler");
}

#[test]
fn version_handler_goes_through_its_buttons() {
    let h = VersionNoticeHandler;
    assert!(h.can_handle(&window("A Newer Version is here", None)));
    assert!(h.can_handle(&window("Update available", None)));
    assert!(h.can_handle(&window("Upgrade to version 11", None)));
    assert!(!h.can_handle(&window("Version", None)));
    assert!(!h.can_handle(&window("New", None)));
    assert!(clicks(&h.handle(&vec![]), "OK"));
    assert!(clicks(&h.handle(&vec![Reply::Failed]), "Close"));
    assert!(clicks(&h.handle(&vec![Reply::Failed, Reply::Failed]), "Dismiss"));
    let three = vec![Reply::Failed, Reply::Failed, Reply::Failed];
    assert!(matches!(h.handle(&three), HandlerStep::Key(k) if k == "Escape"));
    let four = vec![Reply::Failed, Reply::Failed, Reply::Failed, Reply::Failed];
    assert!(matches!(h.handle(&four), HandlerStep::Fail));
    assert_eq!(h.name(), "VersionNoticeHandler");
}

#[test]
fn handler_steps_become_replies() {
    assert_eq!(reply_of(&HandlerStep::Fail), Some(HandlerReply::Failed));
    assert_eq!(reply_of(&HandlerStep::Click("x".into())), None);
    assert_eq!(reply_of(&HandlerStep::Finish(HandlerResult::Handled)), Some(HandlerReply::Handled));
    assert_eq!(reply_of(&HandlerStep::Finish(HandlerResult::Error("e".into()))), Some(HandlerReply::Error));
    assert_eq!(
        reply_of(&HandlerStep::Finish(HandlerResult::NotApplicable)),
        Some(HandlerReply::NotApplicable)
    );
}
