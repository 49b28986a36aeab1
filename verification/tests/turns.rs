use ibctl::agent_events::AgentEvent;
use ibctl::clock::Moment;
use ibctl::config::Config;
use ibctl::state_machine::machine::{CommandAction, StateMachine};
use ibctl::state_machine::turn::{Interrupt, StepKind, Turn};
use ibctl::state_machine::types::State;
use ibctl::types::{Command, Signal};

fn at(secs: u64) -> Moment {
    Moment { nanos: secs as u128 * 1_000_000_000, epoch_secs: secs }
}

fn machine(state: State) -> StateMachine {
    let mut m = StateMachine::new(Config::default(), false, at(0));
    m.state = state;
    m
}

#[test]
fn signals_end_the_machine() {
    for signal in [Signal::Terminate, Signal::Interrupt] {
        let mut m = machine(State::Authenticating);
        let r = m.end_turn(Turn::Interrupted(Interrupt::Signal(signal)), at(1));
        assert!(r.finished && r.effects.kill_jvm && r.effects.remove_socket && r.effects.stop_socat);
        assert_eq!(m.state, State::Shutdown);
    }
}

#[test]
fn the_exit_command_shuts_down() {
    let mut m = machine(State::Connected);
    let r = m.end_turn(Turn::Interrupted(Interrupt::Command(Command::Exit)), at(1));
    assert!(r.finished && r.effects.kill_jvm);
    assert_eq!(r.action, CommandAction::Nothing);
}

#[test]
fn steps_that_stay_change_nothing() {
    let mut m = machine(State::Connected);
    let r = m.end_turn(Turn::Transitioned(State::Connected), at(5));
    assert!(!r.finished && !r.effects.kill_jvm);
    assert_eq!(m.state_entered_at, 0);
    assert!(m.transition_history.is_empty());
}

#[test]
fn steps_lead_on() {
    let mut m = machine(State::WaitingFor2fa);
    let r = m.end_turn(Turn::Transitioned(State::Shutdown), at(5));
    assert!(r.finished && r.effects.kill_jvm);
    let mut m = machine(State::WaitingFor2fa);
    let r = m.end_turn(Turn::Transitioned(State::Error("x".into())), at(5));
    assert!(!r.finished);
    assert_eq!(m.state, State::Restarting);
}

#[test]
fn interrupts_reach_the_machine() {
    let mut m = machine(State::Connected);
    let r = m.end_turn(Turn::Interrupted(Interrupt::ColdRestart), at(1));
    assert!(r.effects.abort_client_task && !r.finished);
    assert_eq!(m.state, State::Restarting);
    let r = m.end_turn(Turn::Interrupted(Interrupt::Command(Command::ReconnectData)), at(2));
    assert_eq!(r.action, CommandAction::SendKey("ctrl+f".into()));
    let event = AgentEvent::Snapshot { seq: 3, windows: vec![] };
    m.end_turn(Turn::Interrupted(Interrupt::AgentEvent(event)), at(3));
    assert!(m.observation.synced && m.observation.last_seq == 3);
    assert_eq!(m.state, State::Restarting);
}

#[test]
fn every_state_has_its_step() {
    let mut m = machine(State::Connected);
    assert_eq!(m.next_step(), StepKind::WatchSession);
    m.state = State::WaitingForHitl2fa;
    assert_eq!(m.next_step(), StepKind::WaitForHitl);
    m.state = State::Error("x".into());
    assert_eq!(m.next_step(), StepKind::Stay);
    m.pause.paused = true;
    assert_eq!(m.next_step(), StepKind::Paused);
}

#[test]
fn a_forced_shutdown_leaves_the_client_task() {
    let mut m = machine(State::Connected);
    let command = Command::SetState("Shutdown".into());
    let r = m.end_turn(Turn::Interrupted(Interrupt::Command(command)), at(1));
    assert!(r.finished && r.effects.kill_jvm && r.effects.stop_socat && r.effects.remove_socket);
    assert!(!r.effects.abort_client_task);
}
