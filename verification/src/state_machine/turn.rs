//! A turn of the main loop: a step ran to its end, or something interrupted it.

use crate::agent_events::{after_event, AgentEvent};
use crate::clock::Moment;
use crate::state_machine::machine::{
    cold_restarted, command_action, command_effects, commanded, defers_cold_restart, forced, settled, shutdown_effects,
    ActionModel, CommandAction, Model, StateMachine,
};
use crate::state_machine::outcome::{no_effects, Effects};
use crate::state_machine::types::{Phase, State};
use crate::types::{Command, Signal};
use vstd::prelude::*;

verus! {

/// What can interrupt a step, from the most urgent to the least.
#[derive(Debug)]
pub enum Interrupt {
    Signal(Signal),
    ColdRestart,
    Command(Command),
    AgentEvent(AgentEvent),
}

/// How a turn ended.
#[derive(Debug)]
pub enum Turn {
    Interrupted(Interrupt),
    /// The step gave this state.
    Transitioned(State),
}

/// What the driver does at the end of a turn.
#[derive(Debug)]
pub struct TurnResult {
    pub effects: Effects,
    pub action: CommandAction,
    /// The machine has ended.
    pub finished: bool,
}

/// The machine after an interrupt.
pub open spec fn interrupted(m: Model, i: Interrupt, now: Moment) -> Model {
    match i {
        Interrupt::Signal(_) => forced(m, Phase::Shutdown, false, now),
        Interrupt::ColdRestart => cold_restarted(m, now),
        Interrupt::Command(c) => commanded(m, c, now),
        Interrupt::AgentEvent(e) => Model {
            observation: after_event(m.observation, e, now.nanos),
            ..m
        },
    }
}

/// The effects of an interrupt, before a shutdown is seen to.
pub open spec fn interrupt_effects(m: Model, i: Interrupt) -> Effects {
    match i {
        Interrupt::Signal(_) => Effects { abort_client_task: true, ..no_effects() },
        Interrupt::ColdRestart => Effects {
            abort_client_task: !defers_cold_restart(m),
            ..no_effects()
        },
        Interrupt::Command(c) => command_effects(m, c),
        Interrupt::AgentEvent(_) => no_effects(),
    }
}

/// The machine after a turn.
pub open spec fn turned(m: Model, t: Turn, now: Moment) -> Model {
    match t {
        Turn::Interrupted(i) => interrupted(m, i, now),
        Turn::Transitioned(s) => settled(m, s@, now),
    }
}

/// What the driver is asked for at the end of a turn. A machine that an interrupt brought to
/// its end shuts down, besides what the interrupt asks for; one whose step led there shuts down
/// and stops the client id task.
pub open spec fn turn_effects(m: Model, t: Turn, now: Moment) -> Effects {
    match t {
        Turn::Interrupted(i) => if interrupted(m, i, now).state is Shutdown {
            Effects {
                stop_socat: true,
                kill_jvm: true,
                remove_socket: true,
                ..interrupt_effects(m, i)
            }
        } else {
            interrupt_effects(m, i)
        },
        Turn::Transitioned(s) => if s@ is Shutdown && !(m.state is Shutdown) {
            shutdown_effects()
        } else {
            no_effects()
        },
    }
}

/// The steps of the machine, one for each state, and the rest of a paused one.
#[derive(Debug, Clone, Copy, PartialEq, Eq, Structural)]
pub enum StepKind {
    Paused,
    StandBy,
    Init,
    Launch,
    WaitForAgent,
    WaitForLogin,
    Authenticate,
    WaitFor2fa,
    HandleSessionConflict,
    DismissPopups,
    WaitForApiReady,
    ConfigureApi,
    WatchSession,
    ReconnectSession,
    Restart,
    WaitForIB,
    WaitForHitl,
    /// The machine has ended, or failed: it stays as it is.
    Stay,
}

/// The step that belongs to a phase.
pub open spec fn step_of(p: Phase) -> StepKind {
    match p {
        Phase::WaitingForLaunch => StepKind::StandBy,
        Phase::Init => StepKind::Init,
        Phase::Launching => StepKind::Launch,
        Phase::WaitingForAgent => StepKind::WaitForAgent,
        Phase::WaitingForLogin => StepKind::WaitForLogin,
        Phase::Authenticating => StepKind::Authenticate,
        Phase::WaitingFor2fa => StepKind::WaitFor2fa,
        Phase::HandlingSessionConflict => StepKind::HandleSessionConflict,
        Phase::DismissingPopups => StepKind::DismissPopups,
        Phase::WaitingForApiReady => StepKind::WaitForApiReady,
        Phase::ConfiguringApi => StepKind::ConfigureApi,
        Phase::Connected => StepKind::WatchSession,
        Phase::ReconnectingSession => StepKind::ReconnectSession,
        Phase::Restarting => StepKind::Restart,
        Phase::WaitingForIB => StepKind::WaitForIB,
        Phase::WaitingForHitl2fa => StepKind::WaitForHitl,
        Phase::Shutdown | Phase::Error(_) => StepKind::Stay,
    }
}

impl StateMachine {
    /// The step to take: that of the present state, and none while the machine is paused.
    pub fn next_step(&self) -> (r: StepKind)
        ensures
            r == if self@.paused {
                StepKind::Paused
            } else {
                step_of(self@.state)
            },
    {
        if self.pause.paused {
            return StepKind::Paused;
        }
        match &self.state {
            State::WaitingForLaunch => StepKind::StandBy,
            State::Init => StepKind::Init,
            State::Launching => StepKind::Launch,
            State::WaitingForAgent => StepKind::WaitForAgent,
            State::WaitingForLogin => StepKind::WaitForLogin,
            State::Authenticating => StepKind::Authenticate,
            State::WaitingFor2fa => StepKind::WaitFor2fa,
            State::HandlingSessionConflict => StepKind::HandleSessionConflict,
            State::DismissingPopups => StepKind::DismissPopups,
            State::WaitingForApiReady => StepKind::WaitForApiReady,
            State::ConfiguringApi => StepKind::ConfigureApi,
            State::Connected => StepKind::WatchSession,
            State::ReconnectingSession => StepKind::ReconnectSession,
            State::Restarting => StepKind::Restart,
            State::WaitingForIB => StepKind::WaitForIB,
            State::WaitingForHitl2fa => StepKind::WaitForHitl,
            State::Shutdown | State::Error(_) => StepKind::Stay,
        }
    }

    /// Carries out an interrupt.
    pub fn handle_interrupt(&mut self, interrupt: &Interrupt, now: Moment) -> (r: (
        Effects,
        CommandAction,
    ))
        requires
            old(self).well_formed(),
        ensures
            final(self).well_formed(),
            final(self)@ == interrupted(old(self)@, *interrupt, now),
            r.0 == interrupt_effects(old(self)@, *interrupt),
            r.1@ == match *interrupt {
                Interrupt::Command(c) => command_action(c),
                _ => ActionModel::Nothing,
            },
    {
        match interrupt {
            Interrupt::Signal(s) => (self.handle_signal(*s, now), CommandAction::Nothing),
            Interrupt::ColdRestart => (self.handle_cold_restart(now), CommandAction::Nothing),
            Interrupt::Command(c) => self.dispatch_command(c, now),
            Interrupt::AgentEvent(e) => {
                self.handle_agent_event(e, now.nanos);
                (Effects::none(), CommandAction::Nothing)
            },
        }
    }

    /// Ends a turn of the main loop.
    pub fn end_turn(&mut self, turn: Turn, now: Moment) -> (r: TurnResult)
        requires
            old(self).well_formed(),
        ensures
            final(self).well_formed(),
            final(self)@ == turned(old(self)@, turn, now),
            r.effects == turn_effects(old(self)@, turn, now),
            r.action@ == match turn {
                Turn::Interrupted(Interrupt::Command(c)) => command_action(c),
                _ => ActionModel::Nothing,
            },
            r.finished == (final(self)@.state is Shutdown),
    {
        match turn {
            Turn::Interrupted(i) => {
                let (effects, action): (Effects, CommandAction) = self.handle_interrupt(&i, now);
                if matches!(self.state, State::Shutdown) {
                    let all = Effects {
                        abort_client_task: effects.abort_client_task,
                        stop_socat: true,
                        reset_handlers: effects.reset_handlers,
                        kill_jvm: true,
                        remove_socket: true,
                    };
                    TurnResult { effects: all, action, finished: true }
                } else {
                    TurnResult { effects, action, finished: false }
                }
            },
            Turn::Transitioned(next) => {
                let effects = self.settle(next, now);
                let finished: bool = matches!(self.state, State::Shutdown);
                TurnResult { effects, action: CommandAction::Nothing, finished }
            },
        }
    }
}

/// A signal ends the machine whatever it was doing, and the JVM with it.
pub proof fn signals_end_the_machine(m: Model, s: Signal, now: Moment)
    ensures
        turned(m, Turn::Interrupted(Interrupt::Signal(s)), now).state is Shutdown,
        turn_effects(m, Turn::Interrupted(Interrupt::Signal(s)), now) == shutdown_effects(),
{
}

/// Events of the agent change what is known of the windows and nothing else.
pub proof fn events_leave_the_state(m: Model, e: AgentEvent, now: Moment)
    ensures
        turned(m, Turn::Interrupted(Interrupt::AgentEvent(e)), now) == (Model {
            observation: after_event(m.observation, e, now.nanos),
            ..m
        }),
{
}

} // verus!
