//! What a step of the machine asks its driver to do.

use crate::state_machine::types::{Phase, State};
use crate::types::WindowId;
use vstd::prelude::*;

verus! {

/// Side effects that the driver carries out before it pauses.
#[derive(Debug, Clone, Copy, PartialEq, Eq, Structural)]
pub struct Effects {
    /// Stop the background task that refreshes the client ids.
    pub abort_client_task: bool,
    /// Stop the port forwarder.
    pub stop_socat: bool,
    /// Forget what the dialog handlers have done.
    pub reset_handlers: bool,
    /// End the JVM where it runs.
    pub kill_jvm: bool,
    /// Remove the agent's socket file.
    pub remove_socket: bool,
}

/// No side effects.
pub open spec fn no_effects() -> Effects {
    Effects {
        abort_client_task: false,
        stop_socat: false,
        reset_handlers: false,
        kill_jvm: false,
        remove_socket: false,
    }
}

impl Effects {
    /// No side effects.
    pub fn none() -> (r: Effects)
        ensures
            r == no_effects(),
    {
        Effects {
            abort_client_task: false,
            stop_socat: false,
            reset_handlers: false,
            kill_jvm: false,
            remove_socket: false,
        }
    }
}

/// The result of a step: side effects, then a pause, then the state to be in.
#[derive(Debug)]
pub struct Outcome {
    pub effects: Effects,
    pub pause_ms: u64,
    pub next: State,
}

/// The result of a step as a mathematical value.
pub struct Plan {
    pub effects: Effects,
    pub pause_ms: u64,
    pub next: Phase,
}

impl View for Outcome {
    type V = Plan;

    open spec fn view(&self) -> Plan {
        Plan { effects: self.effects, pause_ms: self.pause_ms, next: self.next@ }
    }
}

/// To a phase, at once and without side effects.
pub open spec fn going(next: Phase) -> Plan {
    Plan { effects: no_effects(), pause_ms: 0, next }
}

/// To a phase after a pause, without side effects.
pub open spec fn pausing(ms: u64, next: Phase) -> Plan {
    Plan { effects: no_effects(), pause_ms: ms, next }
}

impl Outcome {
    /// To a state, at once and without side effects.
    pub fn go(next: State) -> (r: Outcome)
        ensures
            r@ == going(next@),
    {
        Outcome { effects: Effects::none(), pause_ms: 0, next }
    }

    /// To a state after a pause, without side effects.
    pub fn pause(ms: u64, next: State) -> (r: Outcome)
        ensures
            r@ == pausing(ms, next@),
    {
        Outcome { effects: Effects::none(), pause_ms: ms, next }
    }

    /// To a state, with side effects.
    pub fn with(effects: Effects, next: State) -> (r: Outcome)
        ensures
            r@ == (Plan { effects, pause_ms: 0, next: next@ }),
    {
        Outcome { effects, pause_ms: 0, next }
    }
}

/// What the dialog handlers made of a window.
#[derive(Debug, Clone, Copy, PartialEq, Eq, Structural)]
pub enum HandlerReply {
    Handled,
    /// A handler reported an error.
    Error,
    /// A handler did not recognise the window.
    NotApplicable,
    /// The exchange with the agent failed.
    Failed,
    /// No handler matched.
    Unmatched,
}

/// A step comes to its result, or asks its driver for something first.
#[derive(Debug)]
pub enum Stage {
    Done(Outcome),
    /// List the windows.
    List,
    /// List the components of these windows.
    Inspect(Vec<WindowId>),
    /// Let the handlers act on this window.
    Dispatch(WindowId),
    /// Let the handlers act on all windows.
    DispatchAll,
    /// Pick the configured 2FA device in this window, and click OK where that succeeds.
    SelectDevice(WindowId),
    /// Send a notification to the operator.
    Notify,
    /// Apply the API configuration.
    Configure,
    /// Click Cancel in these windows, carry out the effects, wait three seconds, and list the
    /// windows again.
    Cancel(Vec<WindowId>, Effects),
    /// Carry out the effects, wait three seconds, and kill the JVM where it still runs.
    EndJvm(Effects),
    /// Wait three seconds, and list the windows again.
    Confirm,
    /// Click Re-login in this window.
    ClickRelogin(WindowId),
}

/// A stage as a mathematical value.
pub enum StageModel {
    Done(Plan),
    List,
    Inspect(Seq<WindowId>),
    Dispatch(WindowId),
    DispatchAll,
    SelectDevice(WindowId),
    Notify,
    Configure,
    Cancel(Seq<WindowId>, Effects),
    EndJvm(Effects),
    Confirm,
    ClickRelogin(WindowId),
}

impl View for Stage {
    type V = StageModel;

    open spec fn view(&self) -> StageModel {
        match self {
            Stage::Done(o) => StageModel::Done(o@),
            Stage::List => StageModel::List,
            Stage::Inspect(w) => StageModel::Inspect(w@),
            Stage::Dispatch(w) => StageModel::Dispatch(*w),
            Stage::DispatchAll => StageModel::DispatchAll,
            Stage::SelectDevice(w) => StageModel::SelectDevice(*w),
            Stage::Notify => StageModel::Notify,
            Stage::Configure => StageModel::Configure,
            Stage::Cancel(w, e) => StageModel::Cancel(w@, *e),
            Stage::EndJvm(e) => StageModel::EndJvm(*e),
            Stage::Confirm => StageModel::Confirm,
            Stage::ClickRelogin(w) => StageModel::ClickRelogin(*w),
        }
    }
}

impl StageModel {
    /// The phase that the step leads to at once, where it has come to its result.
    pub open spec fn leads_to(self, p: Phase) -> bool {
        self matches StageModel::Done(plan) && plan.next == p
    }
}

} // verus!
