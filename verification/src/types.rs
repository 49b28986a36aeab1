//! Domain values shared by the modules.

use crate::text::{decimal, decimal_text};
use vstd::prelude::*;

verus! {

/// A window identifier given out by the agent inside the Gateway.
#[derive(Debug, Clone, Copy, PartialEq, Eq, Structural)]
pub struct WindowId(pub u64);

impl WindowId {
    /// The identifier in decimal, as it stands in request paths.
    pub fn to_text(&self) -> (r: String)
        ensures
            r@ == decimal(self.0 as nat),
    {
        decimal_text(self.0)
    }
}

/// A one-time TOTP code. It cannot be cloned, so it is used once.
pub struct TotpCode(String);

impl TotpCode {
    /// The characters of the code.
    pub closed spec fn view(&self) -> Seq<char> {
        self.0@
    }

    pub fn new(code: String) -> (r: Self)
        ensures
            r.view() == code@,
    {
        Self(code)
    }

    /// Consumes the code and returns the text inside.
    pub fn into_inner(self) -> (r: String)
        ensures
            r@ == self.view(),
    {
        self.0
    }
}

/// A command to the state machine.
#[derive(Debug, PartialEq, Eq)]
pub enum Command {
    /// End the JVM and stand by.
    Stop,
    /// Restart the JVM.
    Restart,
    ReconnectData,
    ReconnectAccount,
    EnableApi,
    /// End the process.
    Exit,
    /// Launch from standby.
    Start,
    /// Freeze the transitions.
    Pause,
    /// Freeze the transitions once this state is entered.
    PauseAt(String),
    /// Let the transitions run again.
    Resume,
    /// Force a state.
    SetState(String),
    /// A report on the IB system: its status and the reason.
    IbStatus(String, String),
    RestartSocat,
    /// Set the auto-restart time of the Gateway.
    SetRestartTime(String),
    /// End the wait for the operator.
    HitlResume,
}

/// A command as a mathematical value.
pub enum CommandModel {
    Stop,
    Restart,
    ReconnectData,
    ReconnectAccount,
    EnableApi,
    Exit,
    Start,
    Pause,
    PauseAt(Seq<char>),
    Resume,
    SetState(Seq<char>),
    IbStatus(Seq<char>, Seq<char>),
    RestartSocat,
    SetRestartTime(Seq<char>),
    HitlResume,
}

impl View for Command {
    type V = CommandModel;

    open spec fn view(&self) -> CommandModel {
        match self {
            Command::Stop => CommandModel::Stop,
            Command::Restart => CommandModel::Restart,
            Command::ReconnectData => CommandModel::ReconnectData,
            Command::ReconnectAccount => CommandModel::ReconnectAccount,
            Command::EnableApi => CommandModel::EnableApi,
            Command::Exit => CommandModel::Exit,
            Command::Start => CommandModel::Start,
            Command::Pause => CommandModel::Pause,
            Command::PauseAt(n) => CommandModel::PauseAt(n@),
            Command::Resume => CommandModel::Resume,
            Command::SetState(n) => CommandModel::SetState(n@),
            Command::IbStatus(s, r) => CommandModel::IbStatus(s@, r@),
            Command::RestartSocat => CommandModel::RestartSocat,
            Command::SetRestartTime(t) => CommandModel::SetRestartTime(t@),
            Command::HitlResume => CommandModel::HitlResume,
        }
    }
}

/// A signal that asks the process to end.
#[derive(Debug, Clone, Copy, PartialEq, Eq, Structural)]
pub enum Signal {
    Terminate,
    Interrupt,
}

} // verus!
