//! The actions of a handler and the replies to them.

use crate::agent_client::AgentError;
use crate::state_machine::outcome::HandlerReply;
use crate::text::copy_of;
use vstd::prelude::*;
use vstd::string::*;

verus! {

/// The agent's reply to a click or a keystroke.
#[derive(Debug, Clone, Copy, PartialEq, Eq, Structural)]
pub enum Reply {
    /// It was carried out.
    Done,
    /// The agent answered that it was not carried out.
    Refused,
    /// The exchange with the agent failed.
    Failed,
}

/// Why a window could not be handled.
#[derive(Debug)]
pub enum HandlerError {
    AgentError(AgentError),
}

/// How the handling of a window ended.
#[derive(Debug)]
pub enum HandlerResult {
    Handled,
    NotApplicable,
    Error(String),
}

/// What a handler does next.
#[derive(Debug)]
pub enum HandlerStep {
    /// Click the button with this label.
    Click(String),
    /// Send this keystroke.
    Key(String),
    /// The window is dealt with.
    Finish(HandlerResult),
    /// Report the failure of the last exchange.
    Fail,
}

/// What a handler does next, as a mathematical value.
pub enum StepModel {
    Click(Seq<char>),
    Key(Seq<char>),
    Handled,
    NotApplicable,
    Error(Seq<char>),
    Fail,
}

impl View for HandlerStep {
    type V = StepModel;

    open spec fn view(&self) -> StepModel {
        match self {
            HandlerStep::Click(l) => StepModel::Click(l@),
            HandlerStep::Key(k) => StepModel::Key(k@),
            HandlerStep::Finish(HandlerResult::Handled) => StepModel::Handled,
            HandlerStep::Finish(HandlerResult::NotApplicable) => StepModel::NotApplicable,
            HandlerStep::Finish(HandlerResult::Error(m)) => StepModel::Error(m@),
            HandlerStep::Fail => StepModel::Fail,
        }
    }
}

pub(crate) fn click(label: &str) -> (r: HandlerStep)
    ensures
        r@ == StepModel::Click(label@),
{
    HandlerStep::Click(copy_of(label))
}

/// How the machine counts the end of a handling; none while it goes on.
pub fn reply_of(step: &HandlerStep) -> (r: Option<HandlerReply>)
    ensures
        r == match step@ {
            StepModel::Handled => Some(HandlerReply::Handled),
            StepModel::NotApplicable => Some(HandlerReply::NotApplicable),
            StepModel::Error(_) => Some(HandlerReply::Error),
            StepModel::Fail => Some(HandlerReply::Failed),
            StepModel::Click(_) | StepModel::Key(_) => None,
        },
{
    match step {
        HandlerStep::Finish(HandlerResult::Handled) => Some(HandlerReply::Handled),
        HandlerStep::Finish(HandlerResult::NotApplicable) => Some(HandlerReply::NotApplicable),
        HandlerStep::Finish(HandlerResult::Error(_)) => Some(HandlerReply::Error),
        HandlerStep::Fail => Some(HandlerReply::Failed),
        HandlerStep::Click(_) | HandlerStep::Key(_) => None,
    }
}

} // verus!
