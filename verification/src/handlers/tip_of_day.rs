//! The "Tip of the Day" dialog.

use crate::agent_client::WindowInfo;
use crate::handlers::step::{click, HandlerResult, HandlerStep, Reply, StepModel};
use crate::text::{contains, lowercase, lower_case, occurs};
use vstd::prelude::*;
use vstd::string::*;

verus! {

/// A title in lower case belongs to the dialog.
pub open spec fn shows_tip(title: Seq<char>) -> bool {
    occurs(title, "tip of the day"@) || occurs(title, "tips"@)
}

/// Closes the dialog.
#[derive(Debug, Clone, Copy, PartialEq, Eq, Structural)]
pub struct TipOfDayHandler;

/// What is done about the dialog: Close is clicked, and OK where that exchange fails.
pub open spec fn tip_step(replies: Seq<Reply>) -> StepModel {
    if replies.len() == 0 {
        StepModel::Click("Close"@)
    } else if replies.last() != Reply::Failed {
        StepModel::Handled
    } else if replies.len() == 1 {
        StepModel::Click("OK"@)
    } else {
        StepModel::Fail
    }
}

impl TipOfDayHandler {
    pub fn name(&self) -> (r: &'static str)
        ensures
            r@ == "TipOfDayHandler"@,
    {
        "TipOfDayHandler"
    }

    /// Whether a window with this title, in lower case, is the dialog.
    pub fn matches_title(title: &str) -> (r: bool)
        ensures
            r == shows_tip(title@),
    {
        contains(title, "tip of the day") || contains(title, "tips")
    }

    /// Whether the handler is for this window.
    pub fn can_handle(&self, window: &WindowInfo) -> (r: bool)
        ensures
            r == shows_tip(lower_case(window.title@)),
    {
        let title = lowercase(window.title.as_str());
        Self::matches_title(title.as_str())
    }

    /// What is done next.
    pub fn handle(&self, replies: &Vec<Reply>) -> (r: HandlerStep)
        ensures
            r@ == tip_step(replies@),
    {
        let n: usize = replies.len();
        if n == 0 {
            click("Close")
        } else if replies[n - 1] != Reply::Failed {
            HandlerStep::Finish(HandlerResult::Handled)
        } else if n == 1 {
            click("OK")
        } else {
            HandlerStep::Fail
        }
    }
}

/// Close is clicked first, and OK only where that exchange failed; an exchange that did not fail
/// deals with the window, whatever the agent answered, and a second failure is reported. The
/// dialog is known by either of two texts in its title.
pub proof fn tips_are_closed(title: Seq<char>, r: Reply, q: Reply)
    ensures
        shows_tip(title) <==> occurs(title, "tips"@) || occurs(title, "tip of the day"@),
        tip_step(Seq::empty()) == StepModel::Click("Close"@),
        tip_step(seq![r]) == if r == Reply::Failed {
            StepModel::Click("OK"@)
        } else {
            StepModel::Handled
        },
        tip_step(seq![r, q]) == if q == Reply::Failed {
            StepModel::Fail
        } else {
            StepModel::Handled
        },
{
}

} // verus!
