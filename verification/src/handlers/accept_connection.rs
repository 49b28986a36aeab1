//! The dialog that asks whether an API client may connect.

use crate::agent_client::WindowInfo;
use crate::handlers::step::{click, HandlerResult, HandlerStep, Reply, StepModel};
use crate::text::{contains, lowercase, lower_case, occurs, same};
use vstd::prelude::*;
use vstd::string::*;

verus! {

/// A title in lower case belongs to the dialog.
pub open spec fn asks_for_connection(title: Seq<char>) -> bool {
    occurs(title, "accept incoming connection"@) || occurs(title, "api connection"@) || occurs(
        title,
        "incoming connection"@,
    )
}

/// Accepts or rejects, or leaves the dialog to the operator, as it is configured.
#[derive(Debug)]
pub struct AcceptConnectionHandler {
    /// "accept", "reject" or "manual".
    action: String,
}

/// What is done about the dialog.
pub open spec fn accept_step(action: Seq<char>, replies: Seq<Reply>) -> StepModel {
    if action == "manual"@ {
        StepModel::NotApplicable
    } else if replies.len() == 0 {
        StepModel::Click(
            if action == "reject"@ {
                "Reject"@
            } else {
                "Accept"@
            },
        )
    } else if replies.last() == Reply::Failed {
        StepModel::Fail
    } else {
        StepModel::Handled
    }
}

impl AcceptConnectionHandler {
    /// The configured action.
    pub closed spec fn action(&self) -> Seq<char> {
        self.action@
    }

    pub fn new(action: String) -> (r: Self)
        ensures
            r.action() == action@,
    {
        Self { action }
    }

    pub fn name(&self) -> (r: &'static str)
        ensures
            r@ == "AcceptConnectionHandler"@,
    {
        "AcceptConnectionHandler"
    }

    /// Whether a window with this title, in lower case, is the dialog.
    pub fn matches_title(title: &str) -> (r: bool)
        ensures
            r == asks_for_connection(title@),
    {
        contains(title, "accept incoming connection") || contains(title, "api connection")
            || contains(title, "incoming connection")
    }

    /// Whether the handler is for this window.
    pub fn can_handle(&self, window: &WindowInfo) -> (r: bool)
        ensures
            r == asks_for_connection(lower_case(window.title@)),
    {
        let title = lowercase(window.title.as_str());
        Self::matches_title(title.as_str())
    }

    /// What is done next.
    pub fn handle(&self, replies: &Vec<Reply>) -> (r: HandlerStep)
        ensures
            r@ == accept_step(self.action(), replies@),
    {
        if same(self.action.as_str(), "manual") {
            HandlerStep::Finish(HandlerResult::NotApplicable)
        } else if replies.len() == 0 {
            if same(self.action.as_str(), "reject") {
                click("Reject")
            } else {
                click("Accept")
            }
        } else if replies[replies.len() - 1] == Reply::Failed {
            HandlerStep::Fail
        } else {
            HandlerStep::Finish(HandlerResult::Handled)
        }
    }
}

/// Under the manual setting nothing is ever clicked.
pub proof fn manual_clicks_nothing(replies: Seq<Reply>)
    ensures
        accept_step("manual"@, replies) is NotApplicable,
{
}

/// The dialog is known by its title; one click is made, Reject where that is configured and Accept
/// for everything but that and manual; then the window is dealt with, unless the exchange failed.
pub proof fn connections_are_answered_once(title: Seq<char>, action: Seq<char>, r: Reply)
    ensures
        asks_for_connection(title) <==> occurs(title, "incoming connection"@) || occurs(
            title,
            "api connection"@,
        ) || occurs(title, "accept incoming connection"@),
        action == "reject"@ ==> accept_step(action, Seq::empty()) == StepModel::Click("Reject"@),
        action != "reject"@ && action != "manual"@ ==> accept_step(action, Seq::empty())
            == StepModel::Click("Accept"@),
        action != "manual"@ ==> accept_step(action, seq![r]) == if r == Reply::Failed {
            StepModel::Fail
        } else {
            StepModel::Handled
        },
{
    reveal_strlit("reject");
    reveal_strlit("manual");
    assert("reject"@[0] == 'r' && "manual"@[0] == 'm');
}

} // verus!
