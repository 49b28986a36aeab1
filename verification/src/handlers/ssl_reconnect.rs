//! The dialog that asks to reconnect with SSL.

use crate::agent_client::WindowInfo;
use crate::handlers::step::{click, HandlerResult, HandlerStep, Reply, StepModel};
use crate::text::{contains, copy_of, lowercase, lower_case, occurs};
use vstd::prelude::*;
use vstd::string::*;

verus! {

/// A title in lower case belongs to the dialog.
pub open spec fn asks_for_ssl(title: Seq<char>) -> bool {
    occurs(title, "ssl"@) || occurs(title, "encryption"@)
}

/// Reconnects with SSL, and never exits the application.
#[derive(Debug, Clone, Copy, PartialEq, Eq, Structural)]
pub struct SslReconnectHandler;

/// What is done about the dialog.
pub open spec fn ssl_step(replies: Seq<Reply>) -> StepModel {
    if replies.len() == 0 {
        StepModel::Click("Reconnect using SSL"@)
    } else if replies.last() == Reply::Done {
        StepModel::Handled
    } else if replies.len() == 1 {
        StepModel::Click("OK"@)
    } else {
        StepModel::Error("no matching button"@)
    }
}

impl SslReconnectHandler {
    pub fn name(&self) -> (r: &'static str)
        ensures
            r@ == "SslReconnectHandler"@,
    {
        "SslReconnectHandler"
    }

    /// Whether a window with this title, in lower case, is the dialog.
    pub fn matches_title(title: &str) -> (r: bool)
        ensures
            r == asks_for_ssl(title@),
    {
        contains(title, "ssl") || contains(title, "encryption")
    }

    /// Whether the handler is for this window.
    pub fn can_handle(&self, window: &WindowInfo) -> (r: bool)
        ensures
            r == asks_for_ssl(lower_case(window.title@)),
    {
        let title = lowercase(window.title.as_str());
        Self::matches_title(title.as_str())
    }

    /// What is done next.
    pub fn handle(&self, replies: &Vec<Reply>) -> (r: HandlerStep)
        ensures
            r@ == ssl_step(replies@),
    {
        let n: usize = replies.len();
        if n == 0 {
            click("Reconnect using SSL")
        } else if replies[n - 1] == Reply::Done {
            HandlerStep::Finish(HandlerResult::Handled)
        } else if n == 1 {
            click("OK")
        } else {
            HandlerStep::Finish(HandlerResult::Error(copy_of("no matching button")))
        }
    }
}

/// Whatever the agent replies, no other button than the two is clicked: never the one that
/// exits the application.
pub proof fn ssl_never_exits(replies: Seq<Reply>)
    ensures
        ssl_step(replies) matches StepModel::Click(label) ==> label == "Reconnect using SSL"@
            || label == "OK"@,
{
}

/// The reconnect is clicked first, and OK only where that was not carried out; one of them that
/// was deals with the window, and two that were not are an error. The dialog is known by either
/// of two texts in its title.
pub proof fn ssl_is_reconnected(title: Seq<char>, r: Reply, q: Reply)
    ensures
        asks_for_ssl(title) <==> occurs(title, "encryption"@) || occurs(title, "ssl"@),
        ssl_step(Seq::empty()) == StepModel::Click("Reconnect using SSL"@),
        ssl_step(seq![r]) == if r == Reply::Done {
            StepModel::Handled
        } else {
            StepModel::Click("OK"@)
        },
        ssl_step(seq![r, q]) == if q == Reply::Done {
            StepModel::Handled
        } else {
            StepModel::Error("no matching button"@)
        },
{
}

} // verus!
