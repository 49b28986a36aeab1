//! Notifications of the Gateway: small dialogs that bear the title of the main window.

use crate::agent_client::{Bounds, WindowInfo};
use crate::handlers::step::{click, HandlerResult, HandlerStep, Reply, StepModel};
use crate::text::{lowercase, lower_case};
use crate::windows::{is_kind, title_is, WindowKind};
use vstd::prelude::*;
use vstd::string::*;

verus! {

/// A window of this size is a notification and not the main window.
pub open spec fn is_small(bounds: Option<Bounds>) -> bool {
    bounds matches Some(b) && b.width < 650 && b.height < 400
}

/// Closes notifications that no other handler is for.
#[derive(Debug, Clone, Copy, PartialEq, Eq, Structural)]
pub struct GatewayNotificationHandler;

/// What is done about a notification: Close is clicked, and OK where that does not do it.
pub open spec fn notification_step(replies: Seq<Reply>) -> StepModel {
    if replies.len() == 0 {
        StepModel::Click("Close"@)
    } else if replies.last() == Reply::Done {
        StepModel::Handled
    } else if replies.len() == 1 {
        StepModel::Click("OK"@)
    } else {
        StepModel::NotApplicable
    }
}

impl GatewayNotificationHandler {
    pub fn name(&self) -> (r: &'static str)
        ensures
            r@ == "GatewayNotificationHandler"@,
    {
        "GatewayNotificationHandler"
    }

    /// Whether a window with this title, in lower case, and this size is a notification.
    pub fn matches_window(title: &str, bounds: &Option<Bounds>) -> (r: bool)
        ensures
            r == (is_kind(WindowKind::Gateway, title@) && is_small(*bounds)),
    {
        if !title_is(WindowKind::Gateway, title) {
            return false;
        }
        match bounds {
            Some(b) => b.width < 650 && b.height < 400,
            None => false,
        }
    }

    /// Whether the handler is for this window.
    pub fn can_handle(&self, window: &WindowInfo) -> (r: bool)
        ensures
            r == (is_kind(WindowKind::Gateway, lower_case(window.title@)) && is_small(
                window.bounds,
            )),
    {
        let title = lowercase(window.title.as_str());
        Self::matches_window(title.as_str(), &window.bounds)
    }

    /// What is done next.
    pub fn handle(&self, replies: &Vec<Reply>) -> (r: HandlerStep)
        ensures
            r@ == notification_step(replies@),
    {
        let n: usize = replies.len();
        if n == 0 {
            click("Close")
        } else if replies[n - 1] == Reply::Done {
            HandlerStep::Finish(HandlerResult::Handled)
        } else if n == 1 {
            click("OK")
        } else {
            HandlerStep::Finish(HandlerResult::NotApplicable)
        }
    }
}

/// Close is clicked first, and OK only where that was not carried out; one of them that was deals
/// with the window, and two that were not leave it alone. Only small windows count.
pub proof fn notifications_are_closed(r: Reply, q: Reply, b: Bounds)
    ensures
        notification_step(Seq::empty()) == StepModel::Click("Close"@),
        notification_step(seq![r]) == if r == Reply::Done {
            StepModel::Handled
        } else {
            StepModel::Click("OK"@)
        },
        notification_step(seq![r, q]) == if q == Reply::Done {
            StepModel::Handled
        } else {
            StepModel::NotApplicable
        },
        is_small(Some(b)) <==> b.width <= 649 && b.height <= 399,
        !is_small(None),
{
}

} // verus!
