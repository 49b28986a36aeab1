//! Notices that a newer version is available.

use crate::agent_client::WindowInfo;
use crate::handlers::step::{click, HandlerResult, HandlerStep, Reply, StepModel};
use crate::text::{contains, copy_of, lowercase, lower_case, occurs};
use vstd::prelude::*;
use vstd::string::*;

verus! {

/// A title in lower case belongs to a notice.
pub open spec fn announces_version(title: Seq<char>) -> bool {
    ||| occurs(title, "newer version"@)
    ||| occurs(title, "update available"@)
    ||| occurs(title, "version"@) && (occurs(title, "update"@) || occurs(title, "upgrade"@)
        || occurs(title, "new"@))
}

/// Dismisses the notices.
#[derive(Debug, Clone, Copy, PartialEq, Eq, Structural)]
pub struct VersionNoticeHandler;

/// What is done about a notice: OK, Close and Dismiss are clicked until an exchange succeeds,
/// and then Escape is pressed.
pub open spec fn version_step(replies: Seq<Reply>) -> StepModel {
    if replies.len() == 0 {
        StepModel::Click("OK"@)
    } else if replies.last() != Reply::Failed {
        StepModel::Handled
    } else if replies.len() == 1 {
        StepModel::Click("Close"@)
    } else if replies.len() == 2 {
        StepModel::Click("Dismiss"@)
    } else if replies.len() == 3 {
        StepModel::Key("Escape"@)
    } else {
        StepModel::Fail
    }
}

impl VersionNoticeHandler {
    pub fn name(&self) -> (r: &'static str)
        ensures
            r@ == "VersionNoticeHandler"@,
    {
        "VersionNoticeHandler"
    }

    /// Whether a window with this title, in lower case, is a notice.
    pub fn matches_title(title: &str) -> (r: bool)
        ensures
            r == announces_version(title@),
    {
        contains(title, "newer version") || contains(title, "update available") || (contains(
            title,
            "version",
        ) && (contains(title, "update") || contains(title, "upgrade") || contains(title, "new")))
    }

    /// Whether the handler is for this window.
    pub fn can_handle(&self, window: &WindowInfo) -> (r: bool)
        ensures
            r == announces_version(lower_case(window.title@)),
    {
        let title = lowercase(window.title.as_str());
        Self::matches_title(title.as_str())
    }

    /// What is done next.
    pub fn handle(&self, replies: &Vec<Reply>) -> (r: HandlerStep)
        ensures
            r@ == version_step(replies@),
    {
        let n: usize = replies.len();
        if n == 0 {
            click("OK")
        } else if replies[n - 1] != Reply::Failed {
            HandlerStep::Finish(HandlerResult::Handled)
        } else if n == 1 {
            click("Close")
        } else if n == 2 {
            click("Dismiss")
        } else if n == 3 {
            HandlerStep::Key(copy_of("Escape"))
        } else {
            HandlerStep::Fail
        }
    }
}

/// The notice is known by its title: a newer version, an available update, or a version together
/// with an update, an upgrade or something new.
pub proof fn notices_are_known_by_their_titles(title: Seq<char>)
    ensures
        occurs(title, "newer version"@) || occurs(title, "update available"@) ==> announces_version(
            title,
        ),
        occurs(title, "version"@) && (occurs(title, "update"@) || occurs(title, "upgrade"@)
            || occurs(title, "new"@)) ==> announces_version(title),
        announces_version(title) ==> occurs(title, "newer version"@) || occurs(
            title,
            "update available"@,
        ) || (occurs(title, "version"@) && (occurs(title, "update"@) || occurs(title, "upgrade"@)
            || occurs(title, "new"@))),
{
}

/// OK, Close and Dismiss are clicked in turn while the exchange fails, then Escape is pressed, and
/// a failure of that is reported; the first exchange that does not fail deals with the window.
pub proof fn notices_are_dismissed(r: Reply)
    ensures
        ({
            let f = Reply::Failed;
            &&& version_step(Seq::empty()) == StepModel::Click("OK"@)
            &&& version_step(seq![f]) == StepModel::Click("Close"@)
            &&& version_step(seq![f, f]) == StepModel::Click("Dismiss"@)
            &&& version_step(seq![f, f, f]) == StepModel::Key("Escape"@)
            &&& version_step(seq![f, f, f, f]) == StepModel::Fail
            &&& r != f ==> version_step(seq![r]) == StepModel::Handled && version_step(seq![f, r])
                == StepModel::Handled && version_step(seq![f, f, r]) == StepModel::Handled
                && version_step(seq![f, f, f, r]) == StepModel::Handled
        }),
{
}

} // verus!
