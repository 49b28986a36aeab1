//! The steps from the login to the configured API.

use crate::clock::{longer_than, secs_in_nanos, span, Moment};
use crate::state_machine::machine::{increased, one_more, Model, StateMachine};
use crate::state_machine::outcome::{
    going, no_effects, pausing, Effects, HandlerReply, Outcome, Plan, Stage, StageModel,
};
use crate::state_machine::types::{Phase, State};
use crate::text::copy_of;
use crate::windows::{
    api_confirmed, blocking_seen, check_blocking_dialog, confirms_api, dump_models, ids_of, listed, windows_of,
    ComponentsModel, SeenComponents, SeenWindow, WindowKind, WindowModel,
};
use vstd::prelude::*;

verus! {

/// How often the API configuration is tried.
pub const MAX_CONFIG_RETRIES: u32 = 3;

/// To a phase, with the handlers reset.
pub open spec fn resetting(next: Phase) -> Plan {
    Plan { effects: Effects { reset_handlers: true, ..no_effects() }, pause_ms: 0, next }
}

/// To a restart, with the client id task stopped.
pub open spec fn failing_closed() -> Plan {
    Plan {
        effects: Effects { abort_client_task: true, ..no_effects() },
        pause_ms: 0,
        next: Phase::Restarting,
    }
}

/// The step from `DismissingPopups`, before the handlers act. A cache of windows that is out
/// of step is backed by the listed windows.
pub open spec fn popups_stage(m: Model, running: bool, blocking: Option<Phase>) -> StageModel {
    if !running {
        StageModel::Done(going(Phase::Error("JVM exited during popup dismissal"@)))
    } else if m.observation.twofa_dialog() {
        StageModel::Done(going(Phase::WaitingFor2fa))
    } else if m.observation.relogin_dialog() {
        StageModel::Done(resetting(Phase::ReconnectingSession))
    } else if m.observation.session_conflict() {
        StageModel::Done(resetting(Phase::HandlingSessionConflict))
    } else if !m.observation.synced && blocking is Some {
        if blocking->0 is WaitingFor2fa {
            StageModel::Done(going(blocking->0))
        } else {
            StageModel::Done(resetting(blocking->0))
        }
    } else {
        StageModel::DispatchAll
    }
}

/// A handler took a window for its own.
pub open spec fn popup_found(replies: Seq<HandlerReply>) -> bool {
    exists|i: int| 0 <= i < replies.len() && took(#[trigger] replies[i])
}

/// The reply of a handler that took a window for its own.
pub open spec fn took(reply: HandlerReply) -> bool {
    reply == HandlerReply::Handled || reply == HandlerReply::Error || reply
        == HandlerReply::NotApplicable
}

/// The step from `DismissingPopups`, once the handlers acted: the popups are over when none
/// came for the configured time, or when the wait has lasted long enough.
pub open spec fn popups_replied(m: Model, replies: Seq<HandlerReply>, now: u128) -> (Model, Plan) {
    let found = popup_found(replies);
    let seen = if found {
        Model { popup_dismissed: Some(now), ..m }
    } else {
        m
    };
    let quiet_since = match m.popup_dismissed {
        Some(t) => t,
        None => m.entered_at,
    };
    if !found && span(quiet_since, now) > secs_in_nanos(m.config.timing.popup_quiet_secs) {
        (seen, going(Phase::WaitingForApiReady))
    } else if span(m.entered_at, now) > secs_in_nanos(m.config.timing.popup_max_wait_secs) {
        (seen, going(Phase::WaitingForApiReady))
    } else {
        (seen, pausing(500, Phase::DismissingPopups))
    }
}

/// The wait for the API server, once nothing was found: without confirmation it ends in a
/// restart.
pub open spec fn api_deadline(m: Model, now: u128) -> Plan {
    if span(m.entered_at, now) > secs_in_nanos(120) {
        failing_closed()
    } else {
        pausing(2000, Phase::WaitingForApiReady)
    }
}

/// The step from `WaitingForApiReady`, before the main windows are inspected.
pub open spec fn api_stage(
    m: Model,
    running: bool,
    blocking: Option<Phase>,
    windows: Option<Seq<WindowModel>>,
    now: u128,
) -> StageModel {
    if !running {
        StageModel::Done(going(Phase::Restarting))
    } else if m.observation.twofa_dialog() {
        StageModel::Done(going(Phase::WaitingFor2fa))
    } else if m.observation.relogin_dialog() {
        StageModel::Done(going(Phase::ReconnectingSession))
    } else if m.observation.session_conflict() {
        StageModel::Done(going(Phase::HandlingSessionConflict))
    } else if m.observation.login_form() {
        StageModel::Done(going(Phase::WaitingForLogin))
    } else if blocking is Some {
        StageModel::Done(going(blocking->0))
    } else {
        match windows {
            Some(s) => StageModel::Inspect(ids_of(s, WindowKind::Gateway)),
            None => StageModel::Done(api_deadline(m, now)),
        }
    }
}

/// The step from `WaitingForApiReady`, once the main windows were inspected: on to the
/// configuration with positive evidence that the API server is connected, and only then.
pub open spec fn api_inspected_plan(m: Model, dumps: Seq<Option<ComponentsModel>>, now: u128) -> Plan {
    if api_confirmed(dumps) {
        going(Phase::ConfiguringApi)
    } else {
        api_deadline(m, now)
    }
}

/// The step from `ConfiguringApi`, before the configuration is applied.
pub open spec fn configure_stage(m: Model, running: bool, blocking: Option<Phase>) -> (
    Model,
    StageModel,
) {
    if blocking is Some {
        (Model { config_retries: 0, ..m }, StageModel::Done(going(blocking->0)))
    } else if !running {
        (Model { config_retries: 0, ..m }, StageModel::Done(going(Phase::Restarting)))
    } else {
        (Model { config_retries: one_more(m.config_retries), ..m }, StageModel::Configure)
    }
}

/// The step from `ConfiguringApi`, once the configuration was tried: connected when it
/// succeeded, and a restart when it failed too often.
pub open spec fn configure_tried(m: Model, applied: bool) -> (Model, Plan) {
    if applied {
        (Model { config_retries: 0, ..m }, going(Phase::Connected))
    } else if m.config_retries >= MAX_CONFIG_RETRIES {
        (Model { config_retries: 0, ..m }, failing_closed())
    } else {
        (m, pausing(2000, Phase::ConfiguringApi))
    }
}

fn reset_to(next: State) -> (r: Outcome)
    ensures
        r@ == resetting(next@),
{
    let mut effects = Effects::none();
    effects.reset_handlers = true;
    Outcome::with(effects, next)
}

fn fail_closed() -> (r: Outcome)
    ensures
        r@ == failing_closed(),
{
    let mut effects = Effects::none();
    effects.abort_client_task = true;
    Outcome::with(effects, State::Restarting)
}

fn any_taken(replies: &Vec<HandlerReply>) -> (r: bool)
    ensures
        r == popup_found(replies@),
{
    let mut i: usize = 0;
    while i < replies.len()
        invariant
            i <= replies@.len(),
            forall|j: int| 0 <= j < i ==> !took(#[trigger] replies@[j]),
        decreases replies@.len() - i,
    {
        let reply = replies[i];
        if reply == HandlerReply::Handled || reply == HandlerReply::Error || reply
            == HandlerReply::NotApplicable {
            return true;
        }
        i += 1;
    }
    false
}

impl StateMachine {
    /// The step from `DismissingPopups`, before the handlers act.
    pub fn do_dismiss_popups(&self, running: bool, blocking: &Option<Vec<SeenWindow>>) -> (r: Stage)
        ensures
            r@ == popups_stage(self@, running, blocking_seen(listed(*blocking))),
    {
        if !running {
            return Stage::Done(
                Outcome::go(State::Error(copy_of("JVM exited during popup dismissal"))),
            );
        }
        if self.observation.has_2fa_dialog() {
            return Stage::Done(Outcome::go(State::WaitingFor2fa));
        }
        if self.observation.has_relogin_dialog() {
            return Stage::Done(reset_to(State::ReconnectingSession));
        }
        if self.observation.has_session_conflict() {
            return Stage::Done(reset_to(State::HandlingSessionConflict));
        }
        if !self.observation.synced {
            if let Some(s) = check_blocking_dialog(blocking) {
                if matches!(s, State::WaitingFor2fa) {
                    return Stage::Done(Outcome::go(s));
                }
                return Stage::Done(reset_to(s));
            }
        }
        Stage::DispatchAll
    }

    /// The step from `DismissingPopups`, once the handlers acted on the windows; none did
    /// where the windows could not be listed.
    pub fn popups_dispatched(&mut self, replies: &Vec<HandlerReply>, now: Moment) -> (r: Outcome)
        requires
            old(self).well_formed(),
        ensures
            final(self).well_formed(),
            (final(self)@, r@) == popups_replied(old(self)@, replies@, now.nanos),
    {
        let quiet_since: u128 = match self.popup_last_dismissed {
            Some(t) => t,
            None => self.state_entered_at,
        };
        let found: bool = any_taken(replies);
        if found {
            self.popup_last_dismissed = Some(now.nanos);
        }
        if !found && longer_than(quiet_since, now.nanos, self.config.timing.popup_quiet_secs) {
            Outcome::go(State::WaitingForApiReady)
        } else if longer_than(
            self.state_entered_at,
            now.nanos,
            self.config.timing.popup_max_wait_secs,
        ) {
            Outcome::go(State::WaitingForApiReady)
        } else {
            Outcome::pause(500, State::DismissingPopups)
        }
    }

    fn api_time_left(&self, now: u128) -> (r: Outcome)
        ensures
            r@ == api_deadline(self@, now),
    {
        if longer_than(self.state_entered_at, now, 120) {
            fail_closed()
        } else {
            Outcome::pause(2000, State::WaitingForApiReady)
        }
    }

    /// The step from `WaitingForApiReady`, before the main windows are inspected. The windows
    /// are listed once for the blocking dialogs and once for the rest.
    pub fn do_wait_for_api_ready(
        &self,
        running: bool,
        blocking: &Option<Vec<SeenWindow>>,
        windows: &Option<Vec<SeenWindow>>,
        now: Moment,
    ) -> (r: Stage)
        ensures
            r@ == api_stage(
                self@,
                running,
                blocking_seen(listed(*blocking)),
                listed(*windows),
                now.nanos,
            ),
    {
        if !running {
            return Stage::Done(Outcome::go(State::Restarting));
        }
        if self.observation.has_2fa_dialog() {
            return Stage::Done(Outcome::go(State::WaitingFor2fa));
        }
        if self.observation.has_relogin_dialog() {
            return Stage::Done(Outcome::go(State::ReconnectingSession));
        }
        if self.observation.has_session_conflict() {
            return Stage::Done(Outcome::go(State::HandlingSessionConflict));
        }
        if self.observation.has_login_form() {
            return Stage::Done(Outcome::go(State::WaitingForLogin));
        }
        if let Some(s) = check_blocking_dialog(blocking) {
            return Stage::Done(Outcome::go(s));
        }
        match windows {
            Some(list) => Stage::Inspect(windows_of(list, WindowKind::Gateway)),
            None => Stage::Done(self.api_time_left(now.nanos)),
        }
    }

    /// The step from `WaitingForApiReady`, once the main windows were inspected.
    pub fn api_inspected(&self, dumps: &Vec<Option<SeenComponents>>, now: Moment) -> (r: Outcome)
        ensures
            r@ == api_inspected_plan(self@, dump_models(dumps@), now.nanos),
    {
        if confirms_api(dumps) {
            Outcome::go(State::ConfiguringApi)
        } else {
            self.api_time_left(now.nanos)
        }
    }

    /// The step from `ConfiguringApi`, before the configuration is applied.
    pub fn do_configure_api(&mut self, running: bool, blocking: &Option<Vec<SeenWindow>>) -> (r: Stage)
        requires
            old(self).well_formed(),
        ensures
            final(self).well_formed(),
            (final(self)@, r@) == configure_stage(
                old(self)@,
                running,
                blocking_seen(listed(*blocking)),
            ),
    {
        if let Some(s) = check_blocking_dialog(blocking) {
            self.config_retries = 0;
            return Stage::Done(Outcome::go(s));
        }
        if !running {
            self.config_retries = 0;
            return Stage::Done(Outcome::go(State::Restarting));
        }
        self.config_retries = increased(self.config_retries);
        Stage::Configure
    }

    /// The step from `ConfiguringApi`, once the configuration was tried.
    pub fn configuration_tried(&mut self, applied: bool) -> (r: Outcome)
        requires
            old(self).well_formed(),
        ensures
            final(self).well_formed(),
            (final(self)@, r@) == configure_tried(old(self)@, applied),
    {
        if applied {
            self.config_retries = 0;
            Outcome::go(State::Connected)
        } else if self.config_retries >= MAX_CONFIG_RETRIES {
            self.config_retries = 0;
            fail_closed()
        } else {
            Outcome::pause(2000, State::ConfiguringApi)
        }
    }
}

} // verus!
