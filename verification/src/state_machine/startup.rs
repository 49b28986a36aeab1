//! The steps from the launch to the submitted login.

use crate::clock::{longer_than, secs_in_nanos, span, Moment};
use crate::config::Config;
use crate::state_machine::machine::{buttons_cleared, Model, StateMachine};
use crate::state_machine::outcome::{
    going, no_effects, pausing, Effects, HandlerReply, Outcome, Plan, Stage, StageModel,
};
use crate::state_machine::types::{Phase, State};
use crate::text::{contains, copy_of, occurs};
use crate::types::WindowId;
use crate::windows::{
    any_window, blocking_seen, check_blocking_dialog, find_window, first_window, has_window, is_kind, listed, title_is,
    window_models, ComponentsModel, SeenComponents, SeenWindow, WindowKind, WindowModel,
};
use vstd::prelude::*;
use vstd::string::*;

verus! {

/// The phase for an error with this message.
pub open spec fn failed(message: Seq<char>) -> Phase {
    Phase::Error(message)
}

/// The step from `Init`.
pub open spec fn init_plan(config: Config, tws_exists: bool) -> Plan {
    if tws_exists {
        going(Phase::Launching)
    } else {
        going(failed("TWS path does not exist: "@ + config.gateway.tws_path@))
    }
}

/// The step from `WaitingForAgent`.
pub open spec fn agent_plan(m: Model, running: bool, healthy: bool, now: u128) -> Plan {
    if !running {
        going(failed("JVM process exited before agent became ready"@))
    } else if healthy {
        going(Phase::WaitingForLogin)
    } else if span(m.entered_at, now) > secs_in_nanos(60) {
        going(failed("Timed out waiting for agent health check"@))
    } else {
        pausing(500, Phase::WaitingForAgent)
    }
}

/// A window that shows that the Gateway has resumed its session by itself: the main window at
/// its full width.
pub open spec fn resumed_window(w: WindowModel) -> bool {
    is_kind(WindowKind::Gateway, w.title) && !occurs(w.title, "login"@) && !occurs(
        w.title,
        "configuration"@,
    ) && (w.width matches Some(n) && n > 400)
}

/// Some window among these shows that the Gateway has resumed its session.
pub open spec fn any_resumed(s: Seq<WindowModel>) -> bool {
    exists|i: int| 0 <= i < s.len() && resumed_window(#[trigger] s[i])
}

/// The windows were listed, and one shows that the Gateway has resumed its session.
pub open spec fn session_resumed(windows: Option<Seq<WindowModel>>) -> bool {
    match windows {
        Some(s) => any_resumed(s),
        None => false,
    }
}

/// The wait for a warm restart has lasted too long.
pub open spec fn warm_expired(m: Model, now: u128) -> bool {
    span(m.entered_at, now) > secs_in_nanos(120)
}

/// The wait for the login window, once nothing was found.
pub open spec fn login_deadline(m: Model, now: u128) -> Plan {
    let limit = m.config.timing.login_dialog_timeout_secs;
    if limit > 0 && span(m.entered_at, now) > secs_in_nanos(limit) {
        going(failed("Timed out waiting for login window"@))
    } else {
        pausing(500, Phase::WaitingForLogin)
    }
}

/// The phase that the cache of windows calls for while the login window is awaited.
pub open spec fn observed_login(m: Model) -> Option<Phase> {
    let o = m.observation;
    if o.session_conflict() {
        Some(Phase::HandlingSessionConflict)
    } else if o.twofa_dialog() {
        Some(Phase::WaitingFor2fa)
    } else if o.relogin_dialog() {
        Some(Phase::ReconnectingSession)
    } else {
        match o.main_window() {
            Some(w) => if w.has_login_button {
                Some(Phase::Authenticating)
            } else {
                Some(Phase::DismissingPopups)
            },
            None => None,
        }
    }
}

/// The step from `WaitingForLogin` without a warm restart. While the cache of windows is in
/// step it decides alone; else the listed windows do.
pub open spec fn cold_login(
    m: Model,
    running: bool,
    blocking: Option<Phase>,
    windows: Option<Seq<WindowModel>>,
    now: u128,
) -> StageModel {
    if !running {
        StageModel::Done(going(failed("JVM process exited while waiting for login window"@)))
    } else if m.observation.synced {
        match observed_login(m) {
            Some(p) => StageModel::Done(going(p)),
            None => StageModel::Done(login_deadline(m, now)),
        }
    } else if blocking is Some {
        StageModel::Done(going(blocking->0))
    } else {
        match windows {
            Some(s) => if any_window(s, WindowKind::SessionConflict) {
                StageModel::Done(going(Phase::HandlingSessionConflict))
            } else {
                match first_window(s, WindowKind::Gateway) {
                    Some(i) => StageModel::Inspect(seq![s[i].id]),
                    None => StageModel::Done(login_deadline(m, now)),
                }
            },
            None => StageModel::Done(login_deadline(m, now)),
        }
    }
}

/// The machine once a warm restart is given up or over.
pub open spec fn warm_over(m: Model) -> Model {
    Model { warm_restart: None, ..m }
}

/// The step from `WaitingForLogin`: its stage and the machine after it. During a warm restart
/// the Gateway logs in by itself, and only when that takes too long the login is done anew.
pub open spec fn login_stage(
    m: Model,
    running: bool,
    blocking: Option<Phase>,
    windows: Option<Seq<WindowModel>>,
    now: u128,
) -> (Model, StageModel) {
    if m.warm_restart is Some {
        if !running {
            (
                warm_over(m),
                StageModel::Done(going(failed("JVM exited during warm restart login"@))),
            )
        } else if session_resumed(windows) {
            (warm_over(m), StageModel::Done(going(Phase::DismissingPopups)))
        } else if warm_expired(m, now) {
            let fresh = Model { entered_at: now, ..warm_over(m) };
            (fresh, cold_login(fresh, running, blocking, windows, now))
        } else {
            (m, StageModel::Done(pausing(2000, Phase::WaitingForLogin)))
        }
    } else {
        (m, cold_login(m, running, blocking, windows, now))
    }
}

/// Where the inspection of the main window leads: to the login where it shows text fields or
/// could not be inspected.
pub open spec fn login_inspected_plan(dump: Option<ComponentsModel>) -> Plan {
    let form = match dump {
        Some(c) => c.login_form(),
        None => true,
    };
    if form {
        going(Phase::Authenticating)
    } else {
        going(Phase::DismissingPopups)
    }
}

/// The view of an inspection that may have failed.
pub open spec fn dump_view(dump: Option<SeenComponents>) -> Option<ComponentsModel> {
    match dump {
        Some(c) => Some(c@),
        None => None,
    }
}

/// The step from `Authenticating`, before the main window is inspected.
pub open spec fn authenticate_stage(blocking: Option<Phase>, windows: Seq<WindowModel>) -> StageModel {
    match blocking {
        Some(p) => StageModel::Done(going(p)),
        None => match first_window(windows, WindowKind::Gateway) {
            Some(i) => StageModel::Inspect(seq![windows[i].id]),
            None => StageModel::Done(going(Phase::WaitingForLogin)),
        },
    }
}

/// The step from `Authenticating`, once the main window was inspected: without text fields the
/// login is over.
pub open spec fn authenticate_inspected(window: WindowId, dump: Option<ComponentsModel>) -> StageModel {
    if dump matches Some(c) && c.login_form() {
        StageModel::Dispatch(window)
    } else {
        StageModel::Done(going(Phase::DismissingPopups))
    }
}

/// The step from `Authenticating`, once the login handler replied.
pub open spec fn authenticate_replied(m: Model, reply: HandlerReply) -> Plan {
    match reply {
        HandlerReply::Handled => pausing(m.config.timing.post_login_delay_ms, Phase::WaitingFor2fa),
        HandlerReply::Error | HandlerReply::Failed => Plan {
            effects: Effects { reset_handlers: true, ..no_effects() },
            pause_ms: 0,
            next: Phase::WaitingForLogin,
        },
        HandlerReply::NotApplicable | HandlerReply::Unmatched => pausing(
            2000,
            Phase::WaitingForLogin,
        ),
    }
}

/// The step from `HandlingSessionConflict`, before the handlers act.
pub open spec fn conflict_stage(windows: Seq<WindowModel>) -> StageModel {
    match first_window(windows, WindowKind::SessionConflict) {
        Some(i) => StageModel::Dispatch(windows[i].id),
        None => StageModel::Done(pausing(2000, Phase::DismissingPopups)),
    }
}

fn error(message: &str) -> (r: State)
    ensures
        r@ == failed(message@),
{
    State::Error(copy_of(message))
}

fn resumed(windows: &Option<Vec<SeenWindow>>) -> (r: bool)
    ensures
        r == session_resumed(listed(*windows)),
{
    match windows {
        Some(list) => resumed_among(list),
        None => false,
    }
}

fn resumed_among(list: &Vec<SeenWindow>) -> (r: bool)
    ensures
        r == any_resumed(window_models(list@)),
{
    let ghost s = window_models(list@);
    let mut i: usize = 0;
    while i < list.len()
        invariant
            i <= list@.len(),
            s == window_models(list@),
            forall|j: int| 0 <= j < i ==> !resumed_window(#[trigger] s[j]),
        decreases list@.len() - i,
    {
        let w = &list[i];
        assert(s[i as int] == w@);
        let wide: bool = match w.width {
            Some(n) => n > 400,
            None => false,
        };
        if title_is(WindowKind::Gateway, w.title.as_str()) && !contains(w.title.as_str(), "login")
            && !contains(w.title.as_str(), "configuration") && wide {
            assert(resumed_window(s[i as int]));
            return true;
        }
        i += 1;
    }
    false
}

impl StateMachine {
    /// The step from `WaitingForLaunch`: nothing happens until a START command.
    pub fn do_waiting_for_launch(&self) -> (r: Outcome)
        ensures
            r@ == pausing(500, Phase::WaitingForLaunch),
    {
        Outcome::pause(500, State::WaitingForLaunch)
    }

    /// The step from `Init`.
    pub fn do_init(&self, tws_exists: bool) -> (r: Outcome)
        ensures
            r@ == init_plan(self@.config, tws_exists),
    {
        if !tws_exists {
            let mut message = copy_of("TWS path does not exist: ");
            message.append(self.config.gateway.tws_path.as_str());
            return Outcome::go(State::Error(message));
        }
        Outcome::go(State::Launching)
    }

    /// The step from `Launching`, once the JVM was launched.
    pub fn do_launch(&self) -> (r: Outcome)
        ensures
            r@ == going(Phase::WaitingForAgent),
    {
        Outcome::go(State::WaitingForAgent)
    }

    /// The session token to launch with, during a warm restart.
    pub fn restart_token(&self) -> (r: Option<&str>)
        ensures
            match r {
                Some(t) => self@.warm_restart == Some(t@),
                None => self@.warm_restart is None,
            },
    {
        match &self.warm_restart_pending {
            Some(t) => Some(t.as_str()),
            None => None,
        }
    }

    /// The step from `WaitingForAgent`.
    pub fn do_wait_for_agent(&self, running: bool, healthy: bool, now: Moment) -> (r: Outcome)
        ensures
            r@ == agent_plan(self@, running, healthy, now.nanos),
    {
        if !running {
            Outcome::go(error("JVM process exited before agent became ready"))
        } else if healthy {
            Outcome::go(State::WaitingForLogin)
        } else if longer_than(self.state_entered_at, now.nanos, 60) {
            Outcome::go(error("Timed out waiting for agent health check"))
        } else {
            Outcome::pause(500, State::WaitingForAgent)
        }
    }

    fn login_time_left(&self, now: u128) -> (r: Outcome)
        ensures
            r@ == login_deadline(self@, now),
    {
        let limit: u64 = self.config.timing.login_dialog_timeout_secs;
        if limit > 0 && longer_than(self.state_entered_at, now, limit) {
            Outcome::go(error("Timed out waiting for login window"))
        } else {
            Outcome::pause(500, State::WaitingForLogin)
        }
    }

    fn observed_login_state(&self) -> (r: Option<State>)
        ensures
            match r {
                Some(s) => observed_login(self@) == Some(s@),
                None => observed_login(self@) is None,
            },
    {
        if self.observation.has_session_conflict() {
            Some(State::HandlingSessionConflict)
        } else if self.observation.has_2fa_dialog() {
            Some(State::WaitingFor2fa)
        } else if self.observation.has_relogin_dialog() {
            Some(State::ReconnectingSession)
        } else {
            match self.observation.main_gateway_window() {
                Some(w) => if w.has_login_button {
                    Some(State::Authenticating)
                } else {
                    Some(State::DismissingPopups)
                },
                None => None,
            }
        }
    }

    fn cold_login_step(
        &self,
        running: bool,
        blocking: &Option<Vec<SeenWindow>>,
        windows: &Option<Vec<SeenWindow>>,
        now: u128,
    ) -> (r: Stage)
        ensures
            r@ == cold_login(self@, running, blocking_seen(listed(*blocking)), listed(*windows), now),
    {
        if !running {
            return Stage::Done(
                Outcome::go(error("JVM process exited while waiting for login window")),
            );
        }
        if self.observation.synced {
            return match self.observed_login_state() {
                Some(s) => Stage::Done(Outcome::go(s)),
                None => Stage::Done(self.login_time_left(now)),
            };
        }
        if let Some(s) = check_blocking_dialog(blocking) {
            return Stage::Done(Outcome::go(s));
        }
        if let Some(list) = windows {
            if has_window(list, WindowKind::SessionConflict) {
                return Stage::Done(Outcome::go(State::HandlingSessionConflict));
            }
            if let Some(i) = find_window(list, WindowKind::Gateway) {
                let ids: Vec<WindowId> = vec![list[i].id];
                assert(ids@ =~= seq![window_models(list@)[i as int].id]);
                return Stage::Inspect(ids);
            }
        }
        Stage::Done(self.login_time_left(now))
    }

    /// The step from `WaitingForLogin`. `blocking` and `windows` are the listed windows, once
    /// for the blocking dialogs and once for the rest; they are missing where the agent did
    /// not answer.
    pub fn do_wait_for_login(
        &mut self,
        running: bool,
        blocking: &Option<Vec<SeenWindow>>,
        windows: &Option<Vec<SeenWindow>>,
        now: Moment,
    ) -> (r: Stage)
        requires
            old(self).well_formed(),
        ensures
            final(self).well_formed(),
            (final(self)@, r@) == login_stage(
                old(self)@,
                running,
                blocking_seen(listed(*blocking)),
                listed(*windows),
                now.nanos,
            ),
    {
        if self.warm_restart_pending.is_some() {
            if !running {
                self.warm_restart_pending = None;
                return Stage::Done(Outcome::go(error("JVM exited during warm restart login")));
            }
            if resumed(windows) {
                self.warm_restart_pending = None;
                return Stage::Done(Outcome::go(State::DismissingPopups));
            }
            if longer_than(self.state_entered_at, now.nanos, 120) {
                self.warm_restart_pending = None;
                self.state_entered_at = now.nanos;
            } else {
                return Stage::Done(Outcome::pause(2000, State::WaitingForLogin));
            }
        }
        self.cold_login_step(running, blocking, windows, now.nanos)
    }

    /// The step from `WaitingForLogin`, once the main window was inspected.
    pub fn login_inspected(dump: &Option<SeenComponents>) -> (r: Outcome)
        ensures
            r@ == login_inspected_plan(dump_view(*dump)),
    {
        let form: bool = match dump {
            Some(c) => c.shows_login_form(),
            None => true,
        };
        if form {
            Outcome::go(State::Authenticating)
        } else {
            Outcome::go(State::DismissingPopups)
        }
    }

    /// The step from `Authenticating`, before the main window is inspected.
    pub fn do_authenticate(blocking: &Option<Vec<SeenWindow>>, windows: &Vec<SeenWindow>) -> (r: Stage)
        ensures
            r@ == authenticate_stage(blocking_seen(listed(*blocking)), window_models(windows@)),
    {
        if let Some(s) = check_blocking_dialog(blocking) {
            return Stage::Done(Outcome::go(s));
        }
        match find_window(windows, WindowKind::Gateway) {
            Some(i) => {
                let ids: Vec<WindowId> = vec![windows[i].id];
                assert(ids@ =~= seq![window_models(windows@)[i as int].id]);
                Stage::Inspect(ids)
            },
            None => Stage::Done(Outcome::go(State::WaitingForLogin)),
        }
    }

    /// The step from `Authenticating`, once the main window was inspected.
    pub fn authenticate_inspected(window: WindowId, dump: &Option<SeenComponents>) -> (r: Stage)
        ensures
            r@ == authenticate_inspected(window, dump_view(*dump)),
    {
        let form: bool = match dump {
            Some(c) => c.shows_login_form(),
            None => false,
        };
        if form {
            Stage::Dispatch(window)
        } else {
            Stage::Done(Outcome::go(State::DismissingPopups))
        }
    }

    /// The step from `Authenticating`, once the login handler replied. A submitted login makes
    /// the login buttons that were seen stale.
    pub fn authenticate_replied(&mut self, reply: HandlerReply) -> (r: Outcome)
        requires
            old(self).well_formed(),
        ensures
            final(self).well_formed(),
            final(self)@ == if reply == HandlerReply::Handled {
                Model { observation: buttons_cleared(old(self)@.observation), ..old(self)@ }
            } else {
                old(self)@
            },
            r@ == authenticate_replied(old(self)@, reply),
    {
        match reply {
            HandlerReply::Handled => {
                self.observation.clear_login_buttons();
                Outcome::pause(self.config.timing.post_login_delay_ms, State::WaitingFor2fa)
            },
            HandlerReply::Error | HandlerReply::Failed => {
                let mut effects = Effects::none();
                effects.reset_handlers = true;
                Outcome::with(effects, State::WaitingForLogin)
            },
            HandlerReply::NotApplicable | HandlerReply::Unmatched => Outcome::pause(
                2000,
                State::WaitingForLogin,
            ),
        }
    }

    /// The step from `HandlingSessionConflict`, before the handlers act.
    pub fn do_handle_session_conflict(windows: &Vec<SeenWindow>) -> (r: Stage)
        ensures
            r@ == conflict_stage(window_models(windows@)),
    {
        match find_window(windows, WindowKind::SessionConflict) {
            Some(i) => Stage::Dispatch(windows[i].id),
            None => Stage::Done(Outcome::pause(2000, State::DismissingPopups)),
        }
    }

    /// The step from `HandlingSessionConflict`, whatever the handlers replied.
    pub fn session_conflict_handled() -> (r: Outcome)
        ensures
            r@ == pausing(2000, Phase::DismissingPopups),
    {
        Outcome::pause(2000, State::DismissingPopups)
    }
}

} // verus!
