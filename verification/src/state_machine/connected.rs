//! The steps of a connected session, of its recovery, and of a restart.

use crate::clock::{at_least, elapsed_secs, longer_than, secs_in_nanos, span, span_secs, Moment};
use crate::config::{CounterReset, ReloginFailureAction};
use crate::state_machine::machine::{text_view, HitlState, IbModel, Model, StateMachine};
use crate::state_machine::outcome::{
    going, no_effects, pausing, Effects, Outcome, Plan, Stage, StageModel,
};
use crate::state_machine::types::{Phase, State};
use crate::text::{same};
use crate::types::WindowId;
use crate::windows::{
    any_authenticated, any_login_form, any_session_loss, any_window, authenticated_seen, dump_models, find_window,
    first_window, has_window, ids_of, listed, login_form_seen, session_loss_seen, window_models, windows_of,
    ComponentsModel, SeenComponents, SeenWindow, WindowKind, WindowModel,
};
use vstd::prelude::*;
use vstd::string::*;

verus! {

/// The machine once its session has been stable for long enough, where that is what resets
/// the count of timeouts.
pub open spec fn stability_checked(m: Model, now: u128) -> Model {
    if m.config.twofa.backoff.counter_reset == CounterReset::Stable
        && (m.hitl.connected_continuously_since matches Some(t) && span(t, now) >= secs_in_nanos(
        m.config.twofa.backoff.stable_secs,
    )) {
        Model {
            hitl: HitlState { consecutive_timeouts: 0, intervals_index: 0, ..m.hitl },
            ..m
        }
    } else {
        m
    }
}

/// The class of the main window, once it was looked for: as it was recorded, or as the cache
/// or the listed windows have it.
pub open spec fn class_recorded(m: Model, windows: Option<Seq<WindowModel>>) -> Option<Seq<char>> {
    if m.connected_class is Some {
        m.connected_class
    } else {
        match m.observation.main_window() {
            Some(w) => Some(w.class),
            None => match windows {
                Some(s) => match first_window(s, WindowKind::Gateway) {
                    Some(i) => Some(s[i].class),
                    None => None,
                },
                None => None,
            },
        }
    }
}

/// What the loss of the session asks for, besides the login.
pub open spec fn loss_effects() -> Effects {
    Effects {
        abort_client_task: true,
        stop_socat: true,
        reset_handlers: true,
        kill_jvm: false,
        remove_socket: false,
    }
}

/// To the login after the session was lost.
pub open spec fn session_lost() -> Plan {
    Plan { effects: loss_effects(), pause_ms: 0, next: Phase::WaitingForLogin }
}

/// The machine after the session was lost.
pub open spec fn class_forgotten(m: Model) -> Model {
    Model { connected_class: None, ..m }
}

/// The windows are to be checked actively: the session has settled, and no event came for
/// half a minute.
pub open spec fn liveness_due(m: Model, now: u128) -> bool {
    span_secs(m.entered_at, now) > 10 && span(m.observation.last_updated, now) > secs_in_nanos(30)
}

/// The session goes on.
pub open spec fn staying_connected() -> StageModel {
    StageModel::Done(pausing(10_000, Phase::Connected))
}

/// The step from `Connected`, in a session whose window class is recorded.
pub open spec fn connected_decision(
    m: Model,
    running: bool,
    token: Option<Seq<char>>,
    port_lost: bool,
    now: u128,
) -> (Model, StageModel) {
    if !running {
        (
            Model { warm_restart: token, ..m },
            StageModel::Done(
                Plan {
                    effects: Effects {
                        abort_client_task: true,
                        stop_socat: true,
                        reset_handlers: false,
                        kill_jvm: false,
                        remove_socket: true,
                    },
                    pause_ms: 0,
                    next: Phase::Restarting,
                },
            ),
        )
    } else if m.observation.relogin_dialog() {
        (
            m,
            StageModel::Done(
                Plan {
                    effects: Effects { abort_client_task: true, stop_socat: true, ..no_effects() },
                    pause_ms: 0,
                    next: Phase::ReconnectingSession,
                },
            ),
        )
    } else if m.observation.session_conflict() {
        (
            m,
            StageModel::Done(
                Plan {
                    effects: Effects { abort_client_task: true, stop_socat: true, ..no_effects() },
                    pause_ms: 0,
                    next: Phase::HandlingSessionConflict,
                },
            ),
        )
    } else if m.observation.login_form() {
        (
            class_forgotten(m),
            StageModel::Done(
                Plan {
                    effects: Effects {
                        abort_client_task: true,
                        reset_handlers: true,
                        ..no_effects()
                    },
                    pause_ms: 0,
                    next: Phase::WaitingForLogin,
                },
            ),
        )
    } else if port_lost {
        (class_forgotten(m), StageModel::Done(session_lost()))
    } else {
        let followed = Model {
            connected_class: match (m.connected_class, m.observation.main_window()) {
                (Some(_), Some(w)) => Some(w.class),
                _ => m.connected_class,
            },
            ..m
        };
        (
            followed,
            if liveness_due(m, now) {
                StageModel::List
            } else {
                staying_connected()
            },
        )
    }
}

/// The step from `Connected`: its stage and the machine after it.
pub open spec fn connected_stage(
    m: Model,
    running: bool,
    token: Option<Seq<char>>,
    windows: Option<Seq<WindowModel>>,
    port_lost: bool,
    now: u128,
) -> (Model, StageModel) {
    let stable = stability_checked(m, now);
    let known = Model { connected_class: class_recorded(stable, windows), ..stable };
    connected_decision(known, running, token, port_lost, now)
}

/// The step from `Connected`, once the windows were listed for the active check.
pub open spec fn liveness_listed(windows: Option<Seq<WindowModel>>) -> StageModel {
    match windows {
        Some(s) => if any_window(s, WindowKind::SecondFactor) {
            StageModel::Done(going(Phase::WaitingFor2fa))
        } else {
            StageModel::Inspect(ids_of(s, WindowKind::Gateway))
        },
        None => staying_connected(),
    }
}

/// The step from `Connected`, once the main windows were inspected: a login form or a
/// disconnected API server means that the session is lost.
pub open spec fn liveness_inspected(m: Model, dumps: Seq<Option<ComponentsModel>>) -> (
    Model,
    StageModel,
) {
    if session_loss_seen(dumps) {
        (class_forgotten(m), StageModel::Done(session_lost()))
    } else {
        (m, StageModel::DispatchAll)
    }
}

/// The step from `ReconnectingSession`, before anything is clicked. In the first half minute
/// the session may come back by itself; too many attempts are given up.
pub open spec fn reconnect_stage(m: Model, windows: Option<Seq<WindowModel>>, now: u128) -> (
    Model,
    StageModel,
) {
    if m.relogin_attempts > m.config.timing.relogin_max_attempts {
        (
            Model { relogin_attempts: 0, ..m },
            StageModel::Cancel(
                match windows {
                    Some(s) => ids_of(s, WindowKind::Relogin),
                    None => Seq::empty(),
                },
                Effects { abort_client_task: true, reset_handlers: true, ..no_effects() },
            ),
        )
    } else if span(m.entered_at, now) < secs_in_nanos(30) {
        (m, StageModel::Done(pausing(2000, Phase::ReconnectingSession)))
    } else {
        match windows {
            Some(s) => match first_window(s, WindowKind::Relogin) {
                Some(i) => (m, StageModel::ClickRelogin(s[i].id)),
                None => (m, StageModel::Confirm),
            },
            None => (m, StageModel::Done(pausing(2000, Phase::ReconnectingSession))),
        }
    }
}

/// The step from `ReconnectingSession`, once it was given up: a restart, or a new login where
/// that is configured and a window for it is there.
pub open spec fn reconnect_given_up(m: Model, windows: Option<Seq<WindowModel>>) -> Plan {
    let window_there = m.observation.login_form() || (windows matches Some(s) && any_window(
        s,
        WindowKind::Gateway,
    ));
    going(
        if m.config.timing.relogin_failure_action == ReloginFailureAction::Reauth && window_there {
            Phase::WaitingForLogin
        } else {
            Phase::Restarting
        },
    )
}

/// To a phase with the handlers reset, and the machine with its attempts forgotten.
pub open spec fn reconnect_turns_to(m: Model, next: Phase) -> (Model, StageModel) {
    (
        Model { relogin_attempts: 0, ..m },
        StageModel::Done(
            Plan { effects: Effects { reset_handlers: true, ..no_effects() }, pause_ms: 0, next },
        ),
    )
}

/// The step from `ReconnectingSession`, once the dialog was gone and the windows were listed
/// again.
pub open spec fn reconnect_listed(m: Model, windows: Option<Seq<WindowModel>>) -> (Model, StageModel) {
    if m.observation.twofa_dialog() {
        reconnect_turns_to(m, Phase::WaitingFor2fa)
    } else {
        match windows {
            Some(s) => if any_window(s, WindowKind::SecondFactor) {
                reconnect_turns_to(m, Phase::WaitingFor2fa)
            } else {
                (m, StageModel::Inspect(ids_of(s, WindowKind::Gateway)))
            },
            None => (m, StageModel::Done(pausing(2000, Phase::ReconnectingSession))),
        }
    }
}

/// The step from `ReconnectingSession`, once the main windows were inspected: a login form
/// means that the session is lost, a window without one that it is back.
pub open spec fn reconnect_inspected(m: Model, dumps: Seq<Option<ComponentsModel>>) -> (
    Model,
    StageModel,
) {
    if login_form_seen(dumps) {
        reconnect_turns_to(m, Phase::WaitingForLogin)
    } else if authenticated_seen(dumps) {
        (Model { relogin_attempts: 0, ..m }, StageModel::Done(going(Phase::Connected)))
    } else {
        (m, StageModel::Done(pausing(2000, Phase::ReconnectingSession)))
    }
}

/// The step from `Restarting`, before the JVM is ended: after the configured delay that is done.
pub open spec fn restart_stage(m: Model, now: u128) -> StageModel {
    let delay = m.config.timing.restart_delay_secs;
    if delay > 0 && span_secs(m.entered_at, now) < delay {
        StageModel::Done(pausing(2000, Phase::Restarting))
    } else {
        StageModel::EndJvm(
            Effects { abort_client_task: true, stop_socat: true, kill_jvm: true, ..no_effects() },
        )
    }
}

/// The step from `Restarting`, once the JVM has ended: what it left is cleared away, and it is
/// launched anew.
pub open spec fn restart_plan() -> Plan {
    Plan {
        effects: Effects { remove_socket: true, reset_handlers: true, ..no_effects() },
        pause_ms: 0,
        next: Phase::Launching,
    }
}

/// Where the machine goes on once the IB system is available: where it came from. A session
/// that was connected has to be confirmed anew.
pub open spec fn resumes_at(return_to: Option<Phase>) -> Phase {
    match return_to {
        Some(Phase::Connected) => Phase::WaitingForApiReady,
        Some(p) => p,
        None => Phase::Init,
    }
}

/// The step from `WaitingForIB`: on with the machine once the system is available.
pub open spec fn ib_stage(m: Model) -> (Model, Plan) {
    if m.ib.available {
        (
            Model { ib: IbModel { return_to: None, ..m.ib }, ..m },
            going(resumes_at(m.ib.return_to)),
        )
    } else {
        (m, pausing(5000, Phase::WaitingForIB))
    }
}

/// The ports that the forwarder joins: the Gateway's and the published one.
pub open spec fn ports(m: Model) -> (u16, u16) {
    if m.config.auth.trading_mode@ == "paper"@ {
        (m.config.gateway.paper_api_port, m.config.gateway.paper_socat_port)
    } else {
        (m.config.gateway.live_api_port, m.config.gateway.live_socat_port)
    }
}

fn give_up_session() -> (r: Outcome)
    ensures
        r@ == session_lost(),
{
    let mut effects = Effects::none();
    effects.abort_client_task = true;
    effects.stop_socat = true;
    effects.reset_handlers = true;
    Outcome::with(effects, State::WaitingForLogin)
}

impl StateMachine {
    /// The ports that the forwarder joins: the Gateway's and the published one.
    pub fn forwarded_ports(&self) -> (r: (u16, u16))
        ensures
            r == ports(self@),
    {
        if same(self.config.auth.trading_mode.as_str(), "paper") {
            (self.config.gateway.paper_api_port, self.config.gateway.paper_socat_port)
        } else {
            (self.config.gateway.live_api_port, self.config.gateway.live_socat_port)
        }
    }

    fn check_stability(&mut self, now: u128)
        ensures
            final(self)@ == stability_checked(old(self)@, now),
            final(self).transition_history == old(self).transition_history,
    {
        if self.config.twofa.backoff.counter_reset == CounterReset::Stable {
            if let Some(t) = self.hitl.connected_continuously_since {
                if at_least(t, now, self.config.twofa.backoff.stable_secs) {
                    self.hitl.consecutive_timeouts = 0;
                    self.hitl.intervals_index = 0;
                }
            }
        }
    }

    fn record_class(&mut self, windows: &Option<Vec<SeenWindow>>)
        ensures
            final(self)@ == (Model {
                connected_class: class_recorded(old(self)@, listed(*windows)),
                ..old(self)@
            }),
            final(self).transition_history == old(self).transition_history,
    {
        if self.connected_window_class.is_none() {
            let class: Option<String> = match self.observation.main_gateway_window() {
                Some(w) => Some(w.class.clone()),
                None => match windows {
                    Some(list) => match find_window(list, WindowKind::Gateway) {
                        Some(i) => {
                            assert(window_models(list@)[i as int].class == list@[i as int].class@);
                            Some(list[i].class.clone())
                        },
                        None => None,
                    },
                    None => None,
                },
            };
            self.connected_window_class = class;
        }
    }

    /// The step from `Connected`. `token` is the session token that the JVM left when it
    /// exited; `windows` are listed for the class of the main window where the cache does not
    /// know it; `port_lost` says that the probe of the API port gave up.
    pub fn do_connected(
        &mut self,
        running: bool,
        token: Option<String>,
        windows: &Option<Vec<SeenWindow>>,
        port_lost: bool,
        now: Moment,
    ) -> (r: Stage)
        requires
            old(self).well_formed(),
        ensures
            final(self).well_formed(),
            (final(self)@, r@) == connected_stage(
                old(self)@,
                running,
                text_view(token),
                listed(*windows),
                port_lost,
                now.nanos,
            ),
    {
        self.check_stability(now.nanos);
        self.record_class(windows);
        self.watch_session(running, token, port_lost, now.nanos)
    }

    fn watch_session(&mut self, running: bool, token: Option<String>, port_lost: bool, now: u128) -> (r:
        Stage)
        requires
            old(self).well_formed(),
        ensures
            final(self).well_formed(),
            (final(self)@, r@) == connected_decision(
                old(self)@,
                running,
                text_view(token),
                port_lost,
                now,
            ),
    {
        if !running {
            let mut effects = Effects::none();
            effects.abort_client_task = true;
            effects.stop_socat = true;
            effects.remove_socket = true;
            self.warm_restart_pending = token;
            return Stage::Done(Outcome::with(effects, State::Restarting));
        }
        if self.observation.has_relogin_dialog() {
            let mut effects = Effects::none();
            effects.abort_client_task = true;
            effects.stop_socat = true;
            return Stage::Done(Outcome::with(effects, State::ReconnectingSession));
        }
        if self.observation.has_session_conflict() {
            let mut effects = Effects::none();
            effects.abort_client_task = true;
            effects.stop_socat = true;
            return Stage::Done(Outcome::with(effects, State::HandlingSessionConflict));
        }
        if self.observation.has_login_form() {
            let mut effects = Effects::none();
            effects.abort_client_task = true;
            effects.reset_handlers = true;
            self.connected_window_class = None;
            return Stage::Done(Outcome::with(effects, State::WaitingForLogin));
        }
        if port_lost {
            self.connected_window_class = None;
            return Stage::Done(give_up_session());
        }
        if self.connected_window_class.is_some() {
            let class: Option<String> = match self.observation.main_gateway_window() {
                Some(w) => Some(w.class.clone()),
                None => None,
            };
            if class.is_some() {
                self.connected_window_class = class;
            }
        }
        if elapsed_secs(self.state_entered_at, now) > 10 && longer_than(
            self.observation.last_updated,
            now,
            30,
        ) {
            Stage::List
        } else {
            Stage::Done(Outcome::pause(10_000, State::Connected))
        }
    }

    /// The step from `Connected`, once the windows were listed for the active check.
    pub fn connected_listed(windows: &Option<Vec<SeenWindow>>) -> (r: Stage)
        ensures
            r@ == liveness_listed(listed(*windows)),
    {
        match windows {
            Some(list) => if has_window(list, WindowKind::SecondFactor) {
                Stage::Done(Outcome::go(State::WaitingFor2fa))
            } else {
                Stage::Inspect(windows_of(list, WindowKind::Gateway))
            },
            None => Stage::Done(Outcome::pause(10_000, State::Connected)),
        }
    }

    /// The step from `Connected`, once the main windows were inspected.
    pub fn connected_inspected(&mut self, dumps: &Vec<Option<SeenComponents>>) -> (r: Stage)
        requires
            old(self).well_formed(),
        ensures
            final(self).well_formed(),
            (final(self)@, r@) == liveness_inspected(old(self)@, dump_models(dumps@)),
    {
        if any_session_loss(dumps) {
            self.connected_window_class = None;
            Stage::Done(give_up_session())
        } else {
            Stage::DispatchAll
        }
    }

    /// The step from `Connected`, once the handlers acted on the windows.
    pub fn connected_reconciled() -> (r: Outcome)
        ensures
            r@ == pausing(10_000, Phase::Connected),
    {
        Outcome::pause(10_000, State::Connected)
    }

    /// The step from `ReconnectingSession`, before anything is clicked.
    pub fn do_reconnecting_session(&mut self, windows: &Option<Vec<SeenWindow>>, now: Moment) -> (r:
        Stage)
        requires
            old(self).well_formed(),
        ensures
            final(self).well_formed(),
            (final(self)@, r@) == reconnect_stage(old(self)@, listed(*windows), now.nanos),
    {
        if self.relogin_attempts > self.config.timing.relogin_max_attempts {
            self.relogin_attempts = 0;
            let dialogs: Vec<WindowId> = match windows {
                Some(list) => windows_of(list, WindowKind::Relogin),
                None => Vec::new(),
            };
            let mut effects = Effects::none();
            effects.abort_client_task = true;
            effects.reset_handlers = true;
            return Stage::Cancel(dialogs, effects);
        }
        if !at_least(self.state_entered_at, now.nanos, 30) {
            return Stage::Done(Outcome::pause(2000, State::ReconnectingSession));
        }
        match windows {
            Some(list) => match find_window(list, WindowKind::Relogin) {
                Some(i) => Stage::ClickRelogin(list[i].id),
                None => Stage::Confirm,
            },
            None => Stage::Done(Outcome::pause(2000, State::ReconnectingSession)),
        }
    }

    /// The step from `ReconnectingSession`, once it was given up and the windows were listed
    /// again.
    pub fn reconnect_cancelled(&self, windows: &Option<Vec<SeenWindow>>) -> (r: Outcome)
        ensures
            r@ == reconnect_given_up(self@, listed(*windows)),
    {
        let gateway_listed: bool = match windows {
            Some(list) => has_window(list, WindowKind::Gateway),
            None => false,
        };
        if self.config.timing.relogin_failure_action == ReloginFailureAction::Reauth && (
        self.observation.has_login_form() || gateway_listed) {
            Outcome::go(State::WaitingForLogin)
        } else {
            Outcome::go(State::Restarting)
        }
    }

    /// The step from `ReconnectingSession`, once Re-login was clicked.
    pub fn relogin_clicked() -> (r: Outcome)
        ensures
            r@ == (Plan {
                effects: Effects { reset_handlers: true, ..no_effects() },
                pause_ms: 5000,
                next: Phase::WaitingForLogin,
            }),
    {
        let mut effects = Effects::none();
        effects.reset_handlers = true;
        Outcome { effects, pause_ms: 5000, next: State::WaitingForLogin }
    }

    fn turn_to(&mut self, next: State) -> (r: Stage)
        requires
            old(self).well_formed(),
        ensures
            final(self).well_formed(),
            (final(self)@, r@) == reconnect_turns_to(old(self)@, next@),
    {
        let mut effects = Effects::none();
        effects.reset_handlers = true;
        self.relogin_attempts = 0;
        Stage::Done(Outcome::with(effects, next))
    }

    /// The step from `ReconnectingSession`, once the dialog was gone and the windows were
    /// listed again.
    pub fn reconnect_listed(&mut self, windows: &Option<Vec<SeenWindow>>) -> (r: Stage)
        requires
            old(self).well_formed(),
        ensures
            final(self).well_formed(),
            (final(self)@, r@) == reconnect_listed(old(self)@, listed(*windows)),
    {
        if self.observation.has_2fa_dialog() {
            return self.turn_to(State::WaitingFor2fa);
        }
        match windows {
            Some(list) => if has_window(list, WindowKind::SecondFactor) {
                self.turn_to(State::WaitingFor2fa)
            } else {
                Stage::Inspect(windows_of(list, WindowKind::Gateway))
            },
            None => Stage::Done(Outcome::pause(2000, State::ReconnectingSession)),
        }
    }

    /// The step from `ReconnectingSession`, once the main windows were inspected.
    pub fn reconnect_inspected(&mut self, dumps: &Vec<Option<SeenComponents>>) -> (r: Stage)
        requires
            old(self).well_formed(),
        ensures
            final(self).well_formed(),
            (final(self)@, r@) == reconnect_inspected(old(self)@, dump_models(dumps@)),
    {
        if any_login_form(dumps) {
            return self.turn_to(State::WaitingForLogin);
        }
        if any_authenticated(dumps) {
            self.relogin_attempts = 0;
            return Stage::Done(Outcome::go(State::Connected));
        }
        Stage::Done(Outcome::pause(2000, State::ReconnectingSession))
    }

    /// The step from `Restarting`, before the JVM is ended.
    pub fn do_restart(&self, now: Moment) -> (r: Stage)
        ensures
            r@ == restart_stage(self@, now.nanos),
    {
        let delay: u64 = self.config.timing.restart_delay_secs;
        if delay > 0 && elapsed_secs(self.state_entered_at, now.nanos) < delay {
            return Stage::Done(Outcome::pause(2000, State::Restarting));
        }
        let mut effects = Effects::none();
        effects.abort_client_task = true;
        effects.stop_socat = true;
        effects.kill_jvm = true;
        Stage::EndJvm(effects)
    }

    /// The step from `Restarting`, once the JVM has ended.
    pub fn jvm_ended() -> (r: Outcome)
        ensures
            r@ == restart_plan(),
    {
        let mut effects = Effects::none();
        effects.remove_socket = true;
        effects.reset_handlers = true;
        Outcome::with(effects, State::Launching)
    }

    /// The step from `WaitingForIB`.
    pub fn do_waiting_for_ib(&mut self) -> (r: Outcome)
        requires
            old(self).well_formed(),
        ensures
            final(self).well_formed(),
            (final(self)@, r@) == ib_stage(old(self)@),
    {
        if self.ib_status.available {
            let back: State = match &self.ib_status.return_state {
                Some(State::Connected) => State::WaitingForApiReady,
                Some(s) => s.clone(),
                None => State::Init,
            };
            self.ib_status.return_state = None;
            return Outcome::go(back);
        }
        Outcome::pause(5000, State::WaitingForIB)
    }

    /// The step of a paused machine: none.
    pub fn do_paused(&self) -> (r: Outcome)
        ensures
            r@ == pausing(500, self@.state),
    {
        Outcome::pause(500, self.state.clone())
    }
}

} // verus!
