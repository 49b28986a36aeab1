//! The machine itself: its data, the bookkeeping on every transition, and what commands,
//! signals and reports do to it.
//!
//! The machine does no input or output. Its driver tells it what was observed, carries out
//! what it asks for, and gives the time with each call.

use std::collections::VecDeque;

use crate::agent_events::{
    button_cleared, empty_observation, AgentEvent, AgentObservation, ObservationModel, ObservedModel,
};
use crate::agent_events::after_event;
use crate::clock::{longer_than, secs_in_nanos, span, timestamp_text, Moment};
use crate::config::{Config, CounterReset};
use crate::state_machine::outcome::{no_effects, Effects};
use crate::state_machine::types::{
    phase_named, IbSystemStatus, PauseControl, Phase, State, Step, Transition,
};
use crate::text::{copy_of, decimal, lowercase, lower_case, same, texts};
use crate::types::{Command, Signal};
use crate::windows::{blocking_phase, classify_lowered};
use vstd::prelude::*;
use vstd::string::*;

verus! {

/// How long a report on the IB system stays valid, in seconds.
pub const IB_STATUS_TTL_SECS: u64 = 600;

/// How many transitions the history keeps.
pub const HISTORY_LIMIT: usize = 100;

/// Counters for the status report.
#[derive(Debug, Clone, Copy, PartialEq, Eq, Structural)]
pub struct Stats {
    pub restarts_today: u32,
    pub relogins_today: u32,
    pub dialogs_dismissed: u32,
}

impl Default for Stats {
    fn default() -> (r: Self)
        ensures
            r == (Stats { restarts_today: 0, relogins_today: 0, dialogs_dismissed: 0 }),
    {
        Stats { restarts_today: 0, relogins_today: 0, dialogs_dismissed: 0 }
    }
}

/// What the wait for the operator keeps track of.
#[derive(Debug, Clone, Copy, PartialEq, Eq, Structural)]
pub struct HitlState {
    /// 2FA timeouts in a row.
    pub consecutive_timeouts: u32,
    /// When the wait began, while it lasts.
    pub entered_at: Option<u128>,
    /// When the next retry is due, where the strategy has a timer.
    pub next_retry_at: Option<u128>,
    /// The entry of the schedule in use.
    pub intervals_index: usize,
    /// Notifications tried during this wait.
    pub ntfy_attempts: u32,
    /// Whether one of them got through.
    pub ntfy_sent: bool,
    /// Since when the machine has been connected without a break.
    pub connected_continuously_since: Option<u128>,
    /// A cold restart came during the wait and is held back until it ends.
    pub cold_restart_deferred: bool,
}

/// No timeouts yet, no wait.
pub open spec fn fresh_hitl() -> HitlState {
    HitlState {
        consecutive_timeouts: 0,
        entered_at: None,
        next_retry_at: None,
        intervals_index: 0,
        ntfy_attempts: 0,
        ntfy_sent: false,
        connected_continuously_since: None,
        cold_restart_deferred: false,
    }
}

/// The state machine that drives the Gateway through its lifecycle. Points in time are
/// nanoseconds on the monotonic scale.
#[derive(Debug)]
pub struct StateMachine {
    pub state: State,
    pub config: Config,
    /// Whether a TOTP secret is configured.
    pub has_totp_secret: bool,
    pub pause: PauseControl,
    pub ib_status: IbSystemStatus,
    pub start_time: u128,
    pub connected_since: Option<u128>,
    pub transition_history: VecDeque<Transition>,
    pub cached_client_ids: Vec<String>,
    /// Attempts to configure the API in a row.
    pub config_retries: u32,
    /// The session token to resume with, while a warm restart is under way.
    pub warm_restart_pending: Option<String>,
    /// Appearances of the re-login dialog in a row.
    pub relogin_attempts: u32,
    /// The class of the main window while connected.
    pub connected_window_class: Option<String>,
    /// Whether the 2FA device was picked in this login.
    pub twofa_device_selected: bool,
    /// Whether the 2FA dialog was seen since the state was entered.
    pub twofa_seen: bool,
    /// When the 2FA dialog was first missed after it was seen.
    pub twofa_gone_at: Option<u128>,
    pub state_entered_at: u128,
    /// When a popup was last dismissed since the state was entered.
    pub popup_last_dismissed: Option<u128>,
    /// Failed exchanges with the agent in a row.
    pub consecutive_agent_failures: u32,
    pub observation: AgentObservation,
    pub stats: Stats,
    pub snapshot_version: u64,
    pub hitl: HitlState,
}

/// The machine as a mathematical value.
pub struct Model {
    pub state: Phase,
    pub config: Config,
    pub has_totp_secret: bool,
    pub paused: bool,
    pub ceiling: Option<Phase>,
    pub ib: IbModel,
    pub start_time: u128,
    pub connected_since: Option<u128>,
    pub history: Seq<Step>,
    pub client_ids: Seq<Seq<char>>,
    pub config_retries: u32,
    pub warm_restart: Option<Seq<char>>,
    pub relogin_attempts: u32,
    pub connected_class: Option<Seq<char>>,
    pub device_selected: bool,
    pub twofa_seen: bool,
    pub twofa_gone_at: Option<u128>,
    pub entered_at: u128,
    pub popup_dismissed: Option<u128>,
    pub agent_failures: u32,
    pub observation: ObservationModel,
    pub stats: Stats,
    pub snapshot_version: u64,
    pub hitl: HitlState,
}

/// The report on the IB system as a mathematical value.
pub struct IbModel {
    pub available: bool,
    pub status: Seq<char>,
    pub reason: Seq<char>,
    pub updated: Option<u128>,
    pub return_to: Option<Phase>,
}

/// The view of a state that may be missing.
pub open spec fn phase_of(s: Option<State>) -> Option<Phase> {
    match s {
        Some(x) => Some(x@),
        None => None,
    }
}

/// The view of a text that may be missing.
pub open spec fn text_view(s: Option<String>) -> Option<Seq<char>> {
    match s {
        Some(x) => Some(x@),
        None => None,
    }
}

/// The recorded transitions as mathematical values.
pub open spec fn steps_of(s: Seq<Transition>) -> Seq<Step> {
    s.map_values(|t: Transition| t@)
}

impl View for IbSystemStatus {
    type V = IbModel;

    open spec fn view(&self) -> IbModel {
        IbModel {
            available: self.available,
            status: self.status@,
            reason: self.reason@,
            updated: self.last_updated,
            return_to: phase_of(self.return_state),
        }
    }
}

impl View for StateMachine {
    type V = Model;

    open spec fn view(&self) -> Model {
        Model {
            state: self.state@,
            config: self.config,
            has_totp_secret: self.has_totp_secret,
            paused: self.pause.paused,
            ceiling: phase_of(self.pause.ceiling_state),
            ib: self.ib_status@,
            start_time: self.start_time,
            connected_since: self.connected_since,
            history: steps_of(self.transition_history@),
            client_ids: texts(self.cached_client_ids@),
            config_retries: self.config_retries,
            warm_restart: text_view(self.warm_restart_pending),
            relogin_attempts: self.relogin_attempts,
            connected_class: text_view(self.connected_window_class),
            device_selected: self.twofa_device_selected,
            twofa_seen: self.twofa_seen,
            twofa_gone_at: self.twofa_gone_at,
            entered_at: self.state_entered_at,
            popup_dismissed: self.popup_last_dismissed,
            agent_failures: self.consecutive_agent_failures,
            observation: self.observation@,
            stats: self.stats,
            snapshot_version: self.snapshot_version,
            hitl: self.hitl,
        }
    }
}

/// One more, up to the largest number.
pub open spec fn one_more(n: u32) -> u32 {
    if n < u32::MAX {
        (n + 1) as u32
    } else {
        n
    }
}

/// One more, up to the largest number.
pub fn increased(n: u32) -> (r: u32)
    ensures
        r == one_more(n),
{
    if n < u32::MAX {
        n + 1
    } else {
        n
    }
}

/// The history with a transition added: none where nothing changed, and the oldest makes way
/// once the history is full.
pub open spec fn recorded(history: Seq<Step>, from: Phase, to: Phase, epoch_secs: u64) -> Seq<Step> {
    if from == to {
        history
    } else {
        let step = Step {
            timestamp: decimal(epoch_secs as nat),
            from: from.name(),
            to: to.name(),
        };
        if history.len() >= 100 {
            history.drop_first().push(step)
        } else {
            history.push(step)
        }
    }
}

/// The wait for the operator after the machine came to another phase by command: its timer goes
/// on only in that wait, and a session counts as unbroken only where it stays connected.
pub open spec fn hitl_left(h: HitlState, next: Phase) -> HitlState {
    HitlState {
        entered_at: if next is WaitingForHitl2fa {
            h.entered_at
        } else {
            None
        },
        next_retry_at: if next is WaitingForHitl2fa {
            h.next_retry_at
        } else {
            None
        },
        connected_continuously_since: if next is Connected {
            h.connected_continuously_since
        } else {
            None
        },
        ..h
    }
}

/// The machine put into another phase by command, with or without a record of it.
pub open spec fn forced(m: Model, next: Phase, record: bool, now: Moment) -> Model {
    Model {
        state: next,
        history: if record {
            recorded(m.history, m.state, next, now.epoch_secs)
        } else {
            m.history
        },
        hitl: hitl_left(m.hitl, next),
        ..m
    }
}

/// When the retry that follows a wait begun at `now` is due.
pub open spec fn retry_at(config: Config, index: usize, now: u128) -> Option<u128> {
    let intervals = config.twofa.backoff.intervals_minutes@;
    if config.twofa.backoff.strategy.timed() && intervals.len() > 0 {
        let i = if index < intervals.len() {
            index as int
        } else {
            intervals.len() - 1
        };
        let due = now + intervals[i] * 60_000_000_000;
        if due <= u128::MAX {
            Some(due as u128)
        } else {
            Some(u128::MAX)
        }
    } else {
        None
    }
}

/// What entering a phase makes of the wait for the operator and its counters.
pub open spec fn hitl_entering(m: Model, next: Phase, now: u128) -> HitlState {
    if next is WaitingForHitl2fa {
        HitlState {
            entered_at: Some(now),
            next_retry_at: retry_at(m.config, m.hitl.intervals_index, now),
            ntfy_attempts: 0,
            ntfy_sent: false,
            connected_continuously_since: None,
            ..m.hitl
        }
    } else if next is Connected {
        let reset = m.config.twofa.backoff.counter_reset == CounterReset::AnyReach;
        HitlState {
            consecutive_timeouts: if reset {
                0
            } else {
                m.hitl.consecutive_timeouts
            },
            intervals_index: if reset {
                0
            } else {
                m.hitl.intervals_index
            },
            entered_at: None,
            next_retry_at: None,
            connected_continuously_since: if m.state is Connected {
                m.hitl.connected_continuously_since
            } else {
                Some(now)
            },
            ..m.hitl
        }
    } else {
        HitlState {
            entered_at: None,
            next_retry_at: None,
            connected_continuously_since: None,
            ..m.hitl
        }
    }
}

/// The phases in which a login button that was seen before no longer counts.
pub open spec fn past_login(p: Phase) -> bool {
    p is DismissingPopups || p is WaitingFor2fa || p is WaitingForApiReady || p is ConfiguringApi
        || p is Connected
}

/// The cache of windows after the login buttons were cleared.
pub open spec fn buttons_cleared(o: ObservationModel) -> ObservationModel {
    ObservationModel {
        windows: o.windows.map_values(|w: ObservedModel| button_cleared(w)),
        ..o
    }
}

/// What entering a phase makes of the cache of windows: a JVM that is killed or started makes
/// it stale, and past the login its buttons no longer count.
pub open spec fn observation_entering(o: ObservationModel, next: Phase, now: u128) -> ObservationModel {
    if next is Restarting || next is Launching {
        empty_observation(now)
    } else if past_login(next) {
        buttons_cleared(o)
    } else {
        o
    }
}

/// Since when the machine has been connected, once it enters a phase.
pub open spec fn connected_since_entering(m: Model, next: Phase, now: u128) -> Option<u128> {
    if next is Connected {
        if m.state is Connected {
            m.connected_since
        } else {
            Some(now)
        }
    } else {
        None
    }
}

/// The appearances of the re-login dialog in a row, once the machine enters a phase.
pub open spec fn relogins_entering(m: Model, next: Phase) -> u32 {
    if next is Connected && !(m.state is Connected) {
        0
    } else if next is ReconnectingSession {
        one_more(m.relogin_attempts)
    } else {
        m.relogin_attempts
    }
}

/// The phases that begin a new login or a new 2FA cycle.
pub open spec fn starts_login(p: Phase) -> bool {
    p is WaitingForLogin || p is WaitingFor2fa || p is Launching || p is Restarting
}

/// The machine after a transition to another phase.
///
/// An error is recorded as such and recovered from by a restart.
pub open spec fn entered(m: Model, next: Phase, now: Moment) -> Model {
    let hit_ceiling = m.ceiling == Some(next);
    Model {
        state: if next is Error {
            Phase::Restarting
        } else {
            next
        },
        paused: m.paused || hit_ceiling,
        ceiling: if hit_ceiling {
            None
        } else {
            m.ceiling
        },
        history: recorded(m.history, m.state, next, now.epoch_secs),
        entered_at: now.nanos,
        agent_failures: 0,
        connected_since: connected_since_entering(m, next, now.nanos),
        relogin_attempts: relogins_entering(m, next),
        device_selected: !starts_login(next) && m.device_selected,
        twofa_seen: !(next is WaitingFor2fa) && m.twofa_seen,
        twofa_gone_at: if next is WaitingFor2fa {
            None
        } else {
            m.twofa_gone_at
        },
        popup_dismissed: if next is DismissingPopups {
            None
        } else {
            m.popup_dismissed
        },
        observation: observation_entering(m.observation, next, now.nanos),
        hitl: hitl_entering(m, next, now.nanos),
        ..m
    }
}

/// What a clean shutdown asks for.
pub open spec fn shutdown_effects() -> Effects {
    Effects {
        abort_client_task: true,
        stop_socat: true,
        reset_handlers: false,
        kill_jvm: true,
        remove_socket: true,
    }
}

/// A report that the IB system is unavailable lapses when it is too old.
pub open spec fn ttl_checked(m: Model, now: u128) -> Model {
    if m.ib.updated matches Some(at) && span(at, now) > secs_in_nanos(IB_STATUS_TTL_SECS)
        && !m.ib.available {
        Model {
            ib: IbModel {
                available: true,
                status: "available"@,
                reason: Seq::empty(),
                ..m.ib
            },
            ..m
        }
    } else {
        m
    }
}

/// The IB system is unavailable and the machine has to wait for it: everywhere but where it
/// waits already, stands by or ends, and in a connected session only where that is configured.
pub open spec fn must_wait_for_ib(m: Model) -> bool {
    !m.ib.available && !(m.state is WaitingForIB || m.state is Shutdown
        || m.state is WaitingForLaunch) && (!(m.state is Connected)
        || m.config.ib_status.kick_active_session)
}

/// The machine after the check of the IB system.
pub open spec fn availability_checked(m: Model, now: Moment) -> Model {
    if must_wait_for_ib(m) {
        let left = forced(m, Phase::WaitingForIB, true, now);
        Model { ib: IbModel { return_to: Some(m.state), ..m.ib }, ..left }
    } else {
        m
    }
}

/// The machine after a cold restart that was held back had its chance.
pub open spec fn deferral_checked(m: Model) -> Model {
    if m.hitl.cold_restart_deferred && !(m.state is WaitingForHitl2fa) {
        let next = if m.state is Shutdown || m.state is WaitingForLaunch {
            m.state
        } else {
            Phase::Restarting
        };
        Model {
            state: next,
            hitl: HitlState { cold_restart_deferred: false, ..hitl_left(m.hitl, next) },
            ..m
        }
    } else {
        m
    }
}

/// The effects of a cold restart that was held back.
pub open spec fn deferral_effects(m: Model) -> Effects {
    Effects { abort_client_task: deferral_checked(m).state != m.state, ..no_effects() }
}

/// What the driver does for a command, besides its effects.
#[derive(Debug, PartialEq, Eq)]
pub enum CommandAction {
    Nothing,
    /// Stop the port forwarder and start it anew.
    RestartSocat,
    /// Send this keystroke to the first window.
    SendKey(String),
    /// Set the auto-restart time in the Gateway's configuration.
    SetRestartTime(String),
}

/// What a command asks the driver for, as a mathematical value.
pub enum ActionModel {
    Nothing,
    RestartSocat,
    SendKey(Seq<char>),
    SetRestartTime(Seq<char>),
}

impl View for CommandAction {
    type V = ActionModel;

    open spec fn view(&self) -> ActionModel {
        match self {
            CommandAction::Nothing => ActionModel::Nothing,
            CommandAction::RestartSocat => ActionModel::RestartSocat,
            CommandAction::SendKey(k) => ActionModel::SendKey(k@),
            CommandAction::SetRestartTime(t) => ActionModel::SetRestartTime(t@),
        }
    }
}

/// What a command asks the driver for.
pub open spec fn command_action(c: Command) -> ActionModel {
    match c {
        Command::RestartSocat => ActionModel::RestartSocat,
        Command::ReconnectData => ActionModel::SendKey("ctrl+f"@),
        Command::ReconnectAccount => ActionModel::SendKey("ctrl+r"@),
        Command::SetRestartTime(t) => ActionModel::SetRestartTime(t@),
        _ => ActionModel::Nothing,
    }
}

/// The machine after a command.
pub open spec fn commanded(m: Model, c: Command, now: Moment) -> Model {
    match c {
        Command::Stop => if m.state is WaitingForLaunch {
            m
        } else {
            forced(m, Phase::WaitingForLaunch, true, now)
        },
        Command::Exit => forced(m, Phase::Shutdown, false, now),
        Command::Start => if m.state is WaitingForLaunch {
            forced(m, Phase::Init, true, now)
        } else {
            m
        },
        Command::Restart => forced(m, Phase::Restarting, false, now),
        Command::HitlResume => if m.state is WaitingForHitl2fa {
            forced(m, Phase::Restarting, true, now)
        } else {
            m
        },
        Command::IbStatus(status, reason) => Model {
            ib: IbModel {
                available: status@ == "available"@,
                status: status@,
                reason: reason@,
                updated: Some(now.nanos),
                ..m.ib
            },
            ..m
        },
        Command::Pause => Model { paused: true, ceiling: None, ..m },
        Command::PauseAt(name) => match phase_named(name@) {
            Some(target) => if target == m.state {
                Model { paused: true, ceiling: None, ..m }
            } else {
                Model { ceiling: Some(target), ..m }
            },
            None => m,
        },
        Command::Resume => Model { paused: false, ceiling: None, ..m },
        Command::SetState(name) => match phase_named(name@) {
            Some(target) => forced(m, target, true, now),
            None => m,
        },
        Command::RestartSocat | Command::ReconnectData | Command::ReconnectAccount
        | Command::EnableApi | Command::SetRestartTime(_) => m,
    }
}

/// The effects of a command.
pub open spec fn command_effects(m: Model, c: Command) -> Effects {
    match c {
        Command::Stop => if m.state is WaitingForLaunch {
            no_effects()
        } else {
            Effects {
                abort_client_task: true,
                stop_socat: true,
                reset_handlers: true,
                kill_jvm: true,
                remove_socket: true,
            }
        },
        Command::Exit | Command::Restart => Effects { abort_client_task: true, ..no_effects() },
        Command::HitlResume => Effects {
            abort_client_task: m.state is WaitingForHitl2fa,
            ..no_effects()
        },
        _ => no_effects(),
    }
}

/// Whether a cold restart is held back: the machine waits for the operator, and the
/// configuration says that this goes first.
pub open spec fn defers_cold_restart(m: Model) -> bool {
    m.state is WaitingForHitl2fa && !m.config.twofa.backoff.cold_restart_preempts_hitl
}

/// The machine after the weekly cold restart came due.
pub open spec fn cold_restarted(m: Model, now: Moment) -> Model {
    if defers_cold_restart(m) {
        Model { hitl: HitlState { cold_restart_deferred: true, ..m.hitl }, ..m }
    } else {
        forced(m, Phase::Restarting, false, now)
    }
}

impl StateMachine {
    /// The history is within its limit.
    pub open spec fn well_formed(&self) -> bool {
        self.transition_history@.len() <= 100
    }

    /// A machine at the beginning of its lifecycle.
    pub fn new(config: Config, has_totp_secret: bool, now: Moment) -> (r: Self)
        ensures
            r.well_formed(),
            r@ == initial(config, has_totp_secret, now),
    {
        let r = StateMachine {
            state: State::Init,
            config,
            has_totp_secret,
            pause: PauseControl::new(),
            ib_status: IbSystemStatus::new(),
            start_time: now.nanos,
            connected_since: None,
            transition_history: VecDeque::new(),
            cached_client_ids: Vec::new(),
            config_retries: 0,
            warm_restart_pending: None,
            relogin_attempts: 0,
            connected_window_class: None,
            twofa_device_selected: false,
            twofa_seen: false,
            twofa_gone_at: None,
            state_entered_at: now.nanos,
            popup_last_dismissed: None,
            consecutive_agent_failures: 0,
            observation: AgentObservation::new(now.nanos),
            stats: Stats::default(),
            snapshot_version: 0,
            hitl: HitlState {
                consecutive_timeouts: 0,
                entered_at: None,
                next_retry_at: None,
                intervals_index: 0,
                ntfy_attempts: 0,
                ntfy_sent: false,
                connected_continuously_since: None,
                cold_restart_deferred: false,
            },
        };
        assert(r@.history =~= Seq::<Step>::empty());
        assert(r@.client_ids =~= Seq::<Seq<char>>::empty());
        r
    }

    /// Stands by instead of launching, where the site is configured so.
    pub fn begin(&mut self)
        requires
            old(self).well_formed(),
        ensures
            final(self).well_formed(),
            final(self)@ == begun(old(self)@),
    {
        if !self.config.site.auto_launch && matches!(self.state, State::Init) {
            self.state = State::WaitingForLaunch;
        }
    }

    /// Adds a transition to the history.
    pub fn record_transition(&mut self, from: &State, to: &State, epoch_secs: u64)
        requires
            old(self).well_formed(),
        ensures
            final(self).well_formed(),
            final(self)@ == (Model {
                history: recorded(old(self)@.history, from@, to@, epoch_secs),
                ..old(self)@
            }),
    {
        if from.same_as(to) {
            return;
        }
        let ghost before = self.transition_history@;
        if self.transition_history.len() >= HISTORY_LIMIT {
            let _ = self.transition_history.pop_front();
            assert(self.transition_history@ =~= before.drop_first());
        }
        let t = Transition {
            timestamp: timestamp_text(epoch_secs),
            from: from.to_string(),
            to: to.to_string(),
        };
        let ghost mid = self.transition_history@;
        let ghost step = t@;
        self.transition_history.push_back(t);
        proof {
            assert(steps_of(self.transition_history@) =~= steps_of(mid).push(step));
            if before.len() >= 100 {
                assert(steps_of(mid) =~= steps_of(before).drop_first());
            }
        }
    }

    /// Puts the machine into a state by command.
    fn force(&mut self, next: State, record: bool, now: Moment)
        requires
            old(self).well_formed(),
        ensures
            final(self).well_formed(),
            final(self)@ == forced(old(self)@, next@, record, now),
    {
        if record {
            let from = self.state.clone();
            self.record_transition(&from, &next, now.epoch_secs);
        }
        self.leave_hitl(&next);
        self.state = next;
    }

    fn leave_hitl(&mut self, next: &State)
        ensures
            *final(self) == (StateMachine {
                hitl: hitl_left(old(self).hitl, next@),
                ..*old(self)
            }),
    {
        if !matches!(next, State::WaitingForHitl2fa) {
            self.hitl.entered_at = None;
            self.hitl.next_retry_at = None;
        }
        if !matches!(next, State::Connected) {
            self.hitl.connected_continuously_since = None;
        }
    }

    /// When the retry that follows a wait begun now is due.
    pub fn next_retry(&self, now: u128) -> (r: Option<u128>)
        ensures
            r == retry_at(self@.config, self@.hitl.intervals_index, now),
    {
        let n: usize = self.config.twofa.backoff.intervals_minutes.len();
        if self.config.twofa.backoff.strategy.has_timer() && n > 0 {
            let i: usize = if self.hitl.intervals_index < n {
                self.hitl.intervals_index
            } else {
                n - 1
            };
            let minutes: u128 = self.config.twofa.backoff.intervals_minutes[i] as u128;
            let wait: u128 = minutes * 60_000_000_000;
            if now <= u128::MAX - wait {
                Some(now + wait)
            } else {
                Some(u128::MAX)
            }
        } else {
            None
        }
    }

    /// Carries out a transition: history, ceiling, the trackers of the new state, and recovery
    /// from errors.
    pub fn apply_transition(&mut self, next: State, now: Moment) -> (r: Effects)
        requires
            old(self).well_formed(),
        ensures
            final(self).well_formed(),
            final(self)@ == entered(old(self)@, next@, now),
            r == if next@ is Shutdown {
                shutdown_effects()
            } else {
                no_effects()
            },
    {
        let from = self.state.clone();
        self.record_transition(&from, &next, now.epoch_secs);
        self.meet_ceiling(&next);
        self.reset_connection(&next, now.nanos);
        self.reset_login(&next);
        self.refresh_observation(&next, now.nanos);
        self.enter_hitl(&next, now.nanos);
        self.state_entered_at = now.nanos;
        self.consecutive_agent_failures = 0;
        let shutting_down: bool = matches!(next, State::Shutdown);
        if matches!(next, State::Error(_)) {
            self.state = State::Restarting;
        } else {
            self.state = next;
        }
        if shutting_down {
            Effects {
                abort_client_task: true,
                stop_socat: true,
                reset_handlers: false,
                kill_jvm: true,
                remove_socket: true,
            }
        } else {
            Effects::none()
        }
    }

    /// Pauses where the state to be entered is the ceiling.
    fn meet_ceiling(&mut self, next: &State)
        ensures
            final(self)@ == (Model {
                paused: old(self)@.paused || old(self)@.ceiling == Some(next@),
                ceiling: if old(self)@.ceiling == Some(next@) {
                    None
                } else {
                    old(self)@.ceiling
                },
                ..old(self)@
            }),
            final(self).transition_history == old(self).transition_history,
    {
        let hit_ceiling: bool = match &self.pause.ceiling_state {
            Some(c) => c.same_as(next),
            None => false,
        };
        if hit_ceiling {
            self.pause.paused = true;
            self.pause.ceiling_state = None;
        }
    }

    fn reset_connection(&mut self, next: &State, now: u128)
        ensures
            *final(self) == (StateMachine {
                connected_since: connected_since_entering(old(self)@, next@, now),
                relogin_attempts: relogins_entering(old(self)@, next@),
                ..*old(self)
            }),
    {
        let was_connected: bool = matches!(self.state, State::Connected);
        match next {
            State::Connected => {
                if !was_connected {
                    self.connected_since = Some(now);
                    self.relogin_attempts = 0;
                }
            },
            State::ReconnectingSession => {
                self.connected_since = None;
                self.relogin_attempts = increased(self.relogin_attempts);
            },
            _ => {
                self.connected_since = None;
            },
        }
    }

    fn reset_login(&mut self, next: &State)
        ensures
            *final(self) == (StateMachine {
                twofa_device_selected: !starts_login(next@) && old(self).twofa_device_selected,
                twofa_seen: !(next@ is WaitingFor2fa) && old(self).twofa_seen,
                twofa_gone_at: if next@ is WaitingFor2fa {
                    None
                } else {
                    old(self).twofa_gone_at
                },
                popup_last_dismissed: if next@ is DismissingPopups {
                    None
                } else {
                    old(self).popup_last_dismissed
                },
                ..*old(self)
            }),
    {
        match next {
            State::WaitingForLogin | State::Launching | State::Restarting => {
                self.twofa_device_selected = false;
            },
            State::WaitingFor2fa => {
                self.twofa_device_selected = false;
                self.twofa_seen = false;
                self.twofa_gone_at = None;
            },
            State::DismissingPopups => {
                self.popup_last_dismissed = None;
            },
            _ => {},
        }
    }

    fn refresh_observation(&mut self, next: &State, now: u128)
        ensures
            final(self)@ == (Model {
                observation: observation_entering(old(self)@.observation, next@, now),
                ..old(self)@
            }),
            final(self).transition_history == old(self).transition_history,
    {
        match next {
            State::Restarting | State::Launching => {
                self.observation = AgentObservation::new(now);
            },
            State::DismissingPopups | State::WaitingFor2fa | State::WaitingForApiReady
            | State::ConfiguringApi | State::Connected => {
                self.observation.clear_login_buttons();
            },
            _ => {},
        }
    }

    fn enter_hitl(&mut self, next: &State, now: u128)
        ensures
            *final(self) == (StateMachine {
                hitl: hitl_entering(old(self)@, next@, now),
                ..*old(self)
            }),
    {
        match next {
            State::WaitingForHitl2fa => {
                self.hitl.next_retry_at = self.next_retry(now);
                self.hitl.entered_at = Some(now);
                self.hitl.ntfy_attempts = 0;
                self.hitl.ntfy_sent = false;
                self.hitl.connected_continuously_since = None;
            },
            State::Connected => {
                if self.config.twofa.backoff.counter_reset == CounterReset::AnyReach {
                    self.hitl.consecutive_timeouts = 0;
                    self.hitl.intervals_index = 0;
                }
                self.hitl.entered_at = None;
                self.hitl.next_retry_at = None;
                if !matches!(self.state, State::Connected) {
                    self.hitl.connected_continuously_since = Some(now);
                }
            },
            _ => {
                self.hitl.entered_at = None;
                self.hitl.next_retry_at = None;
                self.hitl.connected_continuously_since = None;
            },
        }
    }

    /// Takes the state that a step gave: a transition where it differs from the present one.
    pub fn settle(&mut self, next: State, now: Moment) -> (r: Effects)
        requires
            old(self).well_formed(),
        ensures
            final(self).well_formed(),
            final(self)@ == settled(old(self)@, next@, now),
            r == if next@ != old(self)@.state && next@ is Shutdown {
                shutdown_effects()
            } else {
                no_effects()
            },
    {
        if next.same_as(&self.state) {
            Effects::none()
        } else {
            self.apply_transition(next, now)
        }
    }

    /// Whether the present state acts on the Gateway's windows, so that events must not
    /// interrupt it.
    pub fn action_in_progress(&self) -> (r: bool)
        ensures
            r == (self@.state is Authenticating || self@.state is ConfiguringApi
                || self@.state is HandlingSessionConflict),
    {
        matches!(
            self.state,
            State::Authenticating | State::ConfiguringApi | State::HandlingSessionConflict
        )
    }

    /// Lets a report that the IB system is unavailable lapse once it is too old.
    pub fn check_ib_status_ttl(&mut self, now: u128)
        requires
            old(self).well_formed(),
        ensures
            final(self).well_formed(),
            final(self)@ == ttl_checked(old(self)@, now),
    {
        if let Some(last) = self.ib_status.last_updated {
            if longer_than(last, now, IB_STATUS_TTL_SECS) && !self.ib_status.available {
                self.ib_status.available = true;
                self.ib_status.status = copy_of("available");
                self.ib_status.reason = String::new();
            }
        }
    }

    /// Goes to wait for the IB system where it is unavailable.
    pub fn check_ib_system_availability(&mut self, now: Moment)
        requires
            old(self).well_formed(),
        ensures
            final(self).well_formed(),
            final(self)@ == availability_checked(old(self)@, now),
    {
        if !self.ib_status.available && !matches!(
            self.state,
            State::WaitingForIB | State::Shutdown | State::WaitingForLaunch
        ) && (!matches!(self.state, State::Connected) || self.config.ib_status.kick_active_session) {
            let back = self.state.clone();
            self.ib_status.return_state = Some(back);
            self.force(State::WaitingForIB, true, now);
        }
    }

    /// Carries out a cold restart that was held back, once the wait for the operator is over.
    pub fn check_deferred_cold_restart(&mut self) -> (r: Effects)
        requires
            old(self).well_formed(),
        ensures
            final(self).well_formed(),
            final(self)@ == deferral_checked(old(self)@),
            r == deferral_effects(old(self)@),
    {
        let mut effects = Effects::none();
        if self.hitl.cold_restart_deferred && !matches!(self.state, State::WaitingForHitl2fa) {
            self.hitl.cold_restart_deferred = false;
            if !matches!(self.state, State::Shutdown | State::WaitingForLaunch | State::Restarting) {
                self.state = State::Restarting;
                effects.abort_client_task = true;
            }
            let next = self.state.clone();
            self.leave_hitl(&next);
        }
        effects
    }

    /// What is done before every step: the checks of the IB system and of a cold restart that
    /// was held back.
    pub fn before_step(&mut self, now: Moment) -> (r: Effects)
        requires
            old(self).well_formed(),
        ensures
            final(self).well_formed(),
            final(self)@ == prepared(old(self)@, now),
            r == deferral_effects(old(self)@),
    {
        let effects = self.check_deferred_cold_restart();
        self.check_ib_status_ttl(now.nanos);
        self.check_ib_system_availability(now);
        effects
    }

    /// Carries out a command.
    pub fn dispatch_command(&mut self, cmd: &Command, now: Moment) -> (r: (Effects, CommandAction))
        requires
            old(self).well_formed(),
        ensures
            final(self).well_formed(),
            final(self)@ == commanded(old(self)@, *cmd, now),
            r.0 == command_effects(old(self)@, *cmd),
            r.1@ == command_action(*cmd),
    {
        let mut effects = Effects::none();
        match cmd {
            Command::Stop => {
                if !matches!(self.state, State::WaitingForLaunch) {
                    effects.abort_client_task = true;
                    effects.stop_socat = true;
                    effects.reset_handlers = true;
                    effects.kill_jvm = true;
                    effects.remove_socket = true;
                    self.force(State::WaitingForLaunch, true, now);
                }
            },
            Command::Exit => {
                effects.abort_client_task = true;
                self.force(State::Shutdown, false, now);
            },
            Command::Start => {
                if matches!(self.state, State::WaitingForLaunch) {
                    self.force(State::Init, true, now);
                }
            },
            Command::Restart => {
                effects.abort_client_task = true;
                self.force(State::Restarting, false, now);
            },
            Command::HitlResume => {
                if matches!(self.state, State::WaitingForHitl2fa) {
                    effects.abort_client_task = true;
                    self.force(State::Restarting, true, now);
                }
            },
            other => {
                let action = self.handle_command(other, now);
                return (effects, action);
            },
        }
        (effects, CommandAction::Nothing)
    }

    /// Carries out a command that leaves the lifecycle alone, or forces a state.
    pub fn handle_command(&mut self, cmd: &Command, now: Moment) -> (r: CommandAction)
        requires
            old(self).well_formed(),
        ensures
            final(self).well_formed(),
            final(self)@ == match *cmd {
                Command::Stop | Command::Exit | Command::Start | Command::Restart
                | Command::HitlResume => old(self)@,
                _ => commanded(old(self)@, *cmd, now),
            },
            r@ == command_action(*cmd),
    {
        match cmd {
            Command::IbStatus(status, reason) => {
                self.ib_status.available = same(status.as_str(), "available");
                self.ib_status.status = status.clone();
                self.ib_status.reason = reason.clone();
                self.ib_status.last_updated = Some(now.nanos);
                CommandAction::Nothing
            },
            Command::RestartSocat => CommandAction::RestartSocat,
            Command::ReconnectData => CommandAction::SendKey(copy_of("ctrl+f")),
            Command::ReconnectAccount => CommandAction::SendKey(copy_of("ctrl+r")),
            Command::Pause => {
                self.pause.paused = true;
                self.pause.ceiling_state = None;
                CommandAction::Nothing
            },
            Command::PauseAt(name) => {
                if let Some(target) = State::from_name(name.as_str()) {
                    if target.same_as(&self.state) {
                        self.pause.paused = true;
                        self.pause.ceiling_state = None;
                    } else {
                        self.pause.ceiling_state = Some(target);
                    }
                }
                CommandAction::Nothing
            },
            Command::Resume => {
                self.pause.paused = false;
                self.pause.ceiling_state = None;
                CommandAction::Nothing
            },
            Command::SetState(name) => {
                if let Some(target) = State::from_name(name.as_str()) {
                    self.force(target, true, now);
                }
                CommandAction::Nothing
            },
            Command::SetRestartTime(t) => CommandAction::SetRestartTime(t.clone()),
            _ => CommandAction::Nothing,
        }
    }

    /// Ends the machine on a signal.
    pub fn handle_signal(&mut self, signal: Signal, now: Moment) -> (r: Effects)
        requires
            old(self).well_formed(),
        ensures
            final(self).well_formed(),
            final(self)@ == forced(old(self)@, Phase::Shutdown, false, now),
            r == (Effects { abort_client_task: true, ..no_effects() }),
    {
        match signal {
            Signal::Terminate | Signal::Interrupt => {
                self.force(State::Shutdown, false, now);
            },
        }
        let mut effects = Effects::none();
        effects.abort_client_task = true;
        effects
    }

    /// Carries out the weekly cold restart, or holds it back while the operator is waited for.
    pub fn handle_cold_restart(&mut self, now: Moment) -> (r: Effects)
        requires
            old(self).well_formed(),
        ensures
            final(self).well_formed(),
            final(self)@ == cold_restarted(old(self)@, now),
            r == (Effects { abort_client_task: !defers_cold_restart(old(self)@), ..no_effects() }),
    {
        let mut effects = Effects::none();
        if matches!(self.state, State::WaitingForHitl2fa)
            && !self.config.twofa.backoff.cold_restart_preempts_hitl {
            self.hitl.cold_restart_deferred = true;
        } else {
            effects.abort_client_task = true;
            self.force(State::Restarting, false, now);
        }
        effects
    }

    /// Brings the cache of windows up to date. The state stays as it is: the next step decides.
    pub fn handle_agent_event(&mut self, event: &AgentEvent, now: u128)
        requires
            old(self).well_formed(),
        ensures
            final(self).well_formed(),
            final(self)@ == (Model {
                observation: after_event(old(self)@.observation, *event, now),
                ..old(self)@
            }),
    {
        self.observation.apply(event, now);
    }

    /// Takes over the client ids that the background task found; an empty list is ignored.
    pub fn sync_client_ids(&mut self, ids: Vec<String>)
        requires
            old(self).well_formed(),
        ensures
            final(self).well_formed(),
            final(self)@ == (Model {
                client_ids: if ids@.len() > 0 {
                    texts(ids@)
                } else {
                    old(self)@.client_ids
                },
                ..old(self)@
            }),
    {
        if ids.len() > 0 {
            self.cached_client_ids = ids;
        }
    }

    /// What a window with this title calls for, where it is a blocking dialog.
    pub fn classify_blocking_dialog(title: &str) -> (r: Option<State>)
        ensures
            match r {
                Some(s) => blocking_phase(lower_case(title@)) == Some(s@),
                None => blocking_phase(lower_case(title@)) is None,
            },
    {
        let t = lowercase(title);
        classify_lowered(t.as_str())
    }
}

/// A machine at the beginning of its lifecycle.
pub open spec fn initial(config: Config, has_totp_secret: bool, now: Moment) -> Model {
    Model {
        state: Phase::Init,
        config,
        has_totp_secret,
        paused: false,
        ceiling: None,
        ib: IbModel {
            available: true,
            status: "available"@,
            reason: Seq::empty(),
            updated: None,
            return_to: None,
        },
        start_time: now.nanos,
        connected_since: None,
        history: Seq::empty(),
        client_ids: Seq::empty(),
        config_retries: 0,
        warm_restart: None,
        relogin_attempts: 0,
        connected_class: None,
        device_selected: false,
        twofa_seen: false,
        twofa_gone_at: None,
        entered_at: now.nanos,
        popup_dismissed: None,
        agent_failures: 0,
        observation: empty_observation(now.nanos),
        stats: Stats { restarts_today: 0, relogins_today: 0, dialogs_dismissed: 0 },
        snapshot_version: 0,
        hitl: fresh_hitl(),
    }
}

/// The machine once it was started.
pub open spec fn begun(m: Model) -> Model {
    if !m.config.site.auto_launch && m.state is Init {
        Model { state: Phase::WaitingForLaunch, ..m }
    } else {
        m
    }
}

/// The machine after a step that gave `next`.
pub open spec fn settled(m: Model, next: Phase, now: Moment) -> Model {
    if next == m.state {
        m
    } else {
        entered(m, next, now)
    }
}

/// The machine ready for a step.
pub open spec fn prepared(m: Model, now: Moment) -> Model {
    availability_checked(ttl_checked(deferral_checked(m), now.nanos), now)
}

} // verus!
