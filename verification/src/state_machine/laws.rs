//! What holds of the machine as a whole.
//!
//! - Promotion: the connected state is entered on positive evidence alone, or by force of the
//!   SETSTATE command; no timeout, no exhausted retry and no missing answer leads to it.
//! - Silence: timeouts delay, restart, hand over or end, and never promote.
//! - Recovery: an error leads to a restart, and a blocked login to the flow that owns it.

use crate::agent_events::cleared_buttons_show_no_login;
use crate::clock::{secs_in_nanos, span, Moment};
use crate::config::{Config, CounterReset, OnTimeout};
use crate::state_machine::connected::{
    connected_stage, ib_stage, liveness_inspected, liveness_listed, reconnect_given_up, reconnect_inspected,
    reconnect_listed, reconnect_stage, restart_plan, restart_stage,
};
use crate::state_machine::machine::{
    availability_checked, cold_restarted, command_effects, commanded, deferral_checked, entered, initial, must_wait_for_ib,
    past_login, prepared, recorded, settled, ttl_checked, IbModel, Model, IB_STATUS_TTL_SECS,
};
use crate::state_machine::outcome::{no_effects, HandlerReply};
use crate::state_machine::ready::{
    api_inspected_plan, api_stage, configure_stage, configure_tried, popups_replied, popups_stage,
};
use crate::state_machine::startup::{
    agent_plan, authenticate_inspected, authenticate_replied, authenticate_stage, conflict_stage, init_plan,
    login_inspected_plan, login_stage,
};
use crate::state_machine::turn::{interrupted, Interrupt};
use crate::state_machine::twofa::{
    code_tried, device_tried, hitl_stage, next_index, notified, restarts_on_timeout, twofa_confirmed,
    twofa_expired, twofa_stage, twofa_time_left,
};
use crate::state_machine::types::{phase_named, Phase, Step};
use crate::types::{Command, WindowId};
use crate::windows::{
    any_window, api_confirmed, authenticated_seen, blocking_seen, blocking_targets, login_form_seen, session_loss_seen,
    ComponentsModel, WindowKind, WindowModel,
};
use vstd::prelude::*;

verus! {

/// No step before the login is complete leads to the connected state.
pub proof fn login_never_promotes(
    m: Model,
    running: bool,
    healthy: bool,
    tws_exists: bool,
    blocking: Option<Seq<WindowModel>>,
    windows: Option<Seq<WindowModel>>,
    list: Seq<WindowModel>,
    window: WindowId,
    dump: Option<ComponentsModel>,
    reply: HandlerReply,
    now: u128,
)
    ensures
        !(init_plan(m.config, tws_exists).next is Connected),
        !(agent_plan(m, running, healthy, now).next is Connected),
        !login_stage(m, running, blocking_seen(blocking), windows, now).1.leads_to(Phase::Connected),
        !(login_inspected_plan(dump).next is Connected),
        !authenticate_stage(blocking_seen(blocking), list).leads_to(Phase::Connected),
        !authenticate_inspected(window, dump).leads_to(Phase::Connected),
        !(authenticate_replied(m, reply).next is Connected),
        !conflict_stage(list).leads_to(Phase::Connected),
{
    if blocking is Some {
        blocking_targets(blocking->0);
    }
}

/// Nothing that happens during the second factor leads to the connected state.
pub proof fn second_factor_never_promotes(
    m: Model,
    running: bool,
    windows: Option<Seq<WindowModel>>,
    window: WindowId,
    selected: bool,
    reply: HandlerReply,
    dumps: Seq<Option<ComponentsModel>>,
    now: u128,
)
    ensures
        !twofa_stage(m, running, windows, now).1.leads_to(Phase::Connected),
        !device_tried(m, window, selected, now).1.leads_to(Phase::Connected),
        !code_tried(m, reply, now).1.leads_to(Phase::Connected),
        !twofa_confirmed(m, dumps, now).1.leads_to(Phase::Connected),
        !hitl_stage(m, now).1.leads_to(Phase::Connected),
{
}

/// Between the login and the connected state stands the successful configuration of the API:
/// no other outcome of these steps leads there.
pub proof fn readiness_is_confirmed(
    m: Model,
    running: bool,
    blocking: Option<Seq<WindowModel>>,
    windows: Option<Seq<WindowModel>>,
    replies: Seq<HandlerReply>,
    dumps: Seq<Option<ComponentsModel>>,
    applied: bool,
    now: u128,
)
    ensures
        !popups_stage(m, running, blocking_seen(blocking)).leads_to(Phase::Connected),
        !(popups_replied(m, replies, now).1.next is Connected),
        !api_stage(m, running, blocking_seen(blocking), windows, now).leads_to(Phase::Connected),
        !(api_inspected_plan(m, dumps, now).next is Connected),
        !configure_stage(m, running, blocking_seen(blocking)).1.leads_to(Phase::Connected),
        configure_tried(m, applied).1.next is Connected <==> applied,
{
    if blocking is Some {
        blocking_targets(blocking->0);
    }
}

/// The configuration of the API is reached from the wait for the API server with positive
/// evidence that it is connected, and never without.
pub proof fn configuration_needs_evidence(
    m: Model,
    running: bool,
    blocking: Option<Seq<WindowModel>>,
    windows: Option<Seq<WindowModel>>,
    dumps: Seq<Option<ComponentsModel>>,
    now: u128,
)
    ensures
        api_inspected_plan(m, dumps, now).next is ConfiguringApi <==> api_confirmed(dumps),
        !api_stage(m, running, blocking_seen(blocking), windows, now).leads_to(
            Phase::ConfiguringApi,
        ),
{
    if blocking is Some {
        blocking_targets(blocking->0);
    }
}

/// The recovery of a session ends in the connected state only where a main window was seen
/// without a login form, and none with one. A restart never ends there, nor does the wait for
/// the IB system, whatever state it began in.
pub proof fn recovery_is_confirmed(
    m: Model,
    windows: Option<Seq<WindowModel>>,
    dumps: Seq<Option<ComponentsModel>>,
    now: u128,
)
    ensures
        !reconnect_stage(m, windows, now).1.leads_to(Phase::Connected),
        !(reconnect_given_up(m, windows).next is Connected),
        !reconnect_listed(m, windows).1.leads_to(Phase::Connected),
        reconnect_inspected(m, dumps).1.leads_to(Phase::Connected) <==> authenticated_seen(dumps)
            && !login_form_seen(dumps),
        !restart_stage(m, now).leads_to(Phase::Connected),
        !(restart_plan().next is Connected),
        !(ib_stage(m).1.next is Connected),
{
}

/// A wait for the API server that is never confirmed ends in a restart, and so does a
/// configuration that keeps failing.
pub proof fn exhaustion_fails_closed(m: Model, dumps: Seq<Option<ComponentsModel>>, now: u128)
    ensures
        !api_confirmed(dumps) && span(m.entered_at, now) > secs_in_nanos(120) ==> (
        api_inspected_plan(m, dumps, now).next is Restarting && api_inspected_plan(
            m,
            dumps,
            now,
        ).effects.abort_client_task),
        m.config_retries >= 3 ==> (configure_tried(m, false).1.next is Restarting
            && configure_tried(m, false).1.effects.abort_client_task),
{
}

/// A connected session is left as soon as an inspected window shows the login form or a
/// disconnected API server.
pub proof fn contradiction_demotes(m: Model, dumps: Seq<Option<ComponentsModel>>)
    ensures
        liveness_inspected(m, dumps).1.leads_to(Phase::WaitingForLogin) <==> session_loss_seen(dumps),
{
}

/// A second factor dialog that the active check finds ends a connected session, and without
/// one the main windows are inspected.
pub proof fn late_second_factor_demotes(windows: Seq<WindowModel>)
    ensures
        liveness_listed(Some(windows)).leads_to(Phase::WaitingFor2fa) <==> any_window(
            windows,
            WindowKind::SecondFactor,
        ),
        !any_window(windows, WindowKind::SecondFactor) ==> liveness_listed(Some(windows)) is Inspect,
{
}

/// A session whose JVM runs and of which nothing contradicts the connection is kept.
pub proof fn connection_is_retained(
    m: Model,
    token: Option<Seq<char>>,
    windows: Option<Seq<WindowModel>>,
    now: u128,
)
    requires
        !m.observation.relogin_dialog(),
        !m.observation.session_conflict(),
        !m.observation.login_form(),
    ensures
        ({
            let stage = connected_stage(m, true, token, windows, false, now).1;
            stage.leads_to(Phase::Connected) || stage is List
        }),
{
}

/// An error never stays: it is recorded under its name, and the machine restarts.
pub proof fn errors_recover(m: Model, message: Seq<char>, now: Moment)
    requires
        !(m.state is Error),
    ensures
        entered(m, Phase::Error(message), now).state is Restarting,
        entered(m, Phase::Error(message), now).history.len() > 0,
        entered(m, Phase::Error(message), now).history.last().to == Phase::Error(message).name(),
{
}

/// The machine comes to the state that a step gave, errors aside.
pub proof fn steps_take_effect(m: Model, next: Phase, now: Moment)
    requires
        !(next is Error),
    ensures
        settled(m, next, now).state == next,
{
}

/// The last `n` entries of a sequence.
pub open spec fn last_of(s: Seq<Step>, n: nat) -> Seq<Step> {
    if s.len() <= n {
        s
    } else {
        s.subrange(s.len() - n, s.len() as int)
    }
}

/// The history is the end of the whole record of transitions: never more than a hundred, and
/// always the newest.
pub proof fn history_keeps_the_newest(log: Seq<Step>, from: Phase, to: Phase, epoch_secs: u64)
    requires
        from != to,
    ensures
        ({
            let step = recorded(Seq::empty(), from, to, epoch_secs).last();
            recorded(last_of(log, 100), from, to, epoch_secs) == last_of(log.push(step), 100)
        }),
        recorded(last_of(log, 100), from, to, epoch_secs).len() <= 100,
{
    let step = recorded(Seq::empty(), from, to, epoch_secs).last();
    let kept = last_of(log, 100);
    let all = log.push(step);
    if log.len() < 100 {
        assert(recorded(kept, from, to, epoch_secs) =~= last_of(all, 100));
    } else {
        assert(kept =~= log.subrange(log.len() - 100, log.len() as int));
        assert(recorded(kept, from, to, epoch_secs) =~= last_of(all, 100));
    }
}

/// Leaving the login phase makes the login buttons that were seen before stale.
pub proof fn no_stale_login_form(m: Model, next: Phase, now: Moment)
    requires
        past_login(next),
    ensures
        !entered(m, next, now).observation.login_form(),
{
    cleared_buttons_show_no_login(m.observation.windows);
}

/// The ceiling stops the machine exactly once: it pauses on entering that state, and the
/// ceiling is gone.
pub proof fn ceiling_pauses_once(m: Model, next: Phase, now: Moment)
    ensures
        m.ceiling == Some(next) ==> entered(m, next, now).paused && entered(m, next, now).ceiling
            is None,
        m.ceiling != Some(next) ==> entered(m, next, now).paused == m.paused && entered(
            m,
            next,
            now,
        ).ceiling == m.ceiling,
{
}

/// Pausing and resuming leave everything else as it was, and resuming undoes a pause.
pub proof fn resume_undoes_pause(m: Model, now: Moment)
    requires
        !m.paused,
        m.ceiling is None,
    ensures
        commanded(commanded(m, Command::Pause, now), Command::Resume, now) == m,
        commanded(m, Command::Pause, now).state == m.state,
{
}

/// A forced state is the state named, whatever it was before; an unknown name changes nothing.
pub proof fn set_state_forces(m: Model, name: String, now: Moment)
    ensures
        match phase_named(name@) {
            Some(p) => commanded(m, Command::SetState(name), now).state == p,
            None => commanded(m, Command::SetState(name), now) == m,
        },
{
}

/// Of the commands only a forced state leads to the connected state, and of the checks before
/// a step none does.
pub proof fn commands_promote_by_force_alone(m: Model, c: Command, now: Moment)
    requires
        !(m.state is Connected),
    ensures
        commanded(m, c, now).state is Connected ==> (c matches Command::SetState(name)
            && phase_named(name@) == Some(Phase::Connected)),
        !(prepared(m, now).state is Connected),
        !(cold_restarted(m, now).state is Connected),
{
}

/// START launches from standby and does nothing elsewhere; STOP leads to standby from
/// everywhere, and a second STOP does nothing.
pub proof fn start_and_stop(m: Model, now: Moment)
    ensures
        commanded(m, Command::Stop, now).state is WaitingForLaunch,
        commanded(commanded(m, Command::Stop, now), Command::Stop, now) == commanded(
            m,
            Command::Stop,
            now,
        ),
        command_effects(commanded(m, Command::Stop, now), Command::Stop) == no_effects(),
        commanded(commanded(m, Command::Stop, now), Command::Start, now).state is Init,
        !(m.state is WaitingForLaunch) ==> commanded(m, Command::Start, now) == m,
{
}

/// A report that the IB system is unavailable lapses after ten minutes: then it counts as
/// available. Until then it stands.
pub proof fn unavailability_lapses(m: Model, at: u128, now: u128)
    requires
        m.ib.updated == Some(at),
        !m.ib.available,
    ensures
        ttl_checked(m, now).ib.available <==> span(at, now) > secs_in_nanos(IB_STATUS_TTL_SECS),
        ttl_checked(m, now).state == m.state,
{
}

/// The wait for the IB system ends in the state in which it began; a session that was connected
/// is confirmed anew first.
pub proof fn ib_wait_returns(m: Model, now: Moment)
    requires
        must_wait_for_ib(m),
    ensures
        ({
            let waiting = availability_checked(m, now);
            let back = Model { ib: IbModel { available: true, ..waiting.ib }, ..waiting };
            &&& waiting.state is WaitingForIB
            &&& ib_stage(back).1.next == if m.state is Connected {
                Phase::WaitingForApiReady
            } else {
                m.state
            }
            &&& ib_stage(waiting).1.next is WaitingForIB
        }),
{
}

/// A connected session is not interrupted by a report on the IB system unless the
/// configuration asks for it; and a machine that stands by or ends is left alone.
pub proof fn reports_spare_connected_sessions(m: Model, now: Moment)
    ensures
        m.state is Connected && !m.config.ib_status.kick_active_session ==> availability_checked(
            m,
            now,
        ) == m,
        m.state is WaitingForLaunch || m.state is Shutdown ==> availability_checked(m, now) == m,
{
}

/// With a limit of `max` the operator is waited for on the timeout that is the `max`-th in a
/// row and on every later one, and on none before it; with a limit of zero on none.
pub proof fn timeouts_are_capped(m: Model, now: u128)
    requires
        restarts_on_timeout(m.config),
        m.config.twofa.backoff.on_timeout == OnTimeout::RestartThenHitl,
        twofa_expired(m, now),
        m.hitl.consecutive_timeouts < u32::MAX,
    ensures
        ({
            let max = m.config.twofa.backoff.max_immediate_attempts;
            let count = m.hitl.consecutive_timeouts + 1;
            let (after, stage) = twofa_time_left(m, now);
            &&& after.hitl.consecutive_timeouts == count
            &&& stage.leads_to(Phase::WaitingForHitl2fa) <==> max > 0 && count >= max
            &&& stage.leads_to(Phase::Restarting) <==> max == 0 || count < max
        }),
{
}

/// Restarting for ever never waits for the operator; handing over at once always does.
pub proof fn timeout_policies(m: Model, now: u128)
    requires
        restarts_on_timeout(m.config),
        twofa_expired(m, now),
    ensures
        m.config.twofa.backoff.on_timeout == OnTimeout::RestartForever ==> twofa_time_left(
            m,
            now,
        ).1.leads_to(Phase::Restarting),
        m.config.twofa.backoff.on_timeout == OnTimeout::HitlImmediately ==> twofa_time_left(
            m,
            now,
        ).1.leads_to(Phase::WaitingForHitl2fa),
{
}

/// The entry of the schedule after `k` retries.
pub open spec fn index_after(config: Config, k: nat) -> usize
    decreases k,
{
    if k == 0 {
        0
    } else {
        next_index(config, index_after(config, (k - 1) as nat))
    }
}

/// The schedule is gone through in order, and its last entry is held.
pub proof fn schedule_holds_its_last_entry(config: Config, k: nat)
    requires
        config.twofa.backoff.intervals_minutes@.len() > 0,
    ensures
        ({
            let n = config.twofa.backoff.intervals_minutes@.len();
            index_after(config, k) == if k < n {
                k as int
            } else {
                n - 1
            }
        }),
    decreases k,
{
    let v = config.twofa.backoff.intervals_minutes;
    assert(v@.len() == v.len());
    if k > 0 {
        schedule_holds_its_last_entry(config, (k - 1) as nat);
    }
}

/// A retry comes no earlier than its interval after the wait began, and then it comes.
pub proof fn retries_keep_to_the_schedule(m: Model, began: Moment, now: u128)
    requires
        m.config.twofa.backoff.strategy.timed(),
        m.config.twofa.backoff.intervals_minutes@.len() > 0,
        m.hitl.intervals_index < m.config.twofa.backoff.intervals_minutes@.len(),
        began.nanos + m.config.twofa.backoff.intervals_minutes@[m.hitl.intervals_index as int]
            * 60_000_000_000 <= u128::MAX,
    ensures
        ({
            let waiting = entered(m, Phase::WaitingForHitl2fa, began);
            let interval = m.config.twofa.backoff.intervals_minutes@[m.hitl.intervals_index as int];
            hitl_stage(waiting, now).1.leads_to(Phase::Restarting) <==> now >= began.nanos
                + interval * 60_000_000_000
        }),
{
}

/// Without a timer and without a notification the wait lasts until a command ends it.
pub proof fn untimed_wait_lasts(m: Model, began: Moment, now: u128)
    requires
        !m.config.twofa.backoff.strategy.timed(),
    ensures
        ({
            let waiting = entered(m, Phase::WaitingForHitl2fa, began);
            &&& !hitl_stage(waiting, now).1.leads_to(Phase::Restarting)
            &&& commanded(waiting, Command::HitlResume, began).state is Restarting
        }),
{
}

/// In one wait the operator is notified at most once with success, and tried at most once more
/// than the configured retries.
pub proof fn notifications_are_bounded(m: Model, now: u128, sent: bool)
    requires
        m.hitl.entered_at is Some,
        hitl_stage(m, now).1 is Notify,
    ensures
        m.config.twofa.backoff.strategy.notifies(),
        !m.hitl.ntfy_sent,
        notified(m, sent).hitl.ntfy_attempts <= m.config.twofa.backoff.ntfy_send_retries + 1,
        sent ==> !(hitl_stage(notified(m, sent), now).1 is Notify),
{
}

/// Reaching the connected state sets the count of timeouts and the schedule back, where it is
/// configured so.
pub proof fn connection_resets_the_count(m: Model, now: Moment)
    requires
        m.config.twofa.backoff.counter_reset == CounterReset::AnyReach,
    ensures
        entered(m, Phase::Connected, now).hitl.consecutive_timeouts == 0,
        entered(m, Phase::Connected, now).hitl.intervals_index == 0,
{
}

/// A session counts as unbroken only while the machine is connected.
pub open spec fn unbroken_means_connected(m: Model) -> bool {
    m.hitl.connected_continuously_since is Some ==> m.state is Connected
}

/// Every way out of the connected state breaks the session that the stable reset counts: by a
/// step, a command, a signal, a cold restart or a check before a step.
pub proof fn any_exit_breaks_the_session(
    m: Model,
    config: Config,
    has_totp_secret: bool,
    next: Phase,
    i: Interrupt,
    now: Moment,
)
    requires
        unbroken_means_connected(m),
    ensures
        unbroken_means_connected(initial(config, has_totp_secret, now)),
        unbroken_means_connected(settled(m, next, now)),
        unbroken_means_connected(interrupted(m, i, now)),
        unbroken_means_connected(prepared(m, now)),
{
}

/// The cold restart restarts the machine, unless it waits for the operator and the
/// configuration lets that go first; then the restart follows once the wait is over.
pub proof fn cold_restart_comes(m: Model, now: Moment)
    ensures
        !(m.state is WaitingForHitl2fa && !m.config.twofa.backoff.cold_restart_preempts_hitl)
            ==> cold_restarted(m, now).state is Restarting,
        m.state is WaitingForHitl2fa && !m.config.twofa.backoff.cold_restart_preempts_hitl ==> {
            let held = cold_restarted(m, now);
            &&& held.state is WaitingForHitl2fa
            &&& deferral_checked(held) == held
            &&& deferral_checked(Model { state: Phase::WaitingForLogin, ..held }).state is Restarting
        },
{
}

} // verus!
