//! What transitions, commands, reports and interrupts do to the machine, field by field.

use crate::agent_events::ObservedModel;
use crate::clock::Moment;
use crate::config::{Config, CounterReset, Strategy};
use crate::state_machine::machine::{
    availability_checked, begun, cold_restarted, command_action, command_effects, commanded, deferral_checked,
    deferral_effects, entered, initial, prepared, recorded, retry_at, settled, shutdown_effects, ttl_checked,
    ActionModel, HitlState, IbModel, Model, StateMachine, Stats,
};
use crate::state_machine::outcome::Effects;
use crate::state_machine::turn::{interrupt_effects, interrupted, step_of, turn_effects, turned, Interrupt, StepKind, Turn};
use crate::state_machine::types::{phase_named, Phase, State, Step};
use crate::text::decimal;
use crate::types::{Command, Signal};
use vstd::prelude::*;

verus! {

/// These of the client id task, the forwarder, the handlers, the JVM and the socket are ended.
pub open spec fn ends(client_task: bool, socat: bool, handlers: bool, jvm: bool, socket: bool) -> Effects {
    Effects {
        abort_client_task: client_task,
        stop_socat: socat,
        reset_handlers: handlers,
        kill_jvm: jvm,
        remove_socket: socket,
    }
}

/// A transition is recorded at the end of the history with its time and the names of both
/// states; only what comes before a hundred entries makes way. A change to the same state is
/// none.
pub proof fn transitions_are_recorded(history: Seq<Step>, from: Phase, to: Phase, epoch_secs: u64)
    requires
        history.len() <= 100,
    ensures
        recorded(history, from, from, epoch_secs) == history,
        from != to ==> {
            let r = recorded(history, from, to, epoch_secs);
            let dropped = r.len() - history.len() == 0;
            &&& r.last() == (Step {
                timestamp: decimal(epoch_secs as nat),
                from: from.name(),
                to: to.name(),
            })
            &&& r.len() == if history.len() < 100 {
                history.len() + 1
            } else {
                100
            }
            &&& forall|i: int|
                0 <= i < r.len() - 1 ==> #[trigger] r[i] == history[if dropped {
                    i + 1
                } else {
                    i
                }]
        },
{
}

/// The names of the states are their own.
pub proof fn states_bear_their_names(message: Seq<char>)
    ensures
        Phase::WaitingForLaunch.name() == "WaitingForLaunch"@,
        Phase::Init.name() == "Init"@,
        Phase::Launching.name() == "Launching"@,
        Phase::WaitingForAgent.name() == "WaitingForAgent"@,
        Phase::WaitingForLogin.name() == "WaitingForLogin"@,
        Phase::Authenticating.name() == "Authenticating"@,
        Phase::WaitingFor2fa.name() == "WaitingFor2fa"@,
        Phase::HandlingSessionConflict.name() == "HandlingSessionConflict"@,
        Phase::DismissingPopups.name() == "DismissingPopups"@,
        Phase::WaitingForApiReady.name() == "WaitingForApiReady"@,
        Phase::ConfiguringApi.name() == "ConfiguringApi"@,
        Phase::Connected.name() == "Connected"@,
        Phase::ReconnectingSession.name() == "ReconnectingSession"@,
        Phase::Restarting.name() == "Restarting"@,
        Phase::WaitingForIB.name() == "WaitingForIB"@,
        Phase::WaitingForHitl2fa.name() == "WaitingForHitl2fa"@,
        Phase::Shutdown.name() == "Shutdown"@,
        Phase::Error(message).name() == "Error("@ + message + ")"@,
        forall|s: State, t: State| #[trigger] s@ == #[trigger] t@ ==> s@.name() == t@.name(),
{
}

/// What every transition does: the time of entry is now, the failed exchanges are forgotten, the
/// change is recorded, and the machine is in the new state, or restarting where that is an
/// error. What belongs to the configuration, the IB system, the warm restart, the retries, the
/// window class, the statistics and the reports stays.
pub proof fn transitions_in_general(m: Model, next: Phase, now: Moment)
    ensures
        ({
            let after = entered(m, next, now);
            &&& after.entered_at == now.nanos
            &&& after.agent_failures == 0
            &&& after.history == recorded(m.history, m.state, next, now.epoch_secs)
            &&& after.state == match next {
                Phase::Error(_) => Phase::Restarting,
                _ => next,
            }
            &&& after.config == m.config
            &&& after.has_totp_secret == m.has_totp_secret
            &&& after.ib == m.ib
            &&& after.start_time == m.start_time
            &&& after.client_ids == m.client_ids
            &&& after.config_retries == m.config_retries
            &&& after.warm_restart == m.warm_restart
            &&& after.connected_class == m.connected_class
            &&& after.stats == m.stats
            &&& after.snapshot_version == m.snapshot_version
        }),
        next == m.state ==> settled(m, next, now) == m,
        next != m.state ==> settled(m, next, now) == entered(m, next, now),
{
}

/// The trackers that a transition resets: the picked device with every new login or launch, what
/// was seen of the second factor with each wait for it, the last popup with each dismissal. No
/// other transition touches them.
pub proof fn transitions_reset_trackers(m: Model, next: Phase, now: Moment)
    ensures
        ({
            let after = entered(m, next, now);
            &&& next is WaitingForLogin || next is WaitingFor2fa || next is Launching
                || next is Restarting ==> !after.device_selected
            &&& !(next is WaitingForLogin || next is WaitingFor2fa || next is Launching
                || next is Restarting) ==> after.device_selected == m.device_selected
            &&& next is WaitingFor2fa ==> !after.twofa_seen && after.twofa_gone_at is None
            &&& !(next is WaitingFor2fa) ==> after.twofa_seen == m.twofa_seen && after.twofa_gone_at
                == m.twofa_gone_at
            &&& next is DismissingPopups ==> after.popup_dismissed is None
            &&& !(next is DismissingPopups) ==> after.popup_dismissed == m.popup_dismissed
        }),
{
}

/// Entering the connected state starts its clock and forgets the re-logins; leaving it stops the
/// clock. Each entry into the recovery counts one re-login, and no other transition does.
pub proof fn transitions_and_the_connection(m: Model, next: Phase, now: Moment)
    ensures
        ({
            let after = entered(m, next, now);
            &&& next is Connected && !(m.state is Connected) ==> after.connected_since == Some(
                now.nanos,
            ) && after.relogin_attempts == 0
            &&& next is Connected && m.state is Connected ==> after.connected_since
                == m.connected_since && after.relogin_attempts == m.relogin_attempts
            &&& !(next is Connected) ==> after.connected_since is None
            &&& next is ReconnectingSession && m.relogin_attempts < u32::MAX
                ==> after.relogin_attempts == m.relogin_attempts + 1
            &&& !(next is Connected) && !(next is ReconnectingSession) ==> after.relogin_attempts
                == m.relogin_attempts
        }),
{
}

/// What transitions do to the cache of windows: a restart or a launch empties it, and past the
/// login only the login buttons are forgotten; every other transition leaves it alone.
pub proof fn transitions_and_the_cache(m: Model, next: Phase, now: Moment, i: int)
    ensures
        ({
            let o = entered(m, next, now).observation;
            let past = next is DismissingPopups || next is WaitingFor2fa || next
                is WaitingForApiReady || next is ConfiguringApi || next is Connected;
            &&& next is Restarting || next is Launching ==> o.windows.len() == 0 && !o.synced
                && o.last_seq == 0 && o.last_updated == now.nanos
            &&& past ==> o.windows.len() == m.observation.windows.len() && o.synced
                == m.observation.synced && o.last_seq == m.observation.last_seq && o.last_updated
                == m.observation.last_updated
            &&& past && 0 <= i < o.windows.len() ==> o.windows[i] == (ObservedModel {
                has_login_button: false,
                ..m.observation.windows[i]
            })
            &&& !past && !(next is Restarting) && !(next is Launching) ==> o == m.observation
        }),
{
}

/// What transitions do to the wait for the operator: entering it notes the time, sets the
/// notifications back and the retry by the schedule; reaching the connected state begins an
/// unbroken session, and sets the count and the schedule back where that is all it takes;
/// everything else ends the wait and the session.
pub proof fn transitions_and_the_operator(m: Model, next: Phase, now: Moment)
    ensures
        ({
            let h = entered(m, next, now).hitl;
            let any_reach = m.config.twofa.backoff.counter_reset == CounterReset::AnyReach;
            &&& h.cold_restart_deferred == m.hitl.cold_restart_deferred
            &&& next is WaitingForHitl2fa ==> h.entered_at == Some(now.nanos) && h.ntfy_attempts == 0
                && !h.ntfy_sent && h.connected_continuously_since is None && h.next_retry_at
                == retry_at(m.config, m.hitl.intervals_index, now.nanos)
            &&& !(next is WaitingForHitl2fa) ==> h.entered_at is None && h.next_retry_at is None
                && h.ntfy_attempts == m.hitl.ntfy_attempts && h.ntfy_sent == m.hitl.ntfy_sent
            &&& next is Connected && !(m.state is Connected) ==> h.connected_continuously_since
                == Some(now.nanos)
            &&& next is Connected && m.state is Connected ==> h.connected_continuously_since
                == m.hitl.connected_continuously_since
            &&& !(next is Connected) ==> h.connected_continuously_since is None
            &&& next is Connected && any_reach ==> h.consecutive_timeouts == 0 && h.intervals_index
                == 0
            &&& !(next is Connected && any_reach) ==> h.consecutive_timeouts
                == m.hitl.consecutive_timeouts && h.intervals_index == m.hitl.intervals_index
        }),
{
}

/// When a retry is due: as many minutes after the wait began as the entry of the schedule says,
/// under a strategy with a timer, and never under the others. Beyond its end the schedule
/// stands at its last entry.
pub proof fn retries_are_due_by_the_schedule(config: Config, index: usize, began: u128)
    ensures
        ({
            let b = config.twofa.backoff;
            let n = b.intervals_minutes@.len();
            let timed = b.strategy == Strategy::Periodic || b.strategy == Strategy::Both;
            let due = retry_at(config, index, began);
            &&& !timed || n == 0 ==> due is None
            &&& timed && index < n && began + b.intervals_minutes@[index as int] * 60_000_000_000
                <= u128::MAX ==> due == Some(
                (began + b.intervals_minutes@[index as int] * 60 * 1_000_000_000) as u128,
            )
            &&& timed && n > 0 && index >= n ==> due == retry_at(config, (n - 1) as usize, began)
        }),
{
    let v = config.twofa.backoff.intervals_minutes;
    assert(v@.len() == v.len());
}

/// The machine in another state by command: nothing else changes but the history, the timer of
/// the wait for the operator outside that wait, and the unbroken session outside the connected
/// state.
pub open spec fn moved(m: Model, after: Model, next: Phase, history: Seq<Step>) -> bool {
    &&& after == (Model { state: next, history, hitl: after.hitl, ..m })
    &&& after.hitl == (HitlState {
        entered_at: after.hitl.entered_at,
        next_retry_at: after.hitl.next_retry_at,
        connected_continuously_since: after.hitl.connected_continuously_since,
        ..m.hitl
    })
    &&& next is WaitingForHitl2fa ==> after.hitl.entered_at == m.hitl.entered_at
        && after.hitl.next_retry_at == m.hitl.next_retry_at
    &&& !(next is WaitingForHitl2fa) ==> after.hitl.entered_at is None && after.hitl.next_retry_at
        is None
    &&& next is Connected ==> after.hitl.connected_continuously_since
        == m.hitl.connected_continuously_since
    &&& !(next is Connected) ==> after.hitl.connected_continuously_since is None
}

/// The commands that move the machine: STOP to standby, START from there to the beginning, EXIT
/// to the end, RESTART to a restart, HITL_RESUME from the wait for the operator to a restart,
/// and SETSTATE to the state it names. STOP, START, HITL_RESUME and SETSTATE are recorded.
pub proof fn commands_that_move(m: Model, name: String, now: Moment)
    ensures
        !(m.state is WaitingForLaunch) ==> moved(
            m,
            commanded(m, Command::Stop, now),
            Phase::WaitingForLaunch,
            recorded(m.history, m.state, Phase::WaitingForLaunch, now.epoch_secs),
        ),
        m.state is WaitingForLaunch ==> commanded(m, Command::Stop, now) == m,
        m.state is WaitingForLaunch ==> moved(
            m,
            commanded(m, Command::Start, now),
            Phase::Init,
            recorded(m.history, m.state, Phase::Init, now.epoch_secs),
        ),
        !(m.state is WaitingForLaunch) ==> commanded(m, Command::Start, now) == m,
        moved(m, commanded(m, Command::Exit, now), Phase::Shutdown, m.history),
        moved(m, commanded(m, Command::Restart, now), Phase::Restarting, m.history),
        m.state is WaitingForHitl2fa ==> moved(
            m,
            commanded(m, Command::HitlResume, now),
            Phase::Restarting,
            recorded(m.history, m.state, Phase::Restarting, now.epoch_secs),
        ),
        !(m.state is WaitingForHitl2fa) ==> commanded(m, Command::HitlResume, now) == m,
        match phase_named(name@) {
            Some(p) => moved(
                m,
                commanded(m, Command::SetState(name), now),
                p,
                recorded(m.history, m.state, p, now.epoch_secs),
            ),
            None => commanded(m, Command::SetState(name), now) == m,
        },
{
}

/// The commands that leave the state alone: pausing, with or without a ceiling, resuming, and a
/// report on the IB system, which counts as available for that very word only. The others do
/// nothing to the machine.
pub proof fn commands_that_stay(m: Model, name: String, status: String, reason: String, now: Moment)
    ensures
        commanded(m, Command::Pause, now) == (Model { paused: true, ceiling: None, ..m }),
        commanded(m, Command::Resume, now) == (Model { paused: false, ceiling: None, ..m }),
        phase_named(name@) is None ==> commanded(m, Command::PauseAt(name), now) == m,
        phase_named(name@) == Some(m.state) ==> commanded(m, Command::PauseAt(name), now) == (
        Model { paused: true, ceiling: None, ..m }),
        phase_named(name@) matches Some(p) ==> (p != m.state ==> commanded(
            m,
            Command::PauseAt(name),
            now,
        ) == (Model { ceiling: Some(p), ..m })),
        ({
            let after = commanded(m, Command::IbStatus(status, reason), now);
            &&& after == (Model { ib: after.ib, ..m })
            &&& after.ib.available <==> status@ == "available"@
            &&& after.ib.status == status@
            &&& after.ib.reason == reason@
            &&& after.ib.updated == Some(now.nanos)
            &&& after.ib.return_to == m.ib.return_to
        }),
        commanded(m, Command::RestartSocat, now) == m,
        commanded(m, Command::ReconnectData, now) == m,
        commanded(m, Command::ReconnectAccount, now) == m,
        commanded(m, Command::EnableApi, now) == m,
        commanded(m, Command::SetRestartTime(name), now) == m,
{
}

/// What commands ask of the driver: STOP ends everything, unless the machine stands by already;
/// EXIT, RESTART and a HITL_RESUME that is heard end the client id task; the two reconnects send
/// their keys, RESTARTSOCAT restarts the forwarder, and a restart time is set. Nothing else asks
/// for anything.
pub proof fn commands_ask_the_driver(m: Model, text: String, other: String)
    ensures
        m.state is WaitingForLaunch ==> command_effects(m, Command::Stop) == ends(
            false,
            false,
            false,
            false,
            false,
        ),
        !(m.state is WaitingForLaunch) ==> command_effects(m, Command::Stop) == ends(
            true,
            true,
            true,
            true,
            true,
        ),
        command_effects(m, Command::Exit) == ends(true, false, false, false, false),
        command_effects(m, Command::Restart) == ends(true, false, false, false, false),
        command_effects(m, Command::HitlResume) == ends(
            m.state is WaitingForHitl2fa,
            false,
            false,
            false,
            false,
        ),
        forall|c: Command|
            #![trigger command_effects(m, c)]
            !(c is Stop || c is Exit || c is Restart || c is HitlResume) ==> command_effects(m, c)
                == ends(false, false, false, false, false),
        command_action(Command::ReconnectData) == ActionModel::SendKey("ctrl+f"@),
        command_action(Command::ReconnectAccount) == ActionModel::SendKey("ctrl+r"@),
        command_action(Command::RestartSocat) == ActionModel::RestartSocat,
        command_action(Command::SetRestartTime(text)) == ActionModel::SetRestartTime(text@),
        forall|c: Command|
            #![trigger command_action(c)]
            !(c is ReconnectData || c is ReconnectAccount || c is RestartSocat || c
                is SetRestartTime) ==> command_action(c) == ActionModel::Nothing,
{
}

/// A report that the IB system is unavailable lapses when more than ten minutes have passed
/// since it came; then it reads as available without a reason. A report that it is available,
/// and a younger one, stand as they are.
pub proof fn reports_lapse(m: Model, now: u128)
    ensures
        ({
            let after = ttl_checked(m, now);
            let old_report = m.ib.updated matches Some(t) && now - t > 600_000_000_000;
            &&& old_report && !m.ib.available ==> after == (Model {
                ib: IbModel {
                    available: true,
                    status: "available"@,
                    reason: Seq::empty(),
                    ..m.ib
                },
                ..m
            })
            &&& !old_report || m.ib.available ==> after == m
        }),
{
}

/// An unavailable IB system sends the machine to its wait from every state but the wait itself,
/// standby and the end; from the connected state only where that is configured. The state is
/// kept to come back to, and the change is recorded.
pub proof fn unavailability_sends_to_the_wait(m: Model, now: Moment)
    ensures
        ({
            let after = availability_checked(m, now);
            let spared = m.ib.available || m.state is WaitingForIB || m.state is Shutdown || m.state
                is WaitingForLaunch || (m.state is Connected
                && !m.config.ib_status.kick_active_session);
            &&& spared ==> after == m
            &&& !spared ==> after.ib == (IbModel { return_to: Some(m.state), ..m.ib }) && moved(
                Model { ib: after.ib, ..m },
                after,
                Phase::WaitingForIB,
                recorded(m.history, m.state, Phase::WaitingForIB, now.epoch_secs),
            )
        }),
        prepared(m, now) == availability_checked(ttl_checked(deferral_checked(m), now.nanos), now),
{
}

/// A cold restart that comes during the wait for the operator is held back where that is
/// configured, and is carried out before the next step outside the wait, unless the machine
/// stands by, has ended or restarts already. Every other cold restart restarts at once.
pub proof fn cold_restarts_are_carried_out(m: Model, now: Moment)
    ensures
        ({
            let after = cold_restarted(m, now);
            let held = m.state is WaitingForHitl2fa
                && !m.config.twofa.backoff.cold_restart_preempts_hitl;
            &&& held ==> after == (Model {
                hitl: HitlState { cold_restart_deferred: true, ..m.hitl },
                ..m
            })
            &&& !held ==> moved(m, after, Phase::Restarting, m.history)
            &&& interrupt_effects(m, Interrupt::ColdRestart) == ends(
                !held,
                false,
                false,
                false,
                false,
            )
        }),
        ({
            let after = deferral_checked(m);
            let over = m.hitl.cold_restart_deferred && !(m.state is WaitingForHitl2fa);
            let idle = m.state is Shutdown || m.state is WaitingForLaunch || m.state is Restarting;
            &&& !over ==> after == m
            &&& over ==> !after.hitl.cold_restart_deferred && after.history == m.history
            &&& over && idle ==> after.state == m.state
            &&& over && !idle ==> after.state is Restarting
            &&& deferral_effects(m) == ends(over && !idle, false, false, false, false)
        }),
{
}

/// What the turns of the main loop ask of the driver: an interrupt asks for its own, and where
/// the machine then has ended also for the forwarder, the JVM and the socket to be ended; a step
/// that leads to the end asks for these and the client id task; another step for nothing.
pub proof fn turns_ask_the_driver(m: Model, i: Interrupt, s: State, signal: Signal, now: Moment)
    ensures
        interrupt_effects(m, Interrupt::Signal(signal)) == ends(true, false, false, false, false),
        ({
            let e = interrupt_effects(m, i);
            let ended = interrupted(m, i, now).state is Shutdown;
            turn_effects(m, Turn::Interrupted(i), now) == if ended {
                ends(e.abort_client_task, true, e.reset_handlers, true, true)
            } else {
                e
            }
        }),
        !(s@ is Shutdown) || m.state is Shutdown ==> turn_effects(m, Turn::Transitioned(s), now)
            == ends(false, false, false, false, false),
        s@ is Shutdown && !(m.state is Shutdown) ==> turn_effects(m, Turn::Transitioned(s), now)
            == ends(true, true, false, true, true),
        shutdown_effects() == ends(true, true, false, true, true),
        turned(m, Turn::Transitioned(s), now) == settled(m, s@, now),
        turned(m, Turn::Interrupted(i), now) == interrupted(m, i, now),
        moved(m, interrupted(m, Interrupt::Signal(signal), now), Phase::Shutdown, m.history),
        forall|c: Command|
            #![trigger interrupted(m, Interrupt::Command(c), now)]
            interrupted(m, Interrupt::Command(c), now) == commanded(m, c, now),
{
}

/// A new machine begins at the beginning, available, unpaused and with nothing counted; it
/// stands by where the site does not launch by itself.
pub proof fn machines_begin(config: Config, has_totp_secret: bool, now: Moment, m: Model)
    ensures
        ({
            let n = initial(config, has_totp_secret, now);
            &&& n.state is Init
            &&& n.config == config && n.has_totp_secret == has_totp_secret
            &&& !n.paused && n.ceiling is None
            &&& n.ib.available && n.ib.status == "available"@ && n.ib.reason.len() == 0
            &&& n.ib.updated is None && n.ib.return_to is None
            &&& n.start_time == now.nanos && n.entered_at == now.nanos
            &&& n.connected_since is None && n.history.len() == 0 && n.client_ids.len() == 0
            &&& n.config_retries == 0 && n.relogin_attempts == 0 && n.agent_failures == 0
            &&& n.warm_restart is None && n.connected_class is None
            &&& !n.device_selected && !n.twofa_seen && n.twofa_gone_at is None
            &&& n.popup_dismissed is None && n.snapshot_version == 0
            &&& n.observation.windows.len() == 0 && !n.observation.synced
            &&& n.observation.last_updated == now.nanos
            &&& n.hitl.consecutive_timeouts == 0 && n.hitl.entered_at is None
            &&& n.hitl.next_retry_at is None && n.hitl.intervals_index == 0
            &&& n.hitl.ntfy_attempts == 0 && !n.hitl.ntfy_sent
            &&& n.hitl.connected_continuously_since is None && !n.hitl.cold_restart_deferred
            &&& n.stats == (Stats { restarts_today: 0, relogins_today: 0, dialogs_dismissed: 0 })
        }),
        m.state is Init && !m.config.site.auto_launch ==> begun(m) == (Model {
            state: Phase::WaitingForLaunch,
            ..m
        }),
        !(m.state is Init) || m.config.site.auto_launch ==> begun(m) == m,
{
}

/// Every state has a step of its own, but for the end and an error, which stay.
pub proof fn steps_belong_to_states(p: Phase, q: Phase)
    ensures
        step_of(p) == StepKind::Stay <==> p is Shutdown || p is Error,
        step_of(p) != StepKind::Paused,
        step_of(p) == step_of(q) && step_of(p) != StepKind::Stay ==> p == q,
        step_of(Phase::WaitingForLaunch) == StepKind::StandBy,
        step_of(Phase::Init) == StepKind::Init,
        step_of(Phase::Launching) == StepKind::Launch,
        step_of(Phase::WaitingForAgent) == StepKind::WaitForAgent,
        step_of(Phase::WaitingForLogin) == StepKind::WaitForLogin,
        step_of(Phase::Authenticating) == StepKind::Authenticate,
        step_of(Phase::WaitingFor2fa) == StepKind::WaitFor2fa,
        step_of(Phase::HandlingSessionConflict) == StepKind::HandleSessionConflict,
        step_of(Phase::DismissingPopups) == StepKind::DismissPopups,
        step_of(Phase::WaitingForApiReady) == StepKind::WaitForApiReady,
        step_of(Phase::ConfiguringApi) == StepKind::ConfigureApi,
        step_of(Phase::Connected) == StepKind::WatchSession,
        step_of(Phase::ReconnectingSession) == StepKind::ReconnectSession,
        step_of(Phase::Restarting) == StepKind::Restart,
        step_of(Phase::WaitingForIB) == StepKind::WaitForIB,
        step_of(Phase::WaitingForHitl2fa) == StepKind::WaitForHitl,
{
}

/// While the machine is paused its step is to wait, in whatever state it is; else it is the step
/// that belongs to its state.
pub proof fn pauses_come_before_steps(m: StateMachine, r: StepKind)
    requires
        call_ensures(StateMachine::next_step, (&m,), r),
    ensures
        r == StepKind::Paused <==> m@.paused,
        !m@.paused && m@.state is Connected ==> r == StepKind::WatchSession,
        !m@.paused ==> r == step_of(m@.state),
{
}

} // verus!
