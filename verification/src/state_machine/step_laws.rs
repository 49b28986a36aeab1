//! What the steps of the machine do, in terms of what was observed and how much time has passed.
//!
//! Times are compared as plain differences in nanoseconds, and windows by the texts in their
//! titles.

use crate::config::{Config, CounterReset, OnTimeout, ReloginFailureAction};
use crate::state_machine::connected::{
    connected_stage, ib_stage, liveness_inspected, liveness_listed, ports, reconnect_given_up, reconnect_inspected,
    reconnect_listed, reconnect_stage, restart_plan, restart_stage,
};
use crate::state_machine::machine::{HitlState, IbModel, Model, StateMachine};
use crate::state_machine::outcome::{going, no_effects, pausing, Effects, HandlerReply, Outcome, Plan, StageModel};
use crate::state_machine::ready::{
    api_inspected_plan, api_stage, configure_stage, configure_tried, popups_replied, popups_stage,
};
use crate::state_machine::startup::{
    agent_plan, authenticate_inspected, authenticate_replied, authenticate_stage, conflict_stage, init_plan,
    login_inspected_plan, login_stage,
};
use crate::state_machine::twofa::{code_tried, device_tried, hitl_stage, notified, twofa_confirmed, twofa_stage};
use crate::state_machine::types::Phase;
use crate::text::occurs;
use crate::types::WindowId;
use crate::windows::{
    any_window, first_window, first_window_is_first, ids_of, is_kind, ComponentsModel, WindowKind, WindowModel,
};
use vstd::prelude::*;

verus! {

/// Some window has this text in its title.
pub open spec fn titled(s: Seq<WindowModel>, text: Seq<char>) -> bool {
    exists|i: int| 0 <= i < s.len() && occurs((#[trigger] s[i]).title, text)
}

/// Some window has the title of the Gateway.
pub open spec fn gateway_titled(s: Seq<WindowModel>) -> bool {
    titled(s, "ib gateway"@) || titled(s, "ibkr gateway"@)
}

/// The window at `i` has this text in its title, and none before it.
pub open spec fn first_titled(s: Seq<WindowModel>, text: Seq<char>, i: int) -> bool {
    0 <= i < s.len() && occurs(s[i].title, text) && forall|j: int|
        0 <= j < i ==> !occurs((#[trigger] s[j]).title, text)
}

/// The window at `i` has the title of the Gateway, and none before it.
pub open spec fn first_gateway_titled(s: Seq<WindowModel>, i: int) -> bool {
    0 <= i < s.len() && (occurs(s[i].title, "ib gateway"@) || occurs(s[i].title, "ibkr gateway"@))
        && forall|j: int|
        0 <= j < i ==> !occurs((#[trigger] s[j]).title, "ib gateway"@) && !occurs(
            s[j].title,
            "ibkr gateway"@,
        )
}

/// The window at `i` asks for a new login, and none before it.
pub open spec fn first_relogin_titled(s: Seq<WindowModel>, i: int) -> bool {
    0 <= i < s.len() && (occurs(s[i].title, "re-login"@) || occurs(s[i].title, "login is required"@))
        && forall|j: int|
        0 <= j < i ==> !occurs((#[trigger] s[j]).title, "re-login"@) && !occurs(
            s[j].title,
            "login is required"@,
        )
}

/// These are the identifiers of the windows with the title of the Gateway, in their order.
pub open spec fn lists_gateways(s: Seq<WindowModel>, ids: Seq<WindowId>) -> bool
    decreases s.len(),
{
    if s.len() == 0 {
        ids.len() == 0
    } else if occurs(s.last().title, "ib gateway"@) || occurs(s.last().title, "ibkr gateway"@) {
        ids.len() > 0 && ids.last() == s.last().id && lists_gateways(s.drop_last(), ids.drop_last())
    } else {
        lists_gateways(s.drop_last(), ids)
    }
}

/// These are the identifiers of the windows that ask for a new login, in their order.
pub open spec fn lists_relogins(s: Seq<WindowModel>, ids: Seq<WindowId>) -> bool
    decreases s.len(),
{
    if s.len() == 0 {
        ids.len() == 0
    } else if occurs(s.last().title, "re-login"@) || occurs(s.last().title, "login is required"@) {
        ids.len() > 0 && ids.last() == s.last().id && lists_relogins(s.drop_last(), ids.drop_last())
    } else {
        lists_relogins(s.drop_last(), ids)
    }
}

proof fn listing(s: Seq<WindowModel>)
    ensures
        lists_gateways(s, ids_of(s, WindowKind::Gateway)),
        lists_relogins(s, ids_of(s, WindowKind::Relogin)),
    decreases s.len(),
{
    if s.len() > 0 {
        listing(s.drop_last());
        let g = ids_of(s.drop_last(), WindowKind::Gateway);
        assert(g.push(s.last().id).drop_last() =~= g);
        let r = ids_of(s.drop_last(), WindowKind::Relogin);
        assert(r.push(s.last().id).drop_last() =~= r);
    }
}

proof fn finding(s: Seq<WindowModel>)
    ensures
        any_window(s, WindowKind::SessionConflict) <==> titled(s, "existing session"@),
        any_window(s, WindowKind::SecondFactor) <==> titled(s, "second factor"@),
        any_window(s, WindowKind::Gateway) <==> gateway_titled(s),
        any_window(s, WindowKind::Relogin) <==> titled(s, "re-login"@) || titled(
            s,
            "login is required"@,
        ),
        first_window(s, WindowKind::SecondFactor) is Some <==> titled(s, "second factor"@),
        first_window(s, WindowKind::SessionConflict) is Some <==> titled(s, "existing session"@),
        first_window(s, WindowKind::Gateway) is Some <==> gateway_titled(s),
        first_window(s, WindowKind::Relogin) is Some <==> titled(s, "re-login"@) || titled(
            s,
            "login is required"@,
        ),
        forall|i: int|
            #![trigger s[i]]
            first_titled(s, "second factor"@, i) ==> first_window(s, WindowKind::SecondFactor)
                == Some(i),
        forall|i: int|
            #![trigger s[i]]
            first_titled(s, "existing session"@, i) ==> first_window(
                s,
                WindowKind::SessionConflict,
            ) == Some(i),
        forall|i: int|
            #![trigger s[i]]
            first_gateway_titled(s, i) ==> first_window(s, WindowKind::Gateway) == Some(i),
        forall|i: int|
            #![trigger s[i]]
            first_relogin_titled(s, i) ==> first_window(s, WindowKind::Relogin) == Some(i),
{
    first_window_is_first(s, WindowKind::SecondFactor);
    first_window_is_first(s, WindowKind::SessionConflict);
    first_window_is_first(s, WindowKind::Gateway);
    first_window_is_first(s, WindowKind::Relogin);
    assert(any_window(s, WindowKind::Gateway) ==> gateway_titled(s)) by {
        if any_window(s, WindowKind::Gateway) {
            let i = choose|i: int|
                0 <= i < s.len() && is_kind(WindowKind::Gateway, (#[trigger] s[i]).title);
            assert(occurs(s[i].title, "ib gateway"@) || occurs(s[i].title, "ibkr gateway"@));
        }
    }
    assert(any_window(s, WindowKind::Relogin) ==> titled(s, "re-login"@) || titled(
        s,
        "login is required"@,
    )) by {
        if any_window(s, WindowKind::Relogin) {
            let i = choose|i: int|
                0 <= i < s.len() && is_kind(WindowKind::Relogin, (#[trigger] s[i]).title);
            assert(occurs(s[i].title, "re-login"@) || occurs(s[i].title, "login is required"@));
        }
    }
    assert(gateway_titled(s) ==> any_window(s, WindowKind::Gateway)) by {
        if gateway_titled(s) {
            let i = choose|i: int|
                0 <= i < s.len() && (occurs((#[trigger] s[i]).title, "ib gateway"@) || occurs(
                    s[i].title,
                    "ibkr gateway"@,
                ));
            assert(is_kind(WindowKind::Gateway, s[i].title));
        }
    }
    assert(titled(s, "re-login"@) || titled(s, "login is required"@) ==> any_window(
        s,
        WindowKind::Relogin,
    )) by {
        if titled(s, "re-login"@) || titled(s, "login is required"@) {
            let i = choose|i: int|
                0 <= i < s.len() && (occurs((#[trigger] s[i]).title, "re-login"@) || occurs(
                    s[i].title,
                    "login is required"@,
                ));
            assert(is_kind(WindowKind::Relogin, s[i].title));
        }
    }
    assert forall|i: int|
        #![trigger s[i]]
        first_titled(s, "second factor"@, i) implies first_window(s, WindowKind::SecondFactor)
        == Some(i) by {
        assert(is_kind(WindowKind::SecondFactor, s[i].title));
        let k = first_window(s, WindowKind::SecondFactor)->0;
        assert(occurs(s[k].title, "second factor"@));
    }
    assert forall|i: int|
        #![trigger s[i]]
        first_titled(s, "existing session"@, i) implies first_window(s, WindowKind::SessionConflict)
        == Some(i) by {
        assert(is_kind(WindowKind::SessionConflict, s[i].title));
        let k = first_window(s, WindowKind::SessionConflict)->0;
        assert(occurs(s[k].title, "existing session"@));
    }
    assert forall|i: int|
        #![trigger s[i]]
        first_gateway_titled(s, i) implies first_window(s, WindowKind::Gateway) == Some(i) by {
        assert(is_kind(WindowKind::Gateway, s[i].title));
        let k = first_window(s, WindowKind::Gateway)->0;
        assert(is_kind(WindowKind::Gateway, s[k].title));
    }
    assert forall|i: int|
        #![trigger s[i]]
        first_relogin_titled(s, i) implies first_window(s, WindowKind::Relogin) == Some(i) by {
        assert(is_kind(WindowKind::Relogin, s[i].title));
        let k = first_window(s, WindowKind::Relogin)->0;
        assert(is_kind(WindowKind::Relogin, s[k].title));
    }
}

/// To a phase at once, with nothing else to do.
pub open spec fn at_once(next: Phase) -> Plan {
    Plan {
        effects: Effects {
            abort_client_task: false,
            stop_socat: false,
            reset_handlers: false,
            kill_jvm: false,
            remove_socket: false,
        },
        pause_ms: 0,
        next,
    }
}

/// To a phase after a pause, with nothing else to do.
pub open spec fn later(ms: u64, next: Phase) -> Plan {
    Plan { pause_ms: ms, ..at_once(next) }
}

/// To a phase at once, with the handlers reset.
pub open spec fn at_once_reset(next: Phase) -> Plan {
    Plan {
        effects: Effects {
            abort_client_task: false,
            stop_socat: false,
            reset_handlers: true,
            kill_jvm: false,
            remove_socket: false,
        },
        pause_ms: 0,
        next,
    }
}

/// More than `secs` seconds have passed since the state was entered.
pub open spec fn older_than(m: Model, now: u128, secs: int) -> bool {
    now - m.entered_at > secs * 1_000_000_000
}

/// The launch waits for the agent for a minute, and no longer; a dead JVM or a missing directory
/// is an error that names it.
pub proof fn launching_ends(m: Model, running: bool, healthy: bool, now: u128)
    ensures
        init_plan(m.config, true) == at_once(Phase::Launching),
        init_plan(m.config, false) == at_once(
            Phase::Error("TWS path does not exist: "@ + m.config.gateway.tws_path@),
        ),
        agent_plan(m, false, healthy, now) == at_once(
            Phase::Error("JVM process exited before agent became ready"@),
        ),
        agent_plan(m, true, true, now) == at_once(Phase::WaitingForLogin),
        older_than(m, now, 60) ==> agent_plan(m, true, false, now) == at_once(
            Phase::Error("Timed out waiting for agent health check"@),
        ),
        !older_than(m, now, 60) ==> agent_plan(m, true, false, now) == later(
            500,
            Phase::WaitingForAgent,
        ),
{
}

/// The login window is still awaited: until its time is up, where it has a limit.
pub open spec fn login_awaited(m: Model, now: u128, stage: StageModel) -> bool {
    let limit = m.config.timing.login_dialog_timeout_secs;
    if limit != 0 && older_than(m, now, limit as int) {
        stage == StageModel::Done(at_once(Phase::Error("Timed out waiting for login window"@)))
    } else {
        stage == StageModel::Done(later(500, Phase::WaitingForLogin))
    }
}

/// Without a warm restart and with the cache of windows in step, the cache alone decides: a
/// conflict first, then the second factor, then a re-login, and then the main window by its
/// login button. Without any of them the wait goes on until its limit; a limit of zero is none.
pub proof fn login_goes_by_the_cache(
    m: Model,
    blocking: Option<Phase>,
    windows: Option<Seq<WindowModel>>,
    now: u128,
)
    requires
        m.warm_restart is None,
        m.observation.synced,
    ensures
        ({
            let o = m.observation;
            let (after, stage) = login_stage(m, true, blocking, windows, now);
            &&& after == m
            &&& o.session_conflict() ==> stage == StageModel::Done(
                at_once(Phase::HandlingSessionConflict),
            )
            &&& !o.session_conflict() && o.twofa_dialog() ==> stage == StageModel::Done(
                at_once(Phase::WaitingFor2fa),
            )
            &&& !o.session_conflict() && !o.twofa_dialog() && o.relogin_dialog() ==> stage
                == StageModel::Done(at_once(Phase::ReconnectingSession))
            &&& !o.session_conflict() && !o.twofa_dialog() && !o.relogin_dialog() ==> (
            match o.main_window() {
                Some(w) => stage == StageModel::Done(
                    at_once(
                        if w.has_login_button {
                            Phase::Authenticating
                        } else {
                            Phase::DismissingPopups
                        },
                    ),
                ),
                None => login_awaited(m, now, stage),
            })
        }),
        login_stage(m, false, blocking, windows, now) == (
            m,
            StageModel::Done(
                at_once(Phase::Error("JVM process exited while waiting for login window"@)),
            ),
        ),
{
}

/// Without a warm restart and with the cache out of step, the listed windows decide: a blocking
/// dialog first, then a conflict, and then the first main window is inspected.
pub proof fn login_goes_by_the_windows(
    m: Model,
    blocking: Option<Phase>,
    windows: Option<Seq<WindowModel>>,
    i: int,
    now: u128,
)
    requires
        m.warm_restart is None,
        !m.observation.synced,
    ensures
        login_stage(m, false, blocking, windows, now).1 == StageModel::Done(
            at_once(Phase::Error("JVM process exited while waiting for login window"@)),
        ),
        ({
            let (after, stage) = login_stage(m, true, blocking, windows, now);
            &&& after == m
            &&& blocking matches Some(p) ==> stage == StageModel::Done(at_once(p))
            &&& blocking is None ==> match windows {
                None => login_awaited(m, now, stage),
                Some(s) => {
                    &&& titled(s, "existing session"@) ==> stage == StageModel::Done(
                        at_once(Phase::HandlingSessionConflict),
                    )
                    &&& !titled(s, "existing session"@) && first_gateway_titled(s, i) ==> stage
                        == StageModel::Inspect(seq![s[i].id])
                    &&& !titled(s, "existing session"@) && !gateway_titled(s) ==> login_awaited(
                        m,
                        now,
                        stage,
                    )
                },
            }
        }),
{
    if windows is Some {
        finding(windows->0);
        let s = windows->0;
        if first_gateway_titled(s, i) {
            assert(s[i] == s[i]);
            assert(first_window(s, WindowKind::Gateway) == Some(i));
        }
    }
}

/// A window that shows that the Gateway has resumed its session by itself.
pub open spec fn resumed_by(w: WindowModel) -> bool {
    (occurs(w.title, "ib gateway"@) || occurs(w.title, "ibkr gateway"@)) && !occurs(
        w.title,
        "login"@,
    ) && !occurs(w.title, "configuration"@) && (w.width matches Some(n) && n > 400)
}

/// During a warm restart the login window is left alone: for two minutes the main window is
/// awaited, at its full width and neither the login nor the configuration. After that the
/// token is dropped and the login is done anew, with its time counted from then.
pub proof fn warm_restarts_leave_the_login_alone(
    m: Model,
    blocking: Option<Phase>,
    windows: Option<Seq<WindowModel>>,
    i: int,
    now: u128,
)
    requires
        m.warm_restart is Some,
    ensures
        login_stage(m, false, blocking, windows, now) == (
            Model { warm_restart: None, ..m },
            StageModel::Done(at_once(Phase::Error("JVM exited during warm restart login"@))),
        ),
        (windows matches Some(s) && 0 <= i < s.len() && resumed_by(s[i])) ==> login_stage(
            m,
            true,
            blocking,
            windows,
            now,
        ) == (
            Model { warm_restart: None, ..m },
            StageModel::Done(at_once(Phase::DismissingPopups)),
        ),
        (match windows {
            Some(s) => forall|k: int| 0 <= k < s.len() ==> !resumed_by(#[trigger] s[k]),
            None => true,
        }) ==> login_stage(m, true, blocking, windows, now) == if older_than(m, now, 120) {
            login_stage(
                Model { warm_restart: None, entered_at: now, ..m },
                true,
                blocking,
                windows,
                now,
            )
        } else {
            (m, StageModel::Done(later(2000, Phase::WaitingForLogin)))
        },
{
    if windows is Some {
        let s = windows->0;
        assert forall|k: int| 0 <= k < s.len() implies resumed_by(#[trigger] s[k])
            == crate::state_machine::startup::resumed_window(s[k]) by {}
        if 0 <= i < s.len() && resumed_by(s[i]) {
            assert(crate::state_machine::startup::resumed_window(s[i]));
        }
    }
}

/// Where the main window shows text fields the login is filled in, and where it shows none the
/// login is over. A window that cannot be inspected counts as a login form while the form is
/// awaited, and as none while it is filled in.
pub proof fn text_fields_tell_the_login(c: ComponentsModel, window: WindowId)
    ensures
        login_inspected_plan(Some(c)) == at_once(
            if c.textfields != 0 {
                Phase::Authenticating
            } else {
                Phase::DismissingPopups
            },
        ),
        login_inspected_plan(None) == at_once(Phase::Authenticating),
        c.textfields != 0 ==> authenticate_inspected(window, Some(c)) == StageModel::Dispatch(window),
        c.textfields == 0 ==> authenticate_inspected(window, Some(c)) == StageModel::Done(
            at_once(Phase::DismissingPopups),
        ),
        authenticate_inspected(window, None) == StageModel::Done(at_once(Phase::DismissingPopups)),
{
}

/// The login goes to the first main window, unless a dialog blocks; without a main window the
/// login is awaited again. A submitted login leads to the second factor, and every other reply
/// of the handler back to the wait, with the handlers reset where it failed.
pub proof fn authentication_steps(
    m: Model,
    blocking: Option<Phase>,
    s: Seq<WindowModel>,
    i: int,
    reply: HandlerReply,
)
    ensures
        blocking matches Some(p) ==> authenticate_stage(blocking, s) == StageModel::Done(at_once(p)),
        blocking is None && first_gateway_titled(s, i) ==> authenticate_stage(blocking, s)
            == StageModel::Inspect(seq![s[i].id]),
        blocking is None && !gateway_titled(s) ==> authenticate_stage(blocking, s)
            == StageModel::Done(at_once(Phase::WaitingForLogin)),
        authenticate_replied(m, HandlerReply::Handled) == later(
            m.config.timing.post_login_delay_ms,
            Phase::WaitingFor2fa,
        ),
        reply == HandlerReply::Error || reply == HandlerReply::Failed ==> authenticate_replied(
            m,
            reply,
        ) == at_once_reset(Phase::WaitingForLogin),
        reply == HandlerReply::NotApplicable || reply == HandlerReply::Unmatched
            ==> authenticate_replied(m, reply) == later(2000, Phase::WaitingForLogin),
        first_titled(s, "existing session"@, i) ==> conflict_stage(s) == StageModel::Dispatch(
            s[i].id,
        ),
        !titled(s, "existing session"@) ==> conflict_stage(s) == StageModel::Done(
            later(2000, Phase::DismissingPopups),
        ),
{
    finding(s);
    if 0 <= i < s.len() {
        assert(s[i] == s[i]);
    }
}

/// The machine is as before, but for what the wait for the second factor keeps track of.
pub open spec fn only_2fa_changed(m: Model, after: Model) -> bool {
    after == (Model {
        device_selected: after.device_selected,
        twofa_seen: after.twofa_seen,
        twofa_gone_at: after.twofa_gone_at,
        agent_failures: after.agent_failures,
        hitl: HitlState { consecutive_timeouts: after.hitl.consecutive_timeouts, ..m.hitl },
        ..m
    })
}

/// A timeout of the second factor does not end the process.
pub open spec fn tries_again(c: Config) -> bool {
    c.twofa.relogin_after_timeout || c.twofa.timeout_action@ == "restart"@
}

/// The time for the second factor is up: the timeout is counted, and the machine goes by the
/// policy. It shuts down where it is not to try again; it waits for the operator where that is
/// to be done at once, or where as many timeouts as are allowed have come in a row; and it
/// restarts otherwise.
pub open spec fn ends_by_policy(m: Model, after: Model, stage: StageModel) -> bool {
    let b = m.config.twofa.backoff;
    let count = m.hitl.consecutive_timeouts + 1;
    let over_limit = b.max_immediate_attempts != 0 && count >= b.max_immediate_attempts;
    &&& m.hitl.consecutive_timeouts < u32::MAX ==> after.hitl.consecutive_timeouts == count
    &&& !tries_again(m.config) ==> stage == StageModel::Done(at_once(Phase::Shutdown))
    &&& tries_again(m.config) && b.on_timeout == OnTimeout::HitlImmediately ==> stage
        == StageModel::Done(at_once(Phase::WaitingForHitl2fa))
    &&& tries_again(m.config) && b.on_timeout == OnTimeout::RestartForever ==> stage
        == StageModel::Done(at_once(Phase::Restarting))
    &&& tries_again(m.config) && b.on_timeout == OnTimeout::RestartThenHitl
        && m.hitl.consecutive_timeouts < u32::MAX ==> stage == StageModel::Done(
        at_once(
            if over_limit {
                Phase::WaitingForHitl2fa
            } else {
                Phase::Restarting
            },
        ),
    )
}

/// A look that decided nothing: with its time up the wait ends by the policy, and before that it
/// goes on for another second with no timeout counted.
pub open spec fn undecided(m: Model, after: Model, stage: StageModel, now: u128) -> bool {
    if older_than(m, now, m.config.twofa.timeout_seconds as int) {
        ends_by_policy(m, after, stage)
    } else {
        &&& stage == StageModel::Done(later(1000, Phase::WaitingFor2fa))
        &&& after.hitl.consecutive_timeouts == m.hitl.consecutive_timeouts
    }
}

/// The wait for the second factor ends with its time, whatever the windows show that decides
/// nothing: a dialog that stays open without a secret to make a code from, a dialog that has
/// just gone, no dialog in the first ten seconds, or an agent that does not answer.
pub proof fn second_factor_ends_with_its_time(m: Model, s: Seq<WindowModel>, now: u128)
    requires
        !m.observation.relogin_dialog(),
        !m.observation.session_conflict(),
    ensures
        ({
            let (after, stage) = twofa_stage(m, true, Some(s), now);
            let calm = !titled(s, "existing session"@);
            let settled = m.device_selected || m.config.twofa.device@.len() == 0;
            let just_gone = match m.twofa_gone_at {
                Some(t) => now - t < 5_000_000_000,
                None => true,
            };
            &&& calm && titled(s, "second factor"@) && settled && !m.has_totp_secret ==> undecided(
                m,
                after,
                stage,
                now,
            )
            &&& calm && !titled(s, "second factor"@) && m.twofa_seen && just_gone ==> undecided(
                m,
                after,
                stage,
                now,
            )
            &&& calm && !titled(s, "second factor"@) && !m.twofa_seen && !older_than(m, now, 10)
                ==> undecided(m, after, stage, now)
        }),
        m.agent_failures < 9 ==> undecided(
            m,
            twofa_stage(m, true, None, now).0,
            twofa_stage(m, true, None, now).1,
            now,
        ),
{
    finding(s);
}

/// A device that is not in the list, a code that is not accepted and an inspection that shows
/// nothing decide nothing either, and end with the time.
pub proof fn second_factor_tries_end_with_its_time(
    m: Model,
    window: WindowId,
    reply: HandlerReply,
    dumps: Seq<Option<ComponentsModel>>,
    now: u128,
)
    ensures
        !m.has_totp_secret ==> undecided(
            m,
            device_tried(m, window, false, now).0,
            device_tried(m, window, false, now).1,
            now,
        ),
        reply != HandlerReply::Handled ==> undecided(
            m,
            code_tried(m, reply, now).0,
            code_tried(m, reply, now).1,
            now,
        ),
        (forall|i: int| 0 <= i < dumps.len() ==> (#[trigger] dumps[i]) is None) ==> undecided(
            m,
            twofa_confirmed(m, dumps, now).0,
            twofa_confirmed(m, dumps, now).1,
            now,
        ),
{
}

/// What a look at the second factor decides before any window is seen: a dead JVM is an error, a
/// re-login leads back to the login, and a conflict to its handling.
pub proof fn second_factor_decides(m: Model, windows: Option<Seq<WindowModel>>, now: u128)
    ensures
        twofa_stage(m, false, windows, now) == (
            m,
            StageModel::Done(at_once(Phase::Error("JVM exited during 2FA wait"@))),
        ),
        m.observation.relogin_dialog() ==> twofa_stage(m, true, windows, now) == (
            m,
            StageModel::Done(at_once(Phase::WaitingForLogin)),
        ),
        !m.observation.relogin_dialog() && m.observation.session_conflict() ==> twofa_stage(
            m,
            true,
            windows,
            now,
        ) == (m, StageModel::Done(at_once(Phase::HandlingSessionConflict))),
{
}

/// While the second factor is waited for, a session conflict among the windows is handled, and a
/// dialog that has not shown for ten seconds is no longer expected. An agent that answers is
/// trusted again.
pub proof fn second_factor_goes_by_the_windows(m: Model, s: Seq<WindowModel>, now: u128)
    requires
        !m.observation.relogin_dialog(),
        !m.observation.session_conflict(),
    ensures
        ({
            let (after, stage) = twofa_stage(m, true, Some(s), now);
            &&& after.agent_failures == 0
            &&& titled(s, "existing session"@) ==> stage == StageModel::Done(
                at_once(Phase::HandlingSessionConflict),
            )
            &&& !titled(s, "existing session"@) && !titled(s, "second factor"@) && !m.twofa_seen
                && older_than(m, now, 10) ==> stage == StageModel::Done(
                at_once(Phase::DismissingPopups),
            )
        }),
{
    finding(s);
}

/// While the second factor is waited for, silences of the agent are counted, and the tenth in a
/// row is an error.
pub proof fn second_factor_counts_silences(m: Model, now: u128)
    requires
        !m.observation.relogin_dialog(),
        !m.observation.session_conflict(),
    ensures
        ({
            let (after, stage) = twofa_stage(m, true, None, now);
            &&& m.agent_failures < u32::MAX ==> after.agent_failures == m.agent_failures + 1
            &&& m.agent_failures >= 9 ==> stage == StageModel::Done(
                at_once(Phase::Error("Agent unreachable during 2FA wait"@)),
            )
        }),
{
}

/// A look at the second factor changes nothing else.
pub proof fn second_factor_changes_its_own(m: Model, windows: Option<Seq<WindowModel>>, now: u128)
    ensures
        only_2fa_changed(m, twofa_stage(m, true, windows, now).0),
{
}

/// What is done about an open dialog: the device is picked first, where one is configured and
/// none was picked yet, and then the code is entered, where there is a secret. The dialog counts
/// as seen, and as not gone.
pub proof fn second_factor_dialogs_are_worked(m: Model, s: Seq<WindowModel>, i: int, now: u128)
    requires
        !m.observation.relogin_dialog(),
        !m.observation.session_conflict(),
        !titled(s, "existing session"@),
        first_titled(s, "second factor"@, i),
    ensures
        ({
            let (after, stage) = twofa_stage(m, true, Some(s), now);
            let to_pick = !m.device_selected && m.config.twofa.device@.len() > 0;
            &&& after.twofa_seen
            &&& after.twofa_gone_at is None
            &&& to_pick ==> stage == StageModel::SelectDevice(s[i].id) && !after.device_selected
            &&& !to_pick ==> after.device_selected
            &&& !to_pick && m.has_totp_secret ==> stage == StageModel::Dispatch(s[i].id)
        }),
        ({
            let (after, stage) = device_tried(m, s[i].id, true, now);
            after == (Model { device_selected: true, ..m }) && stage == StageModel::Done(
                later(2000, Phase::WaitingFor2fa),
            )
        }),
        device_tried(m, s[i].id, false, now).0.device_selected,
        m.has_totp_secret ==> device_tried(m, s[i].id, false, now).1 == StageModel::Dispatch(
            s[i].id,
        ),
        code_tried(m, HandlerReply::Handled, now) == (
            m,
            StageModel::Done(later(3000, Phase::DismissingPopups)),
        ),
{
    finding(s);
    assert(s[i] == s[i]);
}

/// A dialog that has gone is given five seconds to come back; then every main window is
/// inspected. A login form means failure and leads back to the login, a main window without one
/// means success; a form anywhere outweighs.
pub proof fn second_factor_is_confirmed(
    m: Model,
    s: Seq<WindowModel>,
    dumps: Seq<Option<ComponentsModel>>,
    i: int,
    now: u128,
)
    requires
        !m.observation.relogin_dialog(),
        !m.observation.session_conflict(),
    ensures
        !titled(s, "existing session"@) && !titled(s, "second factor"@) && m.twofa_seen ==> {
            let (after, stage) = twofa_stage(m, true, Some(s), now);
            &&& after.twofa_gone_at == Some(
                match m.twofa_gone_at {
                    Some(t) => t,
                    None => now,
                },
            )
            &&& (m.twofa_gone_at matches Some(t) && now - t >= 5_000_000_000) ==> (
            stage matches StageModel::Inspect(ids) && lists_gateways(s, ids))
        },
        0 <= i < dumps.len() && (dumps[i] matches Some(c) && c.textfields > 0) ==> twofa_confirmed(
            m,
            dumps,
            now,
        ) == (m, StageModel::Done(at_once_reset(Phase::WaitingForLogin))),
        (forall|k: int|
            0 <= k < dumps.len() ==> !(#[trigger] dumps[k] matches Some(c) && c.textfields > 0))
            && 0 <= i < dumps.len() && dumps[i] is Some ==> twofa_confirmed(m, dumps, now) == (
            m,
            StageModel::Done(at_once(Phase::DismissingPopups)),
        ),
{
    finding(s);
    listing(s);
    if 0 <= i < dumps.len() && dumps[i] is Some {
        let c = dumps[i]->0;
        if c.textfields > 0 {
            assert(c.login_form());
        } else {
            assert(!c.login_form());
        }
    }
}

/// While popups are dismissed, a dead JVM is an error and an open dialog leads to the flow that
/// owns it, with the handlers reset but for the second factor. The listed dialogs count only
/// while the cache of windows is out of step; without any, the handlers act on the windows.
pub proof fn popups_give_way_to_dialogs(m: Model, blocking: Option<Phase>)
    ensures
        popups_stage(m, false, blocking) == StageModel::Done(
            at_once(Phase::Error("JVM exited during popup dismissal"@)),
        ),
        ({
            let o = m.observation;
            let stage = popups_stage(m, true, blocking);
            let calm = !o.twofa_dialog() && !o.relogin_dialog() && !o.session_conflict();
            &&& o.twofa_dialog() ==> stage == StageModel::Done(at_once(Phase::WaitingFor2fa))
            &&& !o.twofa_dialog() && o.relogin_dialog() ==> stage == StageModel::Done(
                at_once_reset(Phase::ReconnectingSession),
            )
            &&& !o.twofa_dialog() && !o.relogin_dialog() && o.session_conflict() ==> stage
                == StageModel::Done(at_once_reset(Phase::HandlingSessionConflict))
            &&& calm && (o.synced || blocking is None) ==> stage == StageModel::DispatchAll
            &&& calm && !o.synced && blocking == Some(Phase::WaitingFor2fa) ==> stage
                == StageModel::Done(at_once(Phase::WaitingFor2fa))
            &&& calm && !o.synced && blocking == Some(Phase::ReconnectingSession) ==> stage
                == StageModel::Done(at_once_reset(Phase::ReconnectingSession))
        }),
{
}

/// A handler answered for a window, whatever it made of it.
pub open spec fn answered(reply: HandlerReply) -> bool {
    reply != HandlerReply::Failed && reply != HandlerReply::Unmatched
}

/// The popups are over once none has come for the configured time, counted from the last one
/// or from the beginning, and in any case once the longest wait has passed; until then they are
/// looked for twice a second. A popup that came is noted with its time.
pub proof fn popups_are_waited_out(m: Model, replies: Seq<HandlerReply>, i: int, now: u128)
    ensures
        0 <= i < replies.len() && answered(replies[i]) ==> popups_replied(m, replies, now) == (
            Model { popup_dismissed: Some(now), ..m },
            if older_than(m, now, m.config.timing.popup_max_wait_secs as int) {
                at_once(Phase::WaitingForApiReady)
            } else {
                later(500, Phase::DismissingPopups)
            },
        ),
        (forall|k: int| 0 <= k < replies.len() ==> !answered(#[trigger] replies[k])) ==> {
            let since = match m.popup_dismissed {
                Some(t) => t,
                None => m.entered_at,
            };
            popups_replied(m, replies, now) == (
                m,
                if now - since > m.config.timing.popup_quiet_secs * 1_000_000_000 || older_than(
                    m,
                    now,
                    m.config.timing.popup_max_wait_secs as int,
                ) {
                    at_once(Phase::WaitingForApiReady)
                } else {
                    later(500, Phase::DismissingPopups)
                },
            )
        },
{
    if 0 <= i < replies.len() && answered(replies[i]) {
        assert(crate::state_machine::ready::took(replies[i]));
    }
    assert forall|k: int| 0 <= k < replies.len() && crate::state_machine::ready::took(
        #[trigger] replies[k],
    ) implies answered(replies[k]) by {}
}

/// The wait for the API server goes on for two minutes and then ends in a restart, with the
/// client id task stopped.
pub open spec fn api_awaited(m: Model, now: u128, plan: Plan) -> bool {
    if older_than(m, now, 120) {
        plan == (Plan {
            effects: Effects {
                abort_client_task: true,
                stop_socat: false,
                reset_handlers: false,
                kill_jvm: false,
                remove_socket: false,
            },
            pause_ms: 0,
            next: Phase::Restarting,
        })
    } else {
        plan == later(2000, Phase::WaitingForApiReady)
    }
}

/// While the API server is awaited, a dead JVM means a restart; an open dialog or a login form
/// leads to the flow that owns it, by the cache first and then by the listed windows; and then
/// every main window is inspected.
pub proof fn api_wait_gives_way_to_dialogs(
    m: Model,
    blocking: Option<Phase>,
    windows: Option<Seq<WindowModel>>,
    now: u128,
)
    ensures
        api_stage(m, false, blocking, windows, now) == StageModel::Done(at_once(Phase::Restarting)),
        ({
            let o = m.observation;
            let stage = api_stage(m, true, blocking, windows, now);
            let calm = !o.twofa_dialog() && !o.relogin_dialog() && !o.session_conflict()
                && !o.login_form();
            &&& o.twofa_dialog() ==> stage == StageModel::Done(at_once(Phase::WaitingFor2fa))
            &&& !o.twofa_dialog() && o.relogin_dialog() ==> stage == StageModel::Done(
                at_once(Phase::ReconnectingSession),
            )
            &&& !o.twofa_dialog() && !o.relogin_dialog() && o.session_conflict() ==> stage
                == StageModel::Done(at_once(Phase::HandlingSessionConflict))
            &&& !o.twofa_dialog() && !o.relogin_dialog() && !o.session_conflict() && o.login_form()
                ==> stage == StageModel::Done(at_once(Phase::WaitingForLogin))
            &&& calm ==> (blocking matches Some(p) ==> stage == StageModel::Done(at_once(p)))
            &&& calm && blocking is None ==> match windows {
                Some(s) => stage matches StageModel::Inspect(ids) && lists_gateways(s, ids),
                None => stage matches StageModel::Done(plan) && api_awaited(m, now, plan),
            }
        }),
{
    if windows is Some {
        listing(windows->0);
    }
}

/// An inspected window says that the API server is connected: a label that is exactly that
/// word, or a table row that names the server and says connected and not disconnected.
pub open spec fn says_connected(c: ComponentsModel) -> bool {
    (exists|i: int| 0 <= i < c.labels.len() && #[trigger] c.labels[i] == "connected"@) || (exists|
        i: int,
    |
        0 <= i < c.rows.len() && occurs((#[trigger] c.rows[i]).0, "api server"@) && occurs(
            c.rows[i].1,
            "connected"@,
        ) && !occurs(c.rows[i].1, "disconnected"@))
}

/// An inspected window says that the API server is disconnected: labels of which one names the
/// server and one is exactly that word, or a table row that says so.
pub open spec fn says_disconnected(c: ComponentsModel) -> bool {
    ((exists|i: int| 0 <= i < c.labels.len() && occurs(#[trigger] c.labels[i], "api server"@)) && (
    exists|i: int| 0 <= i < c.labels.len() && #[trigger] c.labels[i] == "disconnected"@)) || (
    exists|i: int|
        0 <= i < c.rows.len() && occurs((#[trigger] c.rows[i]).0, "api server"@) && occurs(
            c.rows[i].1,
            "disconnected"@,
        ))
}

proof fn reading_components(c: ComponentsModel)
    ensures
        c.connected() <==> says_connected(c),
        c.disconnected() <==> says_disconnected(c),
        c.login_form() <==> c.textfields > 0,
{
    assert forall|i: int| 0 <= i < c.rows.len() implies crate::windows::row_connected(
        #[trigger] c.rows[i],
    ) == (occurs(c.rows[i].0, "api server"@) && occurs(c.rows[i].1, "connected"@) && !occurs(
        c.rows[i].1,
        "disconnected"@,
    )) by {}
    assert forall|i: int| 0 <= i < c.rows.len() implies crate::windows::row_disconnected(
        #[trigger] c.rows[i],
    ) == (occurs(c.rows[i].0, "api server"@) && occurs(c.rows[i].1, "disconnected"@)) by {}
}

/// The configuration follows when the window at `i` says that the API server is connected and
/// neither it nor one before it shows text fields. Where no window says so, or the first to
/// show text fields comes before all that do, the wait goes on until its end.
pub proof fn the_api_server_is_confirmed(
    m: Model,
    dumps: Seq<Option<ComponentsModel>>,
    i: int,
    now: u128,
)
    ensures
        0 <= i < dumps.len() && (dumps[i] matches Some(c) && says_connected(c)) && (forall|k: int|
            0 <= k <= i ==> !(#[trigger] dumps[k] matches Some(c) && c.textfields > 0))
            ==> api_inspected_plan(m, dumps, now) == at_once(Phase::ConfiguringApi),
        (forall|k: int|
            0 <= k < dumps.len() ==> !(#[trigger] dumps[k] matches Some(c) && says_connected(c)))
            ==> api_awaited(m, now, api_inspected_plan(m, dumps, now)),
        0 <= i < dumps.len() && (dumps[i] matches Some(c) && c.textfields > 0) && (forall|k: int|
            0 <= k < i ==> !(#[trigger] dumps[k] matches Some(c) && says_connected(c)))
            ==> api_awaited(m, now, api_inspected_plan(m, dumps, now)),
{
    assert forall|k: int| 0 <= k < dumps.len() implies (#[trigger] dumps[k] matches Some(c) ==> (
    c.connected() <==> says_connected(c)) && (c.login_form() <==> c.textfields > 0)) by {
        if dumps[k] is Some {
            reading_components(dumps[k]->0);
        }
    }
    if 0 <= i < dumps.len() && (dumps[i] matches Some(c) && says_connected(c)) && (forall|k: int|
        0 <= k <= i ==> !(#[trigger] dumps[k] matches Some(c) && c.textfields > 0)) {
        assert(!crate::windows::login_form_seen(dumps.subrange(0, i + 1))) by {
            assert forall|k: int| 0 <= k < i + 1 implies !(#[trigger] dumps.subrange(0, i + 1)[k]
                matches Some(c) && c.login_form()) by {
                assert(dumps.subrange(0, i + 1)[k] == dumps[k]);
            }
        }
        assert(dumps[i] matches Some(c) && c.connected());
    }
    if 0 <= i < dumps.len() && (dumps[i] matches Some(c) && c.textfields > 0) && (forall|k: int|
        0 <= k < i ==> !(#[trigger] dumps[k] matches Some(c) && says_connected(c))) {
        assert forall|k: int|
            0 <= k < dumps.len() && (#[trigger] dumps[k] matches Some(c)
                && c.connected()) implies crate::windows::login_form_seen(
            dumps.subrange(0, k + 1),
        ) by {
            assert(k >= i);
            assert(dumps.subrange(0, k + 1)[i] == dumps[i]);
        }
    }
}

/// The API is configured where no dialog blocks and the JVM runs; each attempt is counted, and
/// what ends the attempts sets the count back. A success connects, the third failure in a row
/// restarts, and the ones before it are repeated after two seconds.
pub proof fn configuration_attempts(m: Model, running: bool, blocking: Option<Phase>)
    ensures
        blocking matches Some(p) ==> configure_stage(m, running, blocking) == (
            Model { config_retries: 0, ..m },
            StageModel::Done(at_once(p)),
        ),
        configure_stage(m, false, None) == (
            Model { config_retries: 0, ..m },
            StageModel::Done(at_once(Phase::Restarting)),
        ),
        m.config_retries < u32::MAX ==> configure_stage(m, true, None) == (
            Model { config_retries: (m.config_retries + 1) as u32, ..m },
            StageModel::Configure,
        ),
        configure_tried(m, true) == (
            Model { config_retries: 0, ..m },
            at_once(Phase::Connected),
        ),
        m.config_retries < 3 ==> configure_tried(m, false) == (
            m,
            later(2000, Phase::ConfiguringApi),
        ),
        m.config_retries >= 3 ==> configure_tried(m, false) == (
            Model { config_retries: 0, ..m },
            Plan {
                effects: Effects {
                    abort_client_task: true,
                    stop_socat: false,
                    reset_handlers: false,
                    kill_jvm: false,
                    remove_socket: false,
                },
                pause_ms: 0,
                next: Phase::Restarting,
            },
        ),
{
}

/// To a phase at once, with these of the client id task, the forwarder, the handlers and the
/// socket ended.
pub open spec fn at_once_with(
    client_task: bool,
    socat: bool,
    handlers: bool,
    socket: bool,
    next: Phase,
) -> StageModel {
    StageModel::Done(
        Plan {
            effects: Effects {
                abort_client_task: client_task,
                stop_socat: socat,
                reset_handlers: handlers,
                kill_jvm: false,
                remove_socket: socket,
            },
            pause_ms: 0,
            next,
        },
    )
}

/// The windows are listed for the active check exactly when eleven seconds or more have passed
/// since the state was entered and more than thirty since the cache last changed, whether or
/// not the cache is in step; else the session is left alone for ten seconds.
pub proof fn sessions_are_checked_actively(
    m: Model,
    token: Option<Seq<char>>,
    windows: Option<Seq<WindowModel>>,
    now: u128,
)
    requires
        !m.observation.relogin_dialog(),
        !m.observation.session_conflict(),
        !m.observation.login_form(),
    ensures
        ({
            let stage = connected_stage(m, true, token, windows, false, now).1;
            if now - m.entered_at >= 11_000_000_000 && now - m.observation.last_updated
                > 30_000_000_000 {
                stage == StageModel::List
            } else {
                stage == StageModel::Done(later(10_000, Phase::Connected))
            }
        }),
{
}

/// A connected session ends as soon as something speaks against it, in this order: a dead JVM,
/// which leaves its token for a warm restart; a re-login dialog; a conflict; a login button on
/// the main window; a port that has gone silent.
pub proof fn sessions_are_watched(
    m: Model,
    token: Option<Seq<char>>,
    windows: Option<Seq<WindowModel>>,
    port_lost: bool,
    now: u128,
)
    ensures
        ({
            let (after, stage) = connected_stage(m, false, token, windows, port_lost, now);
            after.warm_restart == token && stage == at_once_with(
                true,
                true,
                false,
                true,
                Phase::Restarting,
            )
        }),
        ({
            let o = m.observation;
            let (after, stage) = connected_stage(m, true, token, windows, port_lost, now);
            &&& after.warm_restart == m.warm_restart
            &&& o.relogin_dialog() ==> stage == at_once_with(
                true,
                true,
                false,
                false,
                Phase::ReconnectingSession,
            )
            &&& !o.relogin_dialog() && o.session_conflict() ==> stage == at_once_with(
                true,
                true,
                false,
                false,
                Phase::HandlingSessionConflict,
            )
            &&& !o.relogin_dialog() && !o.session_conflict() && o.login_form() ==> stage
                == at_once_with(true, false, true, false, Phase::WaitingForLogin)
                && after.connected_class is None
            &&& !o.relogin_dialog() && !o.session_conflict() && !o.login_form() && port_lost
                ==> stage == at_once_with(true, true, true, false, Phase::WaitingForLogin)
                && after.connected_class is None
        }),
{
}

/// While a session is kept, the class of its main window is that of the cache, where the cache
/// knows the window; else the one recorded before; else that of the first main window listed.
pub proof fn window_class_is_followed(
    m: Model,
    token: Option<Seq<char>>,
    windows: Option<Seq<WindowModel>>,
    i: int,
    now: u128,
)
    requires
        !m.observation.relogin_dialog(),
        !m.observation.session_conflict(),
        !m.observation.login_form(),
    ensures
        ({
            let after = connected_stage(m, true, token, windows, false, now).0;
            match m.observation.main_window() {
                Some(w) => after.connected_class == Some(w.class),
                None => {
                    &&& m.connected_class is Some ==> after.connected_class == m.connected_class
                    &&& m.connected_class is None ==> match windows {
                        Some(s) => {
                            &&& first_gateway_titled(s, i) ==> after.connected_class == Some(
                                s[i].class,
                            )
                            &&& !gateway_titled(s) ==> after.connected_class is None
                        },
                        None => after.connected_class is None,
                    }
                },
            }
        }),
{
    if windows is Some {
        let s = windows->0;
        finding(s);
        if 0 <= i < s.len() {
            assert(s[i] == s[i]);
        }
    }
}

/// Under the stable reset a session sets the count of timeouts and the schedule back once it
/// has lasted unbroken for the configured time, and not before; under the other reset the step
/// leaves them alone. Nothing else of the machine changes but the class of the window and the
/// token.
pub proof fn stable_sessions_reset_the_count(
    m: Model,
    running: bool,
    token: Option<Seq<char>>,
    windows: Option<Seq<WindowModel>>,
    port_lost: bool,
    now: u128,
)
    ensures
        ({
            let after = connected_stage(m, running, token, windows, port_lost, now).0;
            let b = m.config.twofa.backoff;
            let lasted = m.hitl.connected_continuously_since matches Some(t) && now >= t && now - t
                >= b.stable_secs * 1_000_000_000;
            &&& b.counter_reset == CounterReset::Stable && lasted ==> after.hitl == (HitlState {
                consecutive_timeouts: 0,
                intervals_index: 0,
                ..m.hitl
            })
            &&& b.counter_reset != CounterReset::Stable ==> after.hitl == m.hitl
            &&& m.hitl.connected_continuously_since is None ==> after.hitl == m.hitl
            &&& (m.hitl.connected_continuously_since matches Some(t) && now >= t && now - t
                < b.stable_secs * 1_000_000_000) ==> after.hitl == m.hitl
            &&& after == (Model {
                hitl: after.hitl,
                connected_class: after.connected_class,
                warm_restart: after.warm_restart,
                ..m
            })
        }),
{
}

/// The active check: a second factor dialog leads to its wait, and else every main window is
/// inspected; without an answer the session is left alone. Text fields or a disconnected API
/// server on any of them mean that the session is lost; else the handlers act.
pub proof fn active_check(
    m: Model,
    windows: Option<Seq<WindowModel>>,
    dumps: Seq<Option<ComponentsModel>>,
    i: int,
)
    ensures
        match windows {
            Some(s) => {
                &&& titled(s, "second factor"@) ==> liveness_listed(windows) == StageModel::Done(
                    at_once(Phase::WaitingFor2fa),
                )
                &&& !titled(s, "second factor"@) ==> (liveness_listed(windows)
                    matches StageModel::Inspect(ids) && lists_gateways(s, ids))
            },
            None => liveness_listed(windows) == StageModel::Done(later(10_000, Phase::Connected)),
        },
        0 <= i < dumps.len() && (dumps[i] matches Some(c) && (c.textfields > 0 || says_disconnected(
            c,
        ))) ==> liveness_inspected(m, dumps) == (
            Model { connected_class: None, ..m },
            at_once_with(true, true, true, false, Phase::WaitingForLogin),
        ),
        (forall|k: int|
            0 <= k < dumps.len() ==> !(#[trigger] dumps[k] matches Some(c) && (c.textfields > 0
                || says_disconnected(c)))) ==> liveness_inspected(m, dumps) == (
            m,
            StageModel::DispatchAll,
        ),
{
    if windows is Some {
        finding(windows->0);
        listing(windows->0);
    }
    assert forall|k: int| 0 <= k < dumps.len() implies (#[trigger] dumps[k] matches Some(c) ==> (
    c.disconnected() <==> says_disconnected(c)) && (c.login_form() <==> c.textfields > 0)) by {
        if dumps[k] is Some {
            reading_components(dumps[k]->0);
        }
    }
    if 0 <= i < dumps.len() {
        assert(dumps[i] == dumps[i]);
    }
}

/// More attempts than are allowed are given up: every re-login dialog is cancelled, the count is
/// set back, and the client id task and the handlers are ended. Within the first thirty seconds
/// the session may come back by itself; then the first re-login dialog is clicked, or the
/// recovery is confirmed where none is left.
pub proof fn recovery_steps(m: Model, windows: Option<Seq<WindowModel>>, i: int, now: u128)
    ensures
        m.relogin_attempts > m.config.timing.relogin_max_attempts ==> {
            let (after, stage) = reconnect_stage(m, windows, now);
            &&& after == (Model { relogin_attempts: 0, ..m })
            &&& stage matches StageModel::Cancel(ids, effects) && effects == (Effects {
                abort_client_task: true,
                stop_socat: false,
                reset_handlers: true,
                kill_jvm: false,
                remove_socket: false,
            }) && match windows {
                Some(s) => lists_relogins(s, ids),
                None => ids.len() == 0,
            }
        },
        m.relogin_attempts <= m.config.timing.relogin_max_attempts && now - m.entered_at
            < 30_000_000_000 ==> reconnect_stage(m, windows, now) == (
            m,
            StageModel::Done(later(2000, Phase::ReconnectingSession)),
        ),
        m.relogin_attempts <= m.config.timing.relogin_max_attempts && now - m.entered_at
            >= 30_000_000_000 ==> match windows {
            Some(s) => {
                &&& first_relogin_titled(s, i) ==> reconnect_stage(m, windows, now) == (
                    m,
                    StageModel::ClickRelogin(s[i].id),
                )
                &&& !titled(s, "re-login"@) && !titled(s, "login is required"@) ==> reconnect_stage(
                    m,
                    windows,
                    now,
                ) == (m, StageModel::Confirm)
            },
            None => reconnect_stage(m, windows, now) == (
                m,
                StageModel::Done(later(2000, Phase::ReconnectingSession)),
            ),
        },
{
    if windows is Some {
        let s = windows->0;
        finding(s);
        listing(s);
        if 0 <= i < s.len() {
            assert(s[i] == s[i]);
        }
    }
}

/// A recovery that was given up restarts; only where a new login is configured instead, and a
/// login form is observed or a main window is listed, it goes there.
pub proof fn given_up_recovery(m: Model, windows: Option<Seq<WindowModel>>)
    ensures
        m.config.timing.relogin_failure_action == ReloginFailureAction::Restart
            ==> reconnect_given_up(m, windows) == at_once(Phase::Restarting),
        m.config.timing.relogin_failure_action == ReloginFailureAction::Reauth && (
        m.observation.login_form() || (windows matches Some(s) && gateway_titled(s)))
            ==> reconnect_given_up(m, windows) == at_once(Phase::WaitingForLogin),
        !m.observation.login_form() && !(windows matches Some(s) && gateway_titled(s))
            ==> reconnect_given_up(m, windows) == at_once(Phase::Restarting),
{
    if windows is Some {
        finding(windows->0);
    }
}

/// A recovery is confirmed by what is seen: a second factor dialog leads to its wait, text fields
/// on a main window to the login, and a main window without any back to the connected state;
/// without evidence it is tried again. What leaves the recovery sets the attempts back.
pub proof fn recovery_goes_by_evidence(
    m: Model,
    windows: Option<Seq<WindowModel>>,
    dumps: Seq<Option<ComponentsModel>>,
    i: int,
)
    ensures
        m.observation.twofa_dialog() || (windows matches Some(s) && titled(s, "second factor"@))
            ==> reconnect_listed(m, windows) == (
            Model { relogin_attempts: 0, ..m },
            StageModel::Done(at_once_reset(Phase::WaitingFor2fa)),
        ),
        !m.observation.twofa_dialog() ==> match windows {
            Some(s) => !titled(s, "second factor"@) ==> (reconnect_listed(m, windows).0 == m && (
            reconnect_listed(m, windows).1 matches StageModel::Inspect(ids) && lists_gateways(
                s,
                ids,
            ))),
            None => reconnect_listed(m, windows) == (
                m,
                StageModel::Done(later(2000, Phase::ReconnectingSession)),
            ),
        },
        0 <= i < dumps.len() && (dumps[i] matches Some(c) && c.textfields > 0)
            ==> reconnect_inspected(m, dumps) == (
            Model { relogin_attempts: 0, ..m },
            StageModel::Done(at_once_reset(Phase::WaitingForLogin)),
        ),
        (forall|k: int|
            0 <= k < dumps.len() ==> !(#[trigger] dumps[k] matches Some(c) && c.textfields > 0))
            && 0 <= i < dumps.len() && dumps[i] is Some ==> reconnect_inspected(m, dumps) == (
            Model { relogin_attempts: 0, ..m },
            StageModel::Done(at_once(Phase::Connected)),
        ),
        (forall|k: int| 0 <= k < dumps.len() ==> (#[trigger] dumps[k]) is None)
            ==> reconnect_inspected(m, dumps) == (
            m,
            StageModel::Done(later(2000, Phase::ReconnectingSession)),
        ),
{
    if windows is Some {
        finding(windows->0);
        listing(windows->0);
    }
    if 0 <= i < dumps.len() && dumps[i] is Some {
        reading_components(dumps[i]->0);
        let c = dumps[i]->0;
        assert(c.login_form() || !c.login_form());
    }
}

/// A restart waits for as many whole seconds as are configured, none where that is zero. Then the
/// client id task, the forwarder and the JVM are ended, and only after that the socket and the
/// handlers are cleared away and the JVM is launched.
pub proof fn restarts_are_delayed_and_ordered(m: Model, now: u128)
    ensures
        ({
            let delay = m.config.timing.restart_delay_secs;
            if now - m.entered_at < delay * 1_000_000_000 && delay != 0 {
                restart_stage(m, now) == StageModel::Done(later(2000, Phase::Restarting))
            } else {
                restart_stage(m, now) == StageModel::EndJvm(
                    Effects {
                        abort_client_task: true,
                        stop_socat: true,
                        reset_handlers: false,
                        kill_jvm: true,
                        remove_socket: false,
                    },
                )
            }
        }),
        restart_plan() == (Plan {
            effects: Effects {
                abort_client_task: false,
                stop_socat: false,
                reset_handlers: true,
                kill_jvm: false,
                remove_socket: true,
            },
            pause_ms: 0,
            next: Phase::Launching,
        }),
{
}

/// The wait for the IB system: while it is unavailable it is looked at every five seconds; then
/// the machine goes back to where it came from, but for the connected state, which is confirmed
/// anew, and to the beginning where it came from nowhere.
pub proof fn ib_wait_steps(m: Model)
    ensures
        !m.ib.available ==> ib_stage(m) == (m, later(5000, Phase::WaitingForIB)),
        m.ib.available ==> {
            let (after, plan) = ib_stage(m);
            &&& after == (Model { ib: IbModel { return_to: None, ..m.ib }, ..m })
            &&& m.ib.return_to is None ==> plan == at_once(Phase::Init)
            &&& m.ib.return_to == Some(Phase::Connected) ==> plan == at_once(
                Phase::WaitingForApiReady,
            )
            &&& m.ib.return_to matches Some(p) ==> (!(p is Connected) ==> plan == at_once(p))
        },
{
}

/// The wait for the operator: a retry that is due restarts and moves on in the schedule; else a
/// notification that is owed is tried; else the wait goes on for five seconds. A notification
/// that was tried is counted, and noted as sent where it was.
pub proof fn operator_wait_steps(m: Model, now: u128, sent: bool)
    requires
        m.hitl.entered_at is Some,
    ensures
        ({
            let b = m.config.twofa.backoff;
            let due = m.hitl.next_retry_at matches Some(t) && now >= t;
            let owed = (b.strategy == crate::config::Strategy::NtfyCallback || b.strategy
                == crate::config::Strategy::Both) && !m.hitl.ntfy_sent && m.hitl.ntfy_attempts
                < b.ntfy_send_retries + 1;
            let (after, stage) = hitl_stage(m, now);
            &&& due ==> stage == StageModel::Done(at_once(Phase::Restarting))
            &&& due && m.hitl.intervals_index + 1 < b.intervals_minutes@.len() ==> after == (Model {
                hitl: HitlState {
                    intervals_index: (m.hitl.intervals_index + 1) as usize,
                    ..m.hitl
                },
                ..m
            })
            &&& due && m.hitl.intervals_index + 1 >= b.intervals_minutes@.len() > 0 ==> after == (
            Model {
                hitl: HitlState {
                    intervals_index: (b.intervals_minutes@.len() - 1) as usize,
                    ..m.hitl
                },
                ..m
            })
            &&& !due ==> after == m
            &&& !due && owed ==> stage == StageModel::Notify
            &&& !due && !owed ==> stage == StageModel::Done(later(5000, Phase::WaitingForHitl2fa))
        }),
        m.hitl.ntfy_attempts < u32::MAX ==> notified(m, sent) == (Model {
            hitl: HitlState {
                ntfy_attempts: (m.hitl.ntfy_attempts + 1) as u32,
                ntfy_sent: sent,
                ..m.hitl
            },
            ..m
        }),
{
}

/// The forwarder joins the ports of the mode: the paper ports in paper mode, and else the live
/// ones; the Gateway's port first.
pub proof fn ports_go_by_the_mode(m: Model)
    ensures
        m.config.auth.trading_mode@ == "paper"@ ==> ports(m) == (
            m.config.gateway.paper_api_port,
            m.config.gateway.paper_socat_port,
        ),
        m.config.auth.trading_mode@ != "paper"@ ==> ports(m) == (
            m.config.gateway.live_api_port,
            m.config.gateway.live_socat_port,
        ),
{
}

/// The plain outcomes: nothing but the phase to go to, and a pause where one is given.
pub proof fn outcomes_are_plain(ms: u64, next: Phase)
    ensures
        going(next) == at_once(next),
        pausing(ms, next) == later(ms, next),
        no_effects() == at_once(next).effects,
{
}

/// The steps that always go the same way: where they lead, after how long, and what is undone on
/// the way.
pub proof fn plain_steps_lead_on(m: StateMachine)
    ensures
        forall|r: Outcome| #[trigger]
            call_ensures(StateMachine::do_waiting_for_launch, (&m,), r) ==> r@.next is WaitingForLaunch
                && r@.pause_ms == 500 && r@.effects == no_effects(),
        forall|r: Outcome| #[trigger]
            call_ensures(StateMachine::do_launch, (&m,), r) ==> r@.next is WaitingForAgent
                && r@.pause_ms == 0 && r@.effects == no_effects(),
        forall|r: Outcome| #[trigger]
            call_ensures(StateMachine::do_paused, (&m,), r) ==> r@.next == m@.state && r@.pause_ms == 500
                && r@.effects == no_effects(),
        forall|r: Outcome| #[trigger]
            call_ensures(StateMachine::session_conflict_handled, (), r) ==> r@.next is DismissingPopups
                && r@.pause_ms == 2000 && r@.effects == no_effects(),
        forall|r: Outcome| #[trigger]
            call_ensures(StateMachine::connected_reconciled, (), r) ==> r@.next is Connected
                && r@.pause_ms == 10_000 && r@.effects == no_effects(),
        forall|r: Outcome| #[trigger]
            call_ensures(StateMachine::relogin_clicked, (), r) ==> r@.next is WaitingForLogin
                && r@.pause_ms == 5000 && r@.effects.reset_handlers && !r@.effects.kill_jvm
                && !r@.effects.stop_socat && !r@.effects.remove_socket && !r@.effects.abort_client_task,
        forall|r: bool| #[trigger]
            call_ensures(StateMachine::action_in_progress, (&m,), r) ==> (r <==> m@.state
                is Authenticating || m@.state is ConfiguringApi || m@.state is HandlingSessionConflict),
        forall|r: Option<&str>| #[trigger]
            call_ensures(StateMachine::restart_token, (&m,), r) ==> (r is Some <==> m@.warm_restart
                is Some) && (r matches Some(t) ==> m@.warm_restart == Some(t@)),
{
}

/// The first look of a wait for the operator that has no beginning yet begins it: the count of
/// missed factors and the place in the schedule stay, and the notification is owed again.
pub proof fn operator_wait_begins(m: Model, now: u128)
    requires
        m.hitl.entered_at is None,
    ensures
        ({
            let (after, stage) = hitl_stage(m, now);
            let timed = m.config.twofa.backoff.strategy == crate::config::Strategy::Periodic
                || m.config.twofa.backoff.strategy == crate::config::Strategy::Both;
            &&& after.hitl.entered_at == Some(now)
            &&& after.hitl.ntfy_attempts == 0 && !after.hitl.ntfy_sent
            &&& after.hitl.consecutive_timeouts == m.hitl.consecutive_timeouts
            &&& after.hitl.cold_restart_deferred == m.hitl.cold_restart_deferred
            &&& !timed ==> after.hitl.next_retry_at is None && !(stage matches StageModel::Done(p)
                && p.next is Restarting) && after.hitl.intervals_index == m.hitl.intervals_index
            &&& m.config.twofa.backoff.strategy == crate::config::Strategy::NtfyCallback ==> stage
                == StageModel::Notify
            &&& after == (Model { hitl: after.hitl, ..m })
        }),
{
}

} // verus!
