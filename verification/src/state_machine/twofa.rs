//! The wait for the second factor, and the wait for the operator after repeated timeouts.

use crate::clock::{at_least, longer_than, secs_in_nanos, span, Moment};
use crate::config::{Config, OnTimeout};
use crate::state_machine::machine::{
    hitl_entering, increased, one_more, HitlState, Model, StateMachine,
};
use crate::state_machine::outcome::{
    going, no_effects, pausing, Effects, HandlerReply, Outcome, Plan, Stage, StageModel,
};
use crate::state_machine::types::{Phase, State};
use crate::text::{copy_of, same};
use crate::types::WindowId;
use crate::windows::{
    any_authenticated, any_login_form, any_window, authenticated_seen, dump_models, find_window, first_window, has_window,
    ids_of, listed, login_form_seen, windows_of, ComponentsModel, SeenComponents, SeenWindow,
    WindowKind, WindowModel,
};
use vstd::prelude::*;
use vstd::string::*;

verus! {

/// A timeout leads to a restart, or to the wait for the operator, and not to the end.
pub open spec fn restarts_on_timeout(config: Config) -> bool {
    config.twofa.relogin_after_timeout || config.twofa.timeout_action@ == "restart"@
}

/// After `count` timeouts in a row the operator is waited for.
pub open spec fn hands_over(config: Config, count: u32) -> bool {
    match config.twofa.backoff.on_timeout {
        OnTimeout::RestartForever => false,
        OnTimeout::HitlImmediately => true,
        OnTimeout::RestartThenHitl => config.twofa.backoff.max_immediate_attempts > 0 && count
            >= config.twofa.backoff.max_immediate_attempts,
    }
}

/// The time for the second factor is up.
pub open spec fn twofa_expired(m: Model, now: u128) -> bool {
    span(m.entered_at, now) > secs_in_nanos(m.config.twofa.timeout_seconds)
}

/// The machine with one more timeout counted.
pub open spec fn timeout_counted(m: Model) -> Model {
    Model {
        hitl: HitlState { consecutive_timeouts: one_more(m.hitl.consecutive_timeouts), ..m.hitl },
        ..m
    }
}

/// The end of a look at the second factor that decided nothing: the wait goes on until the
/// time is up.
pub open spec fn twofa_time_left(m: Model, now: u128) -> (Model, StageModel) {
    if twofa_expired(m, now) {
        let counted = timeout_counted(m);
        (
            counted,
            StageModel::Done(
                going(
                    if !restarts_on_timeout(m.config) {
                        Phase::Shutdown
                    } else if hands_over(m.config, counted.hitl.consecutive_timeouts) {
                        Phase::WaitingForHitl2fa
                    } else {
                        Phase::Restarting
                    },
                ),
            ),
        )
    } else {
        (m, StageModel::Done(pausing(1000, Phase::WaitingFor2fa)))
    }
}

/// What is done in a 2FA dialog whose device is settled: the code is entered where there is a
/// secret to make it from.
pub open spec fn twofa_submit(m: Model, window: WindowId, now: u128) -> (Model, StageModel) {
    if m.has_totp_secret {
        (m, StageModel::Dispatch(window))
    } else {
        twofa_time_left(m, now)
    }
}

/// What is done when the 2FA dialog is open.
pub open spec fn twofa_visible(m: Model, window: WindowId, now: u128) -> (Model, StageModel) {
    let seen = Model { twofa_gone_at: None, twofa_seen: true, ..m };
    if !m.device_selected && m.config.twofa.device@.len() > 0 {
        (seen, StageModel::SelectDevice(window))
    } else {
        twofa_submit(Model { device_selected: true, ..seen }, window, now)
    }
}

/// What is done when the 2FA dialog was open and is gone: for five seconds it may come back,
/// then the main windows are inspected for positive confirmation.
pub open spec fn twofa_gone(m: Model, windows: Seq<WindowModel>, now: u128) -> (Model, StageModel) {
    let gone_at = match m.twofa_gone_at {
        Some(t) => t,
        None => now,
    };
    let missed = Model { twofa_gone_at: Some(gone_at), ..m };
    if span(gone_at, now) < secs_in_nanos(5) {
        twofa_time_left(missed, now)
    } else {
        (missed, StageModel::Inspect(ids_of(windows, WindowKind::Gateway)))
    }
}

/// The step from `WaitingFor2fa`: its stage and the machine after it.
pub open spec fn twofa_stage(
    m: Model,
    running: bool,
    windows: Option<Seq<WindowModel>>,
    now: u128,
) -> (Model, StageModel) {
    if !running {
        (m, StageModel::Done(going(Phase::Error("JVM exited during 2FA wait"@))))
    } else if m.observation.relogin_dialog() {
        (m, StageModel::Done(going(Phase::WaitingForLogin)))
    } else if m.observation.session_conflict() {
        (m, StageModel::Done(going(Phase::HandlingSessionConflict)))
    } else {
        match windows {
            Some(s) => {
                let reached = Model { agent_failures: 0, ..m };
                if any_window(s, WindowKind::SessionConflict) {
                    (reached, StageModel::Done(going(Phase::HandlingSessionConflict)))
                } else {
                    match first_window(s, WindowKind::SecondFactor) {
                        Some(i) => twofa_visible(reached, s[i].id, now),
                        None => if m.twofa_seen {
                            twofa_gone(reached, s, now)
                        } else if span(m.entered_at, now) > secs_in_nanos(10) {
                            (reached, StageModel::Done(going(Phase::DismissingPopups)))
                        } else {
                            twofa_time_left(reached, now)
                        },
                    }
                }
            },
            None => {
                let missed = Model { agent_failures: one_more(m.agent_failures), ..m };
                if missed.agent_failures >= 10 {
                    (
                        missed,
                        StageModel::Done(
                            going(Phase::Error("Agent unreachable during 2FA wait"@)),
                        ),
                    )
                } else {
                    twofa_time_left(missed, now)
                }
            },
        }
    }
}

/// The step from `WaitingFor2fa`, once the device was tried: where the list had it the
/// challenge follows, else the dialog is the challenge already.
pub open spec fn device_tried(m: Model, window: WindowId, selected: bool, now: u128) -> (
    Model,
    StageModel,
) {
    let settled = Model { device_selected: true, ..m };
    if selected {
        (settled, StageModel::Done(pausing(2000, Phase::WaitingFor2fa)))
    } else {
        twofa_submit(settled, window, now)
    }
}

/// The step from `WaitingFor2fa`, once the TOTP handler replied.
pub open spec fn code_tried(m: Model, reply: HandlerReply, now: u128) -> (Model, StageModel) {
    if reply == HandlerReply::Handled {
        (m, StageModel::Done(pausing(3000, Phase::DismissingPopups)))
    } else {
        twofa_time_left(m, now)
    }
}

/// The step from `WaitingFor2fa`, once the main windows were inspected: a login form means
/// that the second factor failed, a window without one that it succeeded.
pub open spec fn twofa_confirmed(m: Model, dumps: Seq<Option<ComponentsModel>>, now: u128) -> (
    Model,
    StageModel,
) {
    if login_form_seen(dumps) {
        (
            m,
            StageModel::Done(
                Plan {
                    effects: Effects { reset_handlers: true, ..no_effects() },
                    pause_ms: 0,
                    next: Phase::WaitingForLogin,
                },
            ),
        )
    } else if authenticated_seen(dumps) {
        (m, StageModel::Done(going(Phase::DismissingPopups)))
    } else {
        twofa_time_left(m, now)
    }
}

/// The entry of the schedule that follows `index`: the next one, and the last is held.
pub open spec fn next_index(config: Config, index: usize) -> usize {
    let n = config.twofa.backoff.intervals_minutes@.len();
    if index + 1 < n {
        (index + 1) as usize
    } else if n > 0 {
        (n - 1) as usize
    } else {
        0
    }
}

/// A retry is due.
pub open spec fn retry_due(m: Model, now: u128) -> bool {
    m.hitl.next_retry_at matches Some(t) && now >= t
}

/// The operator is to be notified: the strategy says so, no notification got through in this
/// wait, and the tries are not used up.
pub open spec fn notification_due(m: Model) -> bool {
    m.config.twofa.backoff.strategy.notifies() && !m.hitl.ntfy_sent && m.hitl.ntfy_attempts
        <= m.config.twofa.backoff.ntfy_send_retries
}

/// The step from `WaitingForHitl2fa`: its stage and the machine after it.
pub open spec fn hitl_stage(m: Model, now: u128) -> (Model, StageModel) {
    let begun = if m.hitl.entered_at is None {
        Model { hitl: hitl_entering(m, Phase::WaitingForHitl2fa, now), ..m }
    } else {
        m
    };
    if retry_due(begun, now) {
        (
            Model {
                hitl: HitlState {
                    intervals_index: next_index(m.config, begun.hitl.intervals_index),
                    ..begun.hitl
                },
                ..begun
            },
            StageModel::Done(going(Phase::Restarting)),
        )
    } else if notification_due(begun) {
        (begun, StageModel::Notify)
    } else {
        (begun, StageModel::Done(pausing(5000, Phase::WaitingForHitl2fa)))
    }
}

/// The machine after a notification was tried.
pub open spec fn notified(m: Model, sent: bool) -> Model {
    Model {
        hitl: HitlState {
            ntfy_attempts: one_more(m.hitl.ntfy_attempts),
            ntfy_sent: sent,
            ..m.hitl
        },
        ..m
    }
}

impl StateMachine {
    fn twofa_wait_on(&mut self, now: u128) -> (r: Stage)
        requires
            old(self).well_formed(),
        ensures
            final(self).well_formed(),
            (final(self)@, r@) == twofa_time_left(old(self)@, now),
    {
        if !longer_than(self.state_entered_at, now, self.config.twofa.timeout_seconds) {
            return Stage::Done(Outcome::pause(1000, State::WaitingFor2fa));
        }
        self.hitl.consecutive_timeouts = increased(self.hitl.consecutive_timeouts);
        if !(self.config.twofa.relogin_after_timeout || same(
            self.config.twofa.timeout_action.as_str(),
            "restart",
        )) {
            return Stage::Done(Outcome::go(State::Shutdown));
        }
        let hand_over: bool = match self.config.twofa.backoff.on_timeout {
            OnTimeout::RestartForever => false,
            OnTimeout::HitlImmediately => true,
            OnTimeout::RestartThenHitl => self.config.twofa.backoff.max_immediate_attempts > 0
                && self.hitl.consecutive_timeouts
                >= self.config.twofa.backoff.max_immediate_attempts,
        };
        if hand_over {
            Stage::Done(Outcome::go(State::WaitingForHitl2fa))
        } else {
            Stage::Done(Outcome::go(State::Restarting))
        }
    }

    fn twofa_enter_code(&mut self, window: WindowId, now: u128) -> (r: Stage)
        requires
            old(self).well_formed(),
        ensures
            final(self).well_formed(),
            (final(self)@, r@) == twofa_submit(old(self)@, window, now),
    {
        if self.has_totp_secret {
            Stage::Dispatch(window)
        } else {
            self.twofa_wait_on(now)
        }
    }

    /// The step from `WaitingFor2fa`. The windows are missing where the agent did not answer.
    pub fn do_wait_for_2fa(
        &mut self,
        running: bool,
        windows: &Option<Vec<SeenWindow>>,
        now: Moment,
    ) -> (r: Stage)
        requires
            old(self).well_formed(),
        ensures
            final(self).well_formed(),
            (final(self)@, r@) == twofa_stage(old(self)@, running, listed(*windows), now.nanos),
    {
        if !running {
            return Stage::Done(Outcome::go(State::Error(copy_of("JVM exited during 2FA wait"))));
        }
        if self.observation.has_relogin_dialog() {
            return Stage::Done(Outcome::go(State::WaitingForLogin));
        }
        if self.observation.has_session_conflict() {
            return Stage::Done(Outcome::go(State::HandlingSessionConflict));
        }
        match windows {
            Some(list) => {
                self.consecutive_agent_failures = 0;
                if has_window(list, WindowKind::SessionConflict) {
                    return Stage::Done(Outcome::go(State::HandlingSessionConflict));
                }
                match find_window(list, WindowKind::SecondFactor) {
                    Some(i) => {
                        let window: WindowId = list[i].id;
                        self.twofa_gone_at = None;
                        self.twofa_seen = true;
                        if !self.twofa_device_selected {
                            if !self.config.twofa.device.as_str().is_empty() {
                                return Stage::SelectDevice(window);
                            }
                            self.twofa_device_selected = true;
                        }
                        self.twofa_enter_code(window, now.nanos)
                    },
                    None => {
                        if self.twofa_seen {
                            let gone_at: u128 = match self.twofa_gone_at {
                                Some(t) => t,
                                None => now.nanos,
                            };
                            self.twofa_gone_at = Some(gone_at);
                            if at_least(gone_at, now.nanos, 5) {
                                Stage::Inspect(windows_of(list, WindowKind::Gateway))
                            } else {
                                self.twofa_wait_on(now.nanos)
                            }
                        } else if longer_than(self.state_entered_at, now.nanos, 10) {
                            Stage::Done(Outcome::go(State::DismissingPopups))
                        } else {
                            self.twofa_wait_on(now.nanos)
                        }
                    },
                }
            },
            None => {
                self.consecutive_agent_failures = increased(self.consecutive_agent_failures);
                if self.consecutive_agent_failures >= 10 {
                    return Stage::Done(
                        Outcome::go(State::Error(copy_of("Agent unreachable during 2FA wait"))),
                    );
                }
                self.twofa_wait_on(now.nanos)
            },
        }
    }

    /// The step from `WaitingFor2fa`, once the device was tried.
    pub fn twofa_device_tried(&mut self, window: WindowId, selected: bool, now: Moment) -> (r: Stage)
        requires
            old(self).well_formed(),
        ensures
            final(self).well_formed(),
            (final(self)@, r@) == device_tried(old(self)@, window, selected, now.nanos),
    {
        self.twofa_device_selected = true;
        if selected {
            Stage::Done(Outcome::pause(2000, State::WaitingFor2fa))
        } else {
            self.twofa_enter_code(window, now.nanos)
        }
    }

    /// The step from `WaitingFor2fa`, once the TOTP handler replied.
    pub fn twofa_code_tried(&mut self, reply: HandlerReply, now: Moment) -> (r: Stage)
        requires
            old(self).well_formed(),
        ensures
            final(self).well_formed(),
            (final(self)@, r@) == code_tried(old(self)@, reply, now.nanos),
    {
        if reply == HandlerReply::Handled {
            Stage::Done(Outcome::pause(3000, State::DismissingPopups))
        } else {
            self.twofa_wait_on(now.nanos)
        }
    }

    /// The step from `WaitingFor2fa`, once the main windows were inspected.
    pub fn twofa_inspected(&mut self, dumps: &Vec<Option<SeenComponents>>, now: Moment) -> (r: Stage)
        requires
            old(self).well_formed(),
        ensures
            final(self).well_formed(),
            (final(self)@, r@) == twofa_confirmed(old(self)@, dump_models(dumps@), now.nanos),
    {
        if any_login_form(dumps) {
            let mut effects = Effects::none();
            effects.reset_handlers = true;
            return Stage::Done(Outcome::with(effects, State::WaitingForLogin));
        }
        if any_authenticated(dumps) {
            return Stage::Done(Outcome::go(State::DismissingPopups));
        }
        self.twofa_wait_on(now.nanos)
    }

    /// The step from `WaitingForHitl2fa`.
    pub fn do_wait_for_hitl(&mut self, now: Moment) -> (r: Stage)
        requires
            old(self).well_formed(),
        ensures
            final(self).well_formed(),
            (final(self)@, r@) == hitl_stage(old(self)@, now.nanos),
    {
        if self.hitl.entered_at.is_none() {
            self.hitl.next_retry_at = self.next_retry(now.nanos);
            self.hitl.entered_at = Some(now.nanos);
            self.hitl.ntfy_attempts = 0;
            self.hitl.ntfy_sent = false;
            self.hitl.connected_continuously_since = None;
        }
        let due: bool = match self.hitl.next_retry_at {
            Some(t) => now.nanos >= t,
            None => false,
        };
        if due {
            let n: usize = self.config.twofa.backoff.intervals_minutes.len();
            let i: usize = self.hitl.intervals_index;
            self.hitl.intervals_index = if n > 0 && i < n - 1 {
                i + 1
            } else if n > 0 {
                n - 1
            } else {
                0
            };
            Stage::Done(Outcome::go(State::Restarting))
        } else if self.config.twofa.backoff.strategy.has_ntfy() && !self.hitl.ntfy_sent
            && self.hitl.ntfy_attempts <= self.config.twofa.backoff.ntfy_send_retries {
            Stage::Notify
        } else {
            Stage::Done(Outcome::pause(5000, State::WaitingForHitl2fa))
        }
    }

    /// The step from `WaitingForHitl2fa`, once a notification was tried.
    pub fn hitl_notified(&mut self, sent: bool) -> (r: Outcome)
        requires
            old(self).well_formed(),
        ensures
            final(self).well_formed(),
            final(self)@ == notified(old(self)@, sent),
            r@ == pausing(5000, Phase::WaitingForHitl2fa),
    {
        self.hitl.ntfy_attempts = increased(self.hitl.ntfy_attempts);
        self.hitl.ntfy_sent = sent;
        Outcome::pause(5000, State::WaitingForHitl2fa)
    }
}

} // verus!
