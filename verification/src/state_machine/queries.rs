//! The reports on the machine that clients ask for.

use crate::clock::{elapsed_secs, span_secs, Moment};
use crate::config::Config;
use crate::state_machine::machine::{steps_of, Model, Stats, StateMachine, IB_STATUS_TTL_SECS};
use crate::state_machine::types::{advice, client_advisory, Phase, State, Transition};
use crate::text::{copy_of, texts};
use vstd::prelude::*;
use vstd::string::*;

verus! {

/// The JVM as the supervisor sees it.
#[derive(Debug)]
pub struct JvmInfo {
    pub pid: Option<u32>,
    pub alive: bool,
    pub uptime_secs: Option<u64>,
    pub config_dir: String,
    pub agent_socket: String,
}

/// The port forwarder.
#[derive(Debug, Clone, Copy, PartialEq, Eq, Structural)]
pub struct SocatInfo {
    pub running: bool,
    pub pid: Option<u32>,
}

/// The advice for clients.
#[derive(Debug)]
pub struct AdvisoryReport {
    pub should_connect: bool,
    pub should_wait: bool,
    pub wait_reason: Option<String>,
    pub client_id_likely_stale: bool,
}

/// The report on the IB system.
#[derive(Debug)]
pub struct IbReport {
    pub available: bool,
    pub status: String,
    /// Missing where no reason was given.
    pub reason: Option<String>,
    pub expires_in_secs: Option<u64>,
}

/// The report on the wait for the operator.
#[derive(Debug, Clone, Copy, PartialEq, Eq, Structural)]
pub struct HitlReport {
    pub entered_at_secs_ago: u64,
    pub consecutive_2fa_timeouts: u32,
    pub next_retry_in_secs: Option<u64>,
    pub intervals_index: usize,
    pub ntfy_sent: bool,
    pub ntfy_attempts: u32,
}

/// The answer to STATUS.
#[derive(Debug)]
pub struct StatusReport {
    pub ready: bool,
    pub state: String,
    pub trading_mode: String,
    pub uptime_secs: u64,
    pub connected_uptime_secs: Option<u64>,
    pub jvm: JvmInfo,
    pub socat: SocatInfo,
    pub client_ids: Vec<String>,
    pub ib_system: IbReport,
    pub site_role: String,
    pub auto_launch: bool,
    pub paused: bool,
    pub ceiling_state: Option<String>,
    pub stats: Stats,
    pub advisory: AdvisoryReport,
    /// Missing unless the operator is waited for.
    pub hitl: Option<HitlReport>,
}

/// The answer to STATE.
#[derive(Debug)]
pub struct StateReport {
    pub current: String,
    pub history: Vec<Transition>,
}

/// The answer to CONFIG.
#[derive(Debug)]
pub struct ConfigReport {
    pub username: String,
    pub trading_mode: String,
    pub password: String,
    pub tws_path: String,
    pub settings_path: String,
    pub version: String,
    pub java_heap_mb: u32,
    pub program: String,
    pub session_action: String,
    pub accept_incoming: String,
    pub command_server_enabled: bool,
    pub command_server_port: u16,
    pub bind_address: String,
    pub ui_tick_ms: u64,
    pub agent_tick_ms: u64,
    pub post_login_delay_ms: u64,
    pub popup_quiet_secs: u64,
    pub agent_socket: String,
    pub site_role: String,
    pub auto_launch: bool,
}

/// A published set of reports.
#[derive(Debug)]
pub struct QuerySnapshot {
    pub status: StatusReport,
    pub state: StateReport,
    pub config: ConfigReport,
    pub version: u64,
}

/// A number of seconds, as far as it fits.
pub open spec fn clipped(secs: int) -> u64 {
    if secs <= u64::MAX {
        secs as u64
    } else {
        u64::MAX
    }
}

/// How long the report on the IB system stays valid.
pub open spec fn expires_in(updated: u128, now: u128) -> u64 {
    let age = clipped(span_secs(updated, now));
    if age <= 600 {
        (600 - age) as u64
    } else {
        0
    }
}

/// What the report on the wait for the operator says.
pub open spec fn hitl_report(m: Model, now: u128) -> Option<HitlReport> {
    if m.state is WaitingForHitl2fa {
        Some(
            HitlReport {
                entered_at_secs_ago: match m.hitl.entered_at {
                    Some(t) => clipped(span_secs(t, now)),
                    None => 0,
                },
                consecutive_2fa_timeouts: m.hitl.consecutive_timeouts,
                next_retry_in_secs: match m.hitl.next_retry_at {
                    Some(t) => Some(clipped(span_secs(now, t))),
                    None => None,
                },
                intervals_index: m.hitl.intervals_index,
                ntfy_sent: m.hitl.ntfy_sent,
                ntfy_attempts: m.hitl.ntfy_attempts,
            },
        )
    } else {
        None
    }
}

impl AdvisoryReport {
    /// The advice for a phase: a client can connect only where its port is forwarded.
    pub open spec fn reports(&self, p: Phase, forwarded: bool) -> bool {
        &&& self.should_connect == (advice(p).should_connect && forwarded)
        &&& self.should_wait == advice(p).should_wait
        &&& match self.wait_reason {
            Some(t) => advice(p).reason == Some(t@),
            None => advice(p).reason is None,
        }
        &&& self.client_id_likely_stale == advice(p).stale_ids
    }
}

impl IbReport {
    /// What the machine knows of the IB system.
    pub open spec fn reports(&self, m: Model, now: u128) -> bool {
        &&& self.available == m.ib.available
        &&& self.status@ == m.ib.status
        &&& match self.reason {
            Some(t) => t@ == m.ib.reason && m.ib.reason.len() > 0,
            None => m.ib.reason.len() == 0,
        }
        &&& self.expires_in_secs == match m.ib.updated {
            Some(t) => Some(expires_in(t, now)),
            None => None,
        }
    }
}

impl StatusReport {
    /// What the machine is, at a time.
    pub open spec fn reports(&self, m: Model, jvm: JvmInfo, socat: SocatInfo, now: u128) -> bool {
        &&& self.ready == (m.state is Connected && socat.running)
        &&& self.state@ == m.state.name()
        &&& self.trading_mode@ == m.config.auth.trading_mode@
        &&& self.uptime_secs == clipped(span_secs(m.start_time, now))
        &&& self.connected_uptime_secs == match m.connected_since {
            Some(t) => Some(clipped(span_secs(t, now))),
            None => None,
        }
        &&& self.jvm == jvm
        &&& self.socat == socat
        &&& texts(self.client_ids@) == m.client_ids
        &&& self.ib_system.reports(m, now)
        &&& self.site_role@ == m.config.site.role@
        &&& self.auto_launch == m.config.site.auto_launch
        &&& self.paused == m.paused
        &&& match self.ceiling_state {
            Some(t) => m.ceiling matches Some(p) && t@ == p.name(),
            None => m.ceiling is None,
        }
        &&& self.stats == m.stats
        &&& self.advisory.reports(m.state, socat.running)
        &&& self.hitl == hitl_report(m, now)
    }
}

impl StateReport {
    /// The state of the machine and its history.
    pub open spec fn reports(&self, m: Model) -> bool {
        self.current@ == m.state.name() && steps_of(self.history@) == m.history
    }
}

impl ConfigReport {
    /// The configuration, with the password masked.
    pub open spec fn reports(&self, c: Config) -> bool {
        &&& self.username@ == c.auth.username@
        &&& self.trading_mode@ == c.auth.trading_mode@
        &&& self.password@ == "********"@
        &&& self.tws_path@ == c.gateway.tws_path@
        &&& self.settings_path@ == c.gateway.settings_path@
        &&& self.version@ == c.gateway.version@
        &&& self.java_heap_mb == c.gateway.java_heap_mb
        &&& self.program@ == c.gateway.program@
        &&& self.session_action@ == c.session.action@
        &&& self.accept_incoming@ == c.session.accept_incoming@
        &&& self.command_server_enabled == c.command_server.enabled
        &&& self.command_server_port == c.command_server.port
        &&& self.bind_address@ == c.command_server.bind_address@
        &&& self.ui_tick_ms == c.timing.ui_tick_ms
        &&& self.agent_tick_ms == c.timing.agent_tick_ms
        &&& self.post_login_delay_ms == c.timing.post_login_delay_ms
        &&& self.popup_quiet_secs == c.timing.popup_quiet_secs
        &&& self.agent_socket@ == c.agent.socket_path@
        &&& self.site_role@ == c.site.role@
        &&& self.auto_launch == c.site.auto_launch
    }
}

fn copy_texts(v: &Vec<String>) -> (r: Vec<String>)
    ensures
        texts(r@) == texts(v@),
{
    let mut out: Vec<String> = Vec::new();
    let mut i: usize = 0;
    while i < v.len()
        invariant
            i <= v@.len(),
            out@.len() == i,
            forall|j: int| 0 <= j < i ==> (#[trigger] out@[j])@ == v@[j]@,
        decreases v@.len() - i,
    {
        out.push(v[i].clone());
        i += 1;
    }
    assert(texts(out@) =~= texts(v@));
    out
}

impl StateMachine {
    fn ib_report(&self, now: u128) -> (r: IbReport)
        ensures
            r.reports(self@, now),
    {
        let reason: Option<String> = if self.ib_status.reason.as_str().is_empty() {
            None
        } else {
            Some(self.ib_status.reason.clone())
        };
        let expires: Option<u64> = match self.ib_status.last_updated {
            Some(t) => {
                let age: u64 = elapsed_secs(t, now);
                if age <= IB_STATUS_TTL_SECS {
                    Some(IB_STATUS_TTL_SECS - age)
                } else {
                    Some(0)
                }
            },
            None => None,
        };
        IbReport {
            available: self.ib_status.available,
            status: self.ib_status.status.clone(),
            reason,
            expires_in_secs: expires,
        }
    }

    fn advisory_report(&self, forwarded: bool) -> (r: AdvisoryReport)
        ensures
            r.reports(self@.state, forwarded),
    {
        let (should_connect, should_wait, reason, stale): (bool, bool, Option<&'static str>, bool) =
            client_advisory(&self.state);
        AdvisoryReport {
            should_connect: should_connect && forwarded,
            should_wait,
            wait_reason: match reason {
                Some(t) => Some(copy_of(t)),
                None => None,
            },
            client_id_likely_stale: stale,
        }
    }

    fn hitl_status(&self, now: u128) -> (r: Option<HitlReport>)
        ensures
            r == hitl_report(self@, now),
    {
        match self.state {
            State::WaitingForHitl2fa => Some(
                HitlReport {
                    entered_at_secs_ago: match self.hitl.entered_at {
                        Some(t) => elapsed_secs(t, now),
                        None => 0,
                    },
                    consecutive_2fa_timeouts: self.hitl.consecutive_timeouts,
                    next_retry_in_secs: match self.hitl.next_retry_at {
                        Some(t) => Some(elapsed_secs(now, t)),
                        None => None,
                    },
                    intervals_index: self.hitl.intervals_index,
                    ntfy_sent: self.hitl.ntfy_sent,
                    ntfy_attempts: self.hitl.ntfy_attempts,
                },
            ),
            _ => None,
        }
    }

    /// The answer to STATUS.
    pub fn build_status(&self, jvm: JvmInfo, socat: SocatInfo, now: Moment) -> (r: StatusReport)
        ensures
            r.reports(self@, jvm, socat, now.nanos),
    {
        let connected_uptime: Option<u64> = match self.connected_since {
            Some(t) => Some(elapsed_secs(t, now.nanos)),
            None => None,
        };
        let ceiling: Option<String> = match &self.pause.ceiling_state {
            Some(s) => Some(s.to_string()),
            None => None,
        };
        StatusReport {
            ready: matches!(self.state, State::Connected) && socat.running,
            state: self.state.to_string(),
            trading_mode: self.config.auth.trading_mode.clone(),
            uptime_secs: elapsed_secs(self.start_time, now.nanos),
            connected_uptime_secs: connected_uptime,
            jvm,
            socat,
            client_ids: copy_texts(&self.cached_client_ids),
            ib_system: self.ib_report(now.nanos),
            site_role: self.config.site.role.clone(),
            auto_launch: self.config.site.auto_launch,
            paused: self.pause.paused,
            ceiling_state: ceiling,
            stats: self.stats,
            advisory: self.advisory_report(socat.running),
            hitl: self.hitl_status(now.nanos),
        }
    }

    /// The answer to STATE.
    pub fn build_state(&self) -> (r: StateReport)
        ensures
            r.reports(self@),
    {
        let mut history: Vec<Transition> = Vec::new();
        let mut i: usize = 0;
        while i < self.transition_history.len()
            invariant
                i <= self.transition_history@.len(),
                history@.len() == i,
                forall|j: int|
                    0 <= j < i ==> (#[trigger] history@[j])@ == self.transition_history@[j]@,
            decreases self.transition_history@.len() - i,
        {
            history.push(self.transition_history[i].clone());
            i += 1;
        }
        assert(steps_of(history@) =~= self@.history);
        StateReport { current: self.state.to_string(), history }
    }

    /// The answer to CONFIG.
    pub fn build_config(&self) -> (r: ConfigReport)
        ensures
            r.reports(self@.config),
    {
        let c = &self.config;
        ConfigReport {
            username: c.auth.username.clone(),
            trading_mode: c.auth.trading_mode.clone(),
            password: copy_of("********"),
            tws_path: c.gateway.tws_path.clone(),
            settings_path: c.gateway.settings_path.clone(),
            version: c.gateway.version.clone(),
            java_heap_mb: c.gateway.java_heap_mb,
            program: c.gateway.program.clone(),
            session_action: c.session.action.clone(),
            accept_incoming: c.session.accept_incoming.clone(),
            command_server_enabled: c.command_server.enabled,
            command_server_port: c.command_server.port,
            bind_address: c.command_server.bind_address.clone(),
            ui_tick_ms: c.timing.ui_tick_ms,
            agent_tick_ms: c.timing.agent_tick_ms,
            post_login_delay_ms: c.timing.post_login_delay_ms,
            popup_quiet_secs: c.timing.popup_quiet_secs,
            agent_socket: c.agent.socket_path.clone(),
            site_role: c.site.role.clone(),
            auto_launch: c.site.auto_launch,
        }
    }

    /// A fresh set of reports, with the next version number.
    pub fn publish_snapshot(&mut self, jvm: JvmInfo, socat: SocatInfo, now: Moment) -> (r:
        QuerySnapshot)
        requires
            old(self).well_formed(),
        ensures
            final(self).well_formed(),
            final(self)@ == (Model {
                snapshot_version: if old(self)@.snapshot_version < u64::MAX {
                    (old(self)@.snapshot_version + 1) as u64
                } else {
                    u64::MAX
                },
                ..old(self)@
            }),
            r.version == final(self)@.snapshot_version,
            r.status.reports(old(self)@, jvm, socat, now.nanos),
            r.state.reports(old(self)@),
            r.config.reports(old(self)@.config),
    {
        if self.snapshot_version < u64::MAX {
            self.snapshot_version += 1;
        }
        QuerySnapshot {
            status: self.build_status(jvm, socat, now),
            state: self.build_state(),
            config: self.build_config(),
            version: self.snapshot_version,
        }
    }
}

/// Whatever the password is, it is not in the answer to CONFIG: two configurations that differ
/// in their passwords alone give the same answer.
pub proof fn passwords_stay_secret(r: ConfigReport, c: Config, password: String, paper_password: String)
    requires
        r.reports(c),
    ensures
        ({
            let paper = crate::config::PaperAuthConfig { password: paper_password, ..c.auth.paper };
            let auth = crate::config::AuthConfig { password, paper, ..c.auth };
            r.reports(Config { auth, ..c })
        }),
{
}

/// A report that says ready also advises to connect, and the other way round.
pub proof fn ready_means_connect(r: StatusReport, m: Model, jvm: JvmInfo, socat: SocatInfo, now: u128)
    requires
        r.reports(m, jvm, socat, now),
    ensures
        r.ready <==> r.advisory.should_connect,
        r.ready ==> !r.advisory.should_wait && r.advisory.wait_reason is None,
{
}

/// What is said of times in a report: the whole seconds that have passed, none where the moment
/// lies ahead.
pub proof fn times_are_told_in_seconds(
    r: StatusReport,
    m: Model,
    jvm: JvmInfo,
    socat: SocatInfo,
    now: u128,
)
    requires
        r.reports(m, jvm, socat, now),
    ensures
        m.start_time <= now && now - m.start_time < 0x1_0000_0000_0000_0000 ==> r.uptime_secs == (now
            - m.start_time) / 1_000_000_000,
        m.connected_since is None <==> r.connected_uptime_secs is None,
        m.connected_since matches Some(t) ==> (t <= now && now - t < 0x1_0000_0000_0000_0000
            ==> r.connected_uptime_secs == Some(((now - t) / 1_000_000_000) as u64)),
{
}

/// What a report says of the IB system is what was told last: it lapses ten minutes after that,
/// and the seconds that are left go down one by one. A reason is given exactly when there is one.
pub proof fn reports_on_ib_lapse_in_ten_minutes(r: IbReport, m: Model, now: u128)
    requires
        r.reports(m, now),
    ensures
        r.available <==> m.ib.available,
        r.status@ == m.ib.status,
        r.reason is Some <==> m.ib.reason.len() > 0,
        r.reason matches Some(t) ==> t@ == m.ib.reason,
        m.ib.updated is None <==> r.expires_in_secs is None,
        m.ib.updated matches Some(t) ==> (t <= now && now - t < 601_000_000_000
            ==> r.expires_in_secs == Some((600 - (now - t) / 1_000_000_000) as u64)),
        m.ib.updated matches Some(t) ==> (now - t >= 600_000_000_000 ==> r.expires_in_secs == Some(
            0u64,
        )),
        m.ib.updated matches Some(t) ==> (now <= t ==> r.expires_in_secs == Some(600u64)),
{
}

/// A report speaks of the wait for the operator exactly while the operator is waited for, and
/// then tells how long, how often the second factor was missed, when the next try is due, and
/// what was sent.
pub proof fn waits_for_the_operator_are_reported(
    r: StatusReport,
    m: Model,
    jvm: JvmInfo,
    socat: SocatInfo,
    now: u128,
)
    requires
        r.reports(m, jvm, socat, now),
    ensures
        r.hitl is Some <==> m.state is WaitingForHitl2fa,
        r.hitl matches Some(h) ==> {
            &&& h.consecutive_2fa_timeouts == m.hitl.consecutive_timeouts
            &&& h.intervals_index == m.hitl.intervals_index
            &&& h.ntfy_sent == m.hitl.ntfy_sent
            &&& h.ntfy_attempts == m.hitl.ntfy_attempts
            &&& m.hitl.entered_at is None ==> h.entered_at_secs_ago == 0
            &&& m.hitl.entered_at matches Some(t) ==> (t <= now && now - t < 0x1_0000_0000_0000_0000
                ==> h.entered_at_secs_ago == (now - t) / 1_000_000_000)
            &&& m.hitl.next_retry_at is None <==> h.next_retry_in_secs is None
            &&& m.hitl.next_retry_at matches Some(t) ==> (now <= t && t - now
                < 0x1_0000_0000_0000_0000 ==> h.next_retry_in_secs == Some(
                ((t - now) / 1_000_000_000) as u64,
            ))
            &&& m.hitl.next_retry_at matches Some(t) ==> (t <= now ==> h.next_retry_in_secs == Some(
                0u64,
            ))
        },
{
}

/// A report is on the machine: its state, mode, role, pause, ceiling, clients and counts, and on
/// the two processes that it was made for.
pub proof fn reports_are_on_the_machine(
    r: StatusReport,
    m: Model,
    jvm: JvmInfo,
    socat: SocatInfo,
    now: u128,
)
    requires
        r.reports(m, jvm, socat, now),
    ensures
        r.ready <==> m.state is Connected && socat.running,
        r.state@ == m.state.name(),
        r.trading_mode@ == m.config.auth.trading_mode@,
        r.site_role@ == m.config.site.role@,
        r.auto_launch <==> m.config.site.auto_launch,
        r.paused <==> m.paused,
        r.stats == m.stats,
        r.jvm == jvm,
        r.socat == socat,
        r.client_ids@.len() == m.client_ids.len(),
        forall|i: int| 0 <= i < m.client_ids.len() ==> (#[trigger] r.client_ids@[i])@ == m.client_ids[i],
        r.ceiling_state is Some <==> m.ceiling is Some,
        r.ceiling_state matches Some(t) ==> t@ == m.ceiling->0.name(),
{
    assert(texts(r.client_ids@).len() == r.client_ids@.len());
    assert forall|i: int| 0 <= i < m.client_ids.len() implies (#[trigger] r.client_ids@[i])@
        == m.client_ids[i] by {
        assert(texts(r.client_ids@)[i] == r.client_ids@[i]@);
    }
}

/// Clients are told to connect exactly when the session is connected and its port is forwarded.
/// They are told to wait, and why, in every phase but four: before a launch, when connected, when
/// shut down and after an error.
pub proof fn clients_are_told_what_to_do(a: AdvisoryReport, p: Phase, forwarded: bool)
    requires
        a.reports(p, forwarded),
    ensures
        a.should_connect <==> p is Connected && forwarded,
        a.should_wait <==> !(p is WaitingForLaunch || p is Connected || p is Shutdown || p is Error),
        p is Connected ==> a.wait_reason is None,
        a.should_wait ==> a.wait_reason is Some,
{
}

/// The answer to a question about the state: its name, and every move on record with its time
/// and the names of where it came from and went.
pub proof fn histories_are_told(r: StateReport, m: Model)
    requires
        r.reports(m),
    ensures
        r.current@ == m.state.name(),
        r.history@.len() == m.history.len(),
        forall|i: int|
            0 <= i < m.history.len() ==> (#[trigger] r.history@[i]).timestamp@
                == m.history[i].timestamp && r.history@[i].from@ == m.history[i].from
                && r.history@[i].to@ == m.history[i].to,
{
    assert(steps_of(r.history@).len() == r.history@.len());
    assert forall|i: int| 0 <= i < m.history.len() implies (#[trigger] r.history@[i]).timestamp@
        == m.history[i].timestamp && r.history@[i].from@ == m.history[i].from && r.history@[i].to@
        == m.history[i].to by {
        assert(steps_of(r.history@)[i] == r.history@[i]@);
    }
}

/// The configuration is told as it is, and the password as eight stars whatever it is.
pub proof fn configurations_are_told(r: ConfigReport, c: Config)
    requires
        r.reports(c),
    ensures
        r.password@ == seq!['*', '*', '*', '*', '*', '*', '*', '*'],
        r.username@ == c.auth.username@ && r.trading_mode@ == c.auth.trading_mode@,
        r.tws_path@ == c.gateway.tws_path@ && r.settings_path@ == c.gateway.settings_path@,
        r.version@ == c.gateway.version@ && r.java_heap_mb == c.gateway.java_heap_mb,
        r.program@ == c.gateway.program@,
        r.session_action@ == c.session.action@ && r.accept_incoming@ == c.session.accept_incoming@,
        r.command_server_enabled == c.command_server.enabled,
        r.command_server_port == c.command_server.port,
        r.bind_address@ == c.command_server.bind_address@,
        r.ui_tick_ms == c.timing.ui_tick_ms && r.agent_tick_ms == c.timing.agent_tick_ms,
        r.post_login_delay_ms == c.timing.post_login_delay_ms,
        r.popup_quiet_secs == c.timing.popup_quiet_secs,
        r.agent_socket@ == c.agent.socket_path@,
        r.site_role@ == c.site.role@ && r.auto_launch == c.site.auto_launch,
{
    reveal_strlit("********");
    assert(r.password@ =~= seq!['*', '*', '*', '*', '*', '*', '*', '*']);
}

} // verus!
