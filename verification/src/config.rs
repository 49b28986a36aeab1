//! Configuration in three layers: built-in defaults, the TOML file, environment variables.
//!
//! Reading the file and the environment is left to the caller. [`Environment`] holds the
//! variables that are set, and [`Config::apply_env_overrides`] lays them over the rest.

use crate::text::{copy_of, lowercase, lower_case, parse_number, parsed, pieces, same, split, texts, trim, trimmed};
use vstd::prelude::*;
use vstd::string::*;

verus! {

/// Why a configuration cannot be used.
#[derive(Debug)]
pub enum ConfigError {
    ReadFile { path: String, source: String },
    Parse(String),
    Missing(String),
}

impl ConfigError {
    /// The error in words.
    pub open spec fn words(&self) -> Seq<char> {
        match self {
            ConfigError::ReadFile { path, source } => "failed to read config file '"@ + path@ + "': "@
                + source@,
            ConfigError::Parse(e) => "failed to parse config file: "@ + e@,
            ConfigError::Missing(what) => "missing required configuration: "@ + what@,
        }
    }

    /// The error in words.
    pub fn message(&self) -> (r: String)
        ensures
            r@ == self.words(),
    {
        match self {
            ConfigError::ReadFile { path, source } => {
                let mut s = copy_of("failed to read config file '");
                s.append(path.as_str());
                s.append("': ");
                s.append(source.as_str());
                s
            },
            ConfigError::Parse(e) => {
                let mut s = copy_of("failed to parse config file: ");
                s.append(e.as_str());
                s
            },
            ConfigError::Missing(what) => {
                let mut s = copy_of("missing required configuration: ");
                s.append(what.as_str());
                s
            },
        }
    }
}

/// The whole configuration.
#[derive(Debug)]
pub struct Config {
    pub auth: AuthConfig,
    pub twofa: TwoFaConfig,
    pub gateway: GatewayConfig,
    pub session: SessionConfig,
    pub command_server: CommandServerConfig,
    pub agent: AgentConfig,
    pub logging: LoggingConfig,
    pub timing: TimingConfig,
    pub site: SiteConfig,
    pub ib_status: IbStatusConfig,
}

#[derive(Debug)]
pub struct AuthConfig {
    pub username: String,
    /// Set by the environment only, never by the file.
    pub password: String,
    /// "live", "paper" or "both".
    pub trading_mode: String,
    pub paper: PaperAuthConfig,
}

#[derive(Debug)]
pub struct PaperAuthConfig {
    pub username: String,
    /// Set by the environment only, never by the file.
    pub password: String,
}

#[derive(Debug)]
pub struct TwoFaConfig {
    /// The environment variable that holds the TOTP secret.
    pub secret_env: String,
    /// "oathtool" or "builtin".
    pub provider: String,
    /// "restart" or "exit".
    pub timeout_action: String,
    pub timeout_seconds: u64,
    /// The device to pick in the device list, empty for none.
    pub device: String,
    /// Whether a timeout leads to a new login whatever the timeout action says.
    pub relogin_after_timeout: bool,
    pub backoff: BackoffConfig,
}

/// What a 2FA timeout leads to.
#[derive(Debug, Clone, Copy, PartialEq, Eq, Structural)]
pub enum OnTimeout {
    /// Restart and count; wait for the operator once the immediate attempts are used up.
    RestartThenHitl,
    /// Restart without limit.
    RestartForever,
    /// Wait for the operator on the first timeout.
    HitlImmediately,
}

/// How the wait for the operator ends.
#[derive(Debug, Clone, Copy, PartialEq, Eq, Structural)]
pub enum Strategy {
    Periodic,
    NtfyCallback,
    Both,
    Disabled,
}

/// When the count of timeouts starts anew.
#[derive(Debug, Clone, Copy, PartialEq, Eq, Structural)]
pub enum CounterReset {
    /// As soon as the machine is connected.
    AnyReach,
    /// Once it has stayed connected for the configured time.
    Stable,
}

/// How repeated 2FA timeouts are dealt with.
#[derive(Debug)]
pub struct BackoffConfig {
    /// How many timeouts in a row are allowed; zero turns the wait for the operator off.
    pub max_immediate_attempts: u32,
    pub on_timeout: OnTimeout,
    pub strategy: Strategy,
    /// The retry schedule, whose last entry is held.
    pub intervals_minutes: Vec<u64>,
    pub callback_valid_hours: u64,
    pub counter_reset: CounterReset,
    pub stable_secs: u64,
    pub cold_restart_preempts_hitl: bool,
    pub ntfy_send_retries: u32,
}

#[derive(Debug)]
pub struct GatewayConfig {
    pub tws_path: String,
    pub settings_path: String,
    pub version: String,
    pub java_heap_mb: u32,
    /// "gateway" or "tws".
    pub program: String,
    pub live_api_port: u16,
    pub live_socat_port: u16,
    pub paper_api_port: u16,
    pub paper_socat_port: u16,
}

#[derive(Debug)]
pub struct SessionConfig {
    /// "primary", "secondary" or "primaryoverride".
    pub action: String,
    /// "accept", "reject" or "manual".
    pub accept_incoming: String,
}

#[derive(Debug)]
pub struct CommandServerConfig {
    pub enabled: bool,
    pub port: u16,
    pub bind_address: String,
    pub control_from: Vec<String>,
}

#[derive(Debug)]
pub struct AgentConfig {
    pub socket_path: String,
}

#[derive(Debug)]
pub struct LoggingConfig {
    /// "debug", "info", "warn" or "error".
    pub level: String,
}

/// What follows when clicking Re-login has failed too often.
#[derive(Debug, Clone, Copy, PartialEq, Eq, Structural)]
pub enum ReloginFailureAction {
    Restart,
    Reauth,
}

#[derive(Debug, Clone, Copy, PartialEq, Eq, Structural)]
pub struct TimingConfig {
    /// Milliseconds between actions in the configuration dialog.
    pub ui_tick_ms: u64,
    /// Milliseconds that the agent waits after each action.
    pub agent_tick_ms: u64,
    /// Milliseconds from the login click to the first look for a 2FA dialog.
    pub post_login_delay_ms: u64,
    /// Seconds without popups after which the login counts as complete.
    pub popup_quiet_secs: u64,
    /// Seconds after which popups are no longer waited for.
    pub popup_max_wait_secs: u64,
    /// Milliseconds after a click on a radio button of the login form.
    pub login_radio_delay_ms: u64,
    /// Seconds that the JVM gets to end on its own before it is killed.
    pub jvm_shutdown_timeout_secs: u64,
    /// Seconds to wait for the login window; zero waits without end.
    pub login_dialog_timeout_secs: u64,
    /// How often Re-login is clicked before it is given up.
    pub relogin_max_attempts: u32,
    pub relogin_failure_action: ReloginFailureAction,
    /// Seconds from the decision to restart to the restart.
    pub restart_delay_secs: u64,
    /// Seconds between two connects to the API port; zero turns the probe off.
    pub api_port_probe_interval_secs: u64,
    /// Failed connects in a row after which the session counts as lost.
    pub api_port_probe_fails_before_revoke: u32,
}

#[derive(Debug)]
pub struct SiteConfig {
    pub role: String,
    /// Whether the JVM is launched without a START command.
    pub auto_launch: bool,
}

#[derive(Debug, Clone, Copy, PartialEq, Eq, Structural)]
pub struct IbStatusConfig {
    /// Whether a report that the IB system is unavailable interrupts a connected session.
    pub kick_active_session: bool,
}

/// The built-in defaults.
pub open spec fn default_timing() -> TimingConfig {
    TimingConfig {
        ui_tick_ms: 100,
        agent_tick_ms: 50,
        post_login_delay_ms: 1000,
        popup_quiet_secs: 5,
        popup_max_wait_secs: 30,
        login_radio_delay_ms: 100,
        jvm_shutdown_timeout_secs: 5,
        login_dialog_timeout_secs: 120,
        relogin_max_attempts: 3,
        relogin_failure_action: ReloginFailureAction::Restart,
        restart_delay_secs: 0,
        api_port_probe_interval_secs: 5,
        api_port_probe_fails_before_revoke: 3,
    }
}

impl Default for TimingConfig {
    fn default() -> (r: Self)
        ensures
            r == default_timing(),
    {
        TimingConfig {
            ui_tick_ms: 100,
            agent_tick_ms: 50,
            post_login_delay_ms: 1000,
            popup_quiet_secs: 5,
            popup_max_wait_secs: 30,
            login_radio_delay_ms: 100,
            jvm_shutdown_timeout_secs: 5,
            login_dialog_timeout_secs: 120,
            relogin_max_attempts: 3,
            relogin_failure_action: ReloginFailureAction::Restart,
            restart_delay_secs: 0,
            api_port_probe_interval_secs: 5,
            api_port_probe_fails_before_revoke: 3,
        }
    }
}

impl AuthConfig {
    /// The built-in defaults.
    pub open spec fn is_default(&self) -> bool {
        &&& self.username@ == Seq::<char>::empty()
        &&& self.password@ == Seq::<char>::empty()
        &&& self.trading_mode@ == "live"@
        &&& self.paper.is_default()
    }
}

impl Default for AuthConfig {
    fn default() -> (r: Self)
        ensures
            r.is_default(),
    {
        AuthConfig {
            username: String::new(),
            password: String::new(),
            trading_mode: copy_of("live"),
            paper: PaperAuthConfig::default(),
        }
    }
}

impl PaperAuthConfig {
    /// The built-in defaults.
    pub open spec fn is_default(&self) -> bool {
        self.username@ == Seq::<char>::empty() && self.password@ == Seq::<char>::empty()
    }
}

impl Default for PaperAuthConfig {
    fn default() -> (r: Self)
        ensures
            r.is_default(),
    {
        PaperAuthConfig { username: String::new(), password: String::new() }
    }
}

impl BackoffConfig {
    /// The built-in defaults.
    pub open spec fn is_default(&self) -> bool {
        &&& self.max_immediate_attempts == 3
        &&& self.on_timeout == OnTimeout::RestartThenHitl
        &&& self.strategy == Strategy::Periodic
        &&& self.intervals_minutes@ == seq![60u64]
        &&& self.callback_valid_hours == 12
        &&& self.counter_reset == CounterReset::AnyReach
        &&& self.stable_secs == 300
        &&& self.cold_restart_preempts_hitl
        &&& self.ntfy_send_retries == 1
    }
}

impl Default for BackoffConfig {
    fn default() -> (r: Self)
        ensures
            r.is_default(),
    {
        let intervals: Vec<u64> = vec![60];
        assert(intervals@ =~= seq![60u64]);
        BackoffConfig {
            max_immediate_attempts: 3,
            on_timeout: OnTimeout::RestartThenHitl,
            strategy: Strategy::Periodic,
            intervals_minutes: intervals,
            callback_valid_hours: 12,
            counter_reset: CounterReset::AnyReach,
            stable_secs: 300,
            cold_restart_preempts_hitl: true,
            ntfy_send_retries: 1,
        }
    }
}

impl TwoFaConfig {
    /// The built-in defaults.
    pub open spec fn is_default(&self) -> bool {
        &&& self.secret_env@ == "TWOFACTOR_CODE"@
        &&& self.provider@ == "oathtool"@
        &&& self.timeout_action@ == "restart"@
        &&& self.timeout_seconds == 180
        &&& self.device@ == Seq::<char>::empty()
        &&& !self.relogin_after_timeout
        &&& self.backoff.is_default()
    }
}

impl Default for TwoFaConfig {
    fn default() -> (r: Self)
        ensures
            r.is_default(),
    {
        TwoFaConfig {
            secret_env: copy_of("TWOFACTOR_CODE"),
            provider: copy_of("oathtool"),
            timeout_action: copy_of("restart"),
            timeout_seconds: 180,
            device: String::new(),
            relogin_after_timeout: false,
            backoff: BackoffConfig::default(),
        }
    }
}

impl GatewayConfig {
    /// The built-in defaults.
    pub open spec fn is_default(&self) -> bool {
        &&& self.tws_path@ == "/home/ibgateway/Jts"@
        &&& self.settings_path@ == Seq::<char>::empty()
        &&& self.version@ == Seq::<char>::empty()
        &&& self.java_heap_mb == 768
        &&& self.program@ == "gateway"@
        &&& self.live_api_port == 4001
        &&& self.live_socat_port == 4003
        &&& self.paper_api_port == 4002
        &&& self.paper_socat_port == 4004
    }
}

impl Default for GatewayConfig {
    fn default() -> (r: Self)
        ensures
            r.is_default(),
    {
        GatewayConfig {
            tws_path: copy_of("/home/ibgateway/Jts"),
            settings_path: String::new(),
            version: String::new(),
            java_heap_mb: 768,
            program: copy_of("gateway"),
            live_api_port: 4001,
            live_socat_port: 4003,
            paper_api_port: 4002,
            paper_socat_port: 4004,
        }
    }
}

impl SessionConfig {
    /// The built-in defaults.
    pub open spec fn is_default(&self) -> bool {
        self.action@ == "primary"@ && self.accept_incoming@ == "accept"@
    }
}

impl Default for SessionConfig {
    fn default() -> (r: Self)
        ensures
            r.is_default(),
    {
        SessionConfig { action: copy_of("primary"), accept_incoming: copy_of("accept") }
    }
}

impl CommandServerConfig {
    /// The built-in defaults.
    pub open spec fn is_default(&self) -> bool {
        &&& self.enabled
        &&& self.port == 7462
        &&& self.bind_address@ == "0.0.0.0"@
        &&& texts(self.control_from@) == seq!["127.0.0.1"@]
    }
}

impl Default for CommandServerConfig {
    fn default() -> (r: Self)
        ensures
            r.is_default(),
    {
        let mut control_from: Vec<String> = Vec::new();
        control_from.push(copy_of("127.0.0.1"));
        assert(texts(control_from@) =~= seq!["127.0.0.1"@]);
        CommandServerConfig {
            enabled: true,
            port: 7462,
            bind_address: copy_of("0.0.0.0"),
            control_from,
        }
    }
}

impl AgentConfig {
    /// The built-in defaults.
    pub open spec fn is_default(&self) -> bool {
        self.socket_path@ == "/tmp/ibctl.sock"@
    }
}

impl Default for AgentConfig {
    fn default() -> (r: Self)
        ensures
            r.is_default(),
    {
        AgentConfig { socket_path: copy_of("/tmp/ibctl.sock") }
    }
}

impl LoggingConfig {
    /// The built-in defaults.
    pub open spec fn is_default(&self) -> bool {
        self.level@ == "info"@
    }
}

impl Default for LoggingConfig {
    fn default() -> (r: Self)
        ensures
            r.is_default(),
    {
        LoggingConfig { level: copy_of("info") }
    }
}

impl SiteConfig {
    /// The built-in defaults.
    pub open spec fn is_default(&self) -> bool {
        self.role@ == "primary"@ && self.auto_launch
    }
}

impl Default for SiteConfig {
    fn default() -> (r: Self)
        ensures
            r.is_default(),
    {
        SiteConfig { role: copy_of("primary"), auto_launch: true }
    }
}

impl Default for IbStatusConfig {
    fn default() -> (r: Self)
        ensures
            !r.kick_active_session,
    {
        IbStatusConfig { kick_active_session: false }
    }
}

impl Config {
    /// The built-in defaults.
    pub open spec fn is_default(&self) -> bool {
        &&& self.auth.is_default()
        &&& self.twofa.is_default()
        &&& self.gateway.is_default()
        &&& self.session.is_default()
        &&& self.command_server.is_default()
        &&& self.agent.is_default()
        &&& self.logging.is_default()
        &&& self.timing == default_timing()
        &&& self.site.is_default()
        &&& !self.ib_status.kick_active_session
    }
}

impl Default for Config {
    fn default() -> (r: Self)
        ensures
            r.is_default(),
    {
        Config {
            auth: AuthConfig::default(),
            twofa: TwoFaConfig::default(),
            gateway: GatewayConfig::default(),
            session: SessionConfig::default(),
            command_server: CommandServerConfig::default(),
            agent: AgentConfig::default(),
            logging: LoggingConfig::default(),
            timing: TimingConfig::default(),
            site: SiteConfig::default(),
            ib_status: IbStatusConfig::default(),
        }
    }
}

/// The environment variables that override the configuration, where they are set. Those of
/// the first group are read through [`env_or_file`].
#[derive(Debug)]
pub struct Environment {
    pub tws_userid: Option<String>,
    pub tws_password: Option<String>,
    pub trading_mode: Option<String>,
    pub tws_userid_paper: Option<String>,
    pub tws_password_paper: Option<String>,
    pub totp_provider: Option<String>,
    pub twofa_timeout_action: Option<String>,
    pub twofa_exit_interval: Option<String>,
    pub tws_path: Option<String>,
    pub tws_settings_path: Option<String>,
    pub tws_major_vrsn: Option<String>,
    pub java_heap_size: Option<String>,
    pub gateway_or_tws: Option<String>,
    pub session_action: Option<String>,
    pub accept_incoming: Option<String>,
    pub command_server_enabled: Option<String>,
    pub command_port: Option<String>,
    pub control_from: Option<String>,
    pub agent_socket: Option<String>,
    pub log_level: Option<String>,
    pub backoff: BackoffEnvironment,
}

/// The environment variables of the 2FA backoff and of the API port probe.
#[derive(Debug)]
pub struct BackoffEnvironment {
    pub max_immediate_attempts: Option<String>,
    pub on_timeout: Option<String>,
    pub strategy: Option<String>,
    pub intervals_minutes: Option<String>,
    pub callback_valid_hours: Option<String>,
    pub counter_reset: Option<String>,
    pub stable_secs: Option<String>,
    pub cold_restart_preempts_hitl: Option<String>,
    pub ntfy_send_retries: Option<String>,
    pub api_port_probe_interval_secs: Option<String>,
    pub api_port_probe_fails_before_revoke: Option<String>,
}

/// A text setting under an override: the variable where it is set.
pub open spec fn text_over(old: String, v: Option<String>) -> Seq<char> {
    match v {
        Some(t) => t@,
        None => old@,
    }
}

/// A number under an override: the variable where it reads as a number of at most `max`.
pub open spec fn number_over(old: nat, v: Option<String>, max: nat) -> nat {
    match v {
        Some(t) => match parsed(t@, max) {
            Some(n) => n,
            None => old,
        },
        None => old,
    }
}

/// A text counts as yes unless it is "false", "0" or "no".
pub open spec fn switched_on(v: Seq<char>) -> bool {
    lower_case(v) != "false"@ && v != "0"@ && lower_case(v) != "no"@
}

/// A switch under an override.
pub open spec fn switch_over(old: bool, v: Option<String>) -> bool {
    match v {
        Some(t) => switched_on(t@),
        None => old,
    }
}

/// A list under an override: the parts between commas, without the space round them.
pub open spec fn list_over(old: Seq<String>, v: Option<String>) -> Seq<Seq<char>> {
    match v {
        Some(t) => pieces(t@, ',').map_values(|p: Seq<char>| trimmed(p)),
        None => texts(old),
    }
}

/// The numbers between commas, where every part reads as one.
pub open spec fn numbers_of(parts: Seq<Seq<char>>) -> Option<Seq<u64>>
    decreases parts.len(),
{
    if parts.len() == 0 {
        Some(Seq::empty())
    } else {
        match (numbers_of(parts.drop_last()), parsed(trimmed(parts.last()), u64::MAX as nat)) {
            (Some(before), Some(n)) => Some(before.push(n as u64)),
            _ => None,
        }
    }
}

/// A list of numbers under an override.
pub open spec fn numbers_over(old: Seq<u64>, v: Option<String>) -> Seq<u64> {
    match v {
        Some(t) => match numbers_of(pieces(t@, ',')) {
            Some(n) => n,
            None => old,
        },
        None => old,
    }
}

pub open spec fn on_timeout_named(n: Seq<char>) -> Option<OnTimeout> {
    if n == "restart_then_hitl"@ {
        Some(OnTimeout::RestartThenHitl)
    } else if n == "restart_forever"@ {
        Some(OnTimeout::RestartForever)
    } else if n == "hitl_immediately"@ {
        Some(OnTimeout::HitlImmediately)
    } else {
        None
    }
}

pub open spec fn strategy_named(n: Seq<char>) -> Option<Strategy> {
    if n == "periodic"@ {
        Some(Strategy::Periodic)
    } else if n == "ntfy_callback"@ {
        Some(Strategy::NtfyCallback)
    } else if n == "both"@ {
        Some(Strategy::Both)
    } else if n == "disabled"@ {
        Some(Strategy::Disabled)
    } else {
        None
    }
}

pub open spec fn counter_reset_named(n: Seq<char>) -> Option<CounterReset> {
    if n == "any_reach"@ {
        Some(CounterReset::AnyReach)
    } else if n == "stable"@ {
        Some(CounterReset::Stable)
    } else {
        None
    }
}

impl OnTimeout {
    /// The value with this name in the configuration.
    pub fn from_name(name: &str) -> (r: Option<OnTimeout>)
        ensures
            r == on_timeout_named(name@),
    {
        if same(name, "restart_then_hitl") {
            Some(OnTimeout::RestartThenHitl)
        } else if same(name, "restart_forever") {
            Some(OnTimeout::RestartForever)
        } else if same(name, "hitl_immediately") {
            Some(OnTimeout::HitlImmediately)
        } else {
            None
        }
    }
}

impl Strategy {
    /// The value with this name in the configuration.
    pub fn from_name(name: &str) -> (r: Option<Strategy>)
        ensures
            r == strategy_named(name@),
    {
        if same(name, "periodic") {
            Some(Strategy::Periodic)
        } else if same(name, "ntfy_callback") {
            Some(Strategy::NtfyCallback)
        } else if same(name, "both") {
            Some(Strategy::Both)
        } else if same(name, "disabled") {
            Some(Strategy::Disabled)
        } else {
            None
        }
    }

    /// Retries come by themselves.
    pub open spec fn timed(self) -> bool {
        self == Strategy::Periodic || self == Strategy::Both
    }

    /// The operator is notified.
    pub open spec fn notifies(self) -> bool {
        self == Strategy::NtfyCallback || self == Strategy::Both
    }

    /// Whether retries come by themselves.
    pub fn has_timer(self) -> (r: bool)
        ensures
            r == self.timed(),
    {
        self == Strategy::Periodic || self == Strategy::Both
    }

    /// Whether the operator is notified.
    pub fn has_ntfy(self) -> (r: bool)
        ensures
            r == self.notifies(),
    {
        self == Strategy::NtfyCallback || self == Strategy::Both
    }
}

impl CounterReset {
    /// The value with this name in the configuration.
    pub fn from_name(name: &str) -> (r: Option<CounterReset>)
        ensures
            r == counter_reset_named(name@),
    {
        if same(name, "any_reach") {
            Some(CounterReset::AnyReach)
        } else if same(name, "stable") {
            Some(CounterReset::Stable)
        } else {
            None
        }
    }
}

fn text_or(v: &Option<String>, old: &String) -> (r: String)
    ensures
        r@ == text_over(*old, *v),
{
    match v {
        Some(t) => t.clone(),
        None => old.clone(),
    }
}

fn number_or(v: &Option<String>, old: u64, max: u64) -> (r: u64)
    requires
        old <= max,
    ensures
        r == number_over(old as nat, *v, max as nat),
        r <= max,
{
    match v {
        Some(t) => match parse_number(t.as_str(), max) {
            Some(n) => n,
            None => old,
        },
        None => old,
    }
}

fn switch_or(v: &Option<String>, old: bool) -> (r: bool)
    ensures
        r == switch_over(old, *v),
{
    match v {
        Some(t) => {
            let lower = lowercase(t.as_str());
            !same(lower.as_str(), "false") && !same(t.as_str(), "0") && !same(lower.as_str(), "no")
        },
        None => old,
    }
}

fn trimmed_parts(parts: &Vec<String>) -> (r: Vec<String>)
    ensures
        texts(r@) == texts(parts@).map_values(|p: Seq<char>| trimmed(p)),
{
    let mut out: Vec<String> = Vec::new();
    let mut i: usize = 0;
    while i < parts.len()
        invariant
            i <= parts@.len(),
            out@.len() == i,
            forall|j: int| 0 <= j < i ==> (#[trigger] out@[j])@ == trimmed(parts@[j]@),
        decreases parts@.len() - i,
    {
        out.push(trim(parts[i].as_str()));
        i += 1;
    }
    assert(texts(out@) =~= texts(parts@).map_values(|p: Seq<char>| trimmed(p)));
    out
}

fn numbers(parts: &Vec<String>) -> (r: Option<Vec<u64>>)
    ensures
        match r {
            Some(v) => numbers_of(texts(parts@)) == Some(v@),
            None => numbers_of(texts(parts@)) is None,
        },
{
    let ghost all = texts(parts@);
    let mut out: Vec<u64> = Vec::new();
    let mut i: usize = 0;
    assert(all.subrange(0, 0) =~= Seq::<Seq<char>>::empty());
    while i < parts.len()
        invariant
            i <= parts@.len(),
            all == texts(parts@),
            numbers_of(all.subrange(0, i as int)) == Some(out@),
        decreases parts@.len() - i,
    {
        proof {
            assert(all.subrange(0, i + 1).drop_last() =~= all.subrange(0, i as int));
            assert(all.subrange(0, i + 1).last() == parts@[i as int]@);
        }
        let t = trim(parts[i].as_str());
        match parse_number(t.as_str(), u64::MAX) {
            Some(n) => {
                out.push(n);
            },
            None => {
                proof {
                    numbers_fail(all, i + 1);
                }
                return None;
            },
        }
        i += 1;
    }
    assert(all.subrange(0, i as int) =~= all);
    Some(out)
}

proof fn numbers_fail(parts: Seq<Seq<char>>, n: int)
    requires
        0 <= n <= parts.len(),
        numbers_of(parts.subrange(0, n)) is None,
    ensures
        numbers_of(parts) is None,
    decreases parts.len() - n,
{
    if n < parts.len() {
        assert(parts.subrange(0, n + 1).drop_last() =~= parts.subrange(0, n));
        numbers_fail(parts, n + 1);
    } else {
        assert(parts.subrange(0, n) =~= parts);
    }
}

impl BackoffConfig {
    /// What the environment makes of the backoff settings.
    pub open spec fn overridden(&self, old: BackoffConfig, env: BackoffEnvironment) -> bool {
        &&& self.max_immediate_attempts == number_over(
            old.max_immediate_attempts as nat,
            env.max_immediate_attempts,
            u32::MAX as nat,
        )
        &&& self.on_timeout == match env.on_timeout {
            Some(t) => match on_timeout_named(t@) {
                Some(v) => v,
                None => old.on_timeout,
            },
            None => old.on_timeout,
        }
        &&& self.strategy == match env.strategy {
            Some(t) => match strategy_named(t@) {
                Some(v) => v,
                None => old.strategy,
            },
            None => old.strategy,
        }
        &&& self.intervals_minutes@ == numbers_over(old.intervals_minutes@, env.intervals_minutes)
        &&& self.callback_valid_hours == number_over(
            old.callback_valid_hours as nat,
            env.callback_valid_hours,
            u64::MAX as nat,
        )
        &&& self.counter_reset == match env.counter_reset {
            Some(t) => match counter_reset_named(t@) {
                Some(v) => v,
                None => old.counter_reset,
            },
            None => old.counter_reset,
        }
        &&& self.stable_secs == number_over(
            old.stable_secs as nat,
            env.stable_secs,
            u64::MAX as nat,
        )
        &&& self.cold_restart_preempts_hitl == switch_over(
            old.cold_restart_preempts_hitl,
            env.cold_restart_preempts_hitl,
        )
        &&& self.ntfy_send_retries == number_over(
            old.ntfy_send_retries as nat,
            env.ntfy_send_retries,
            u32::MAX as nat,
        )
    }

    fn override_from(&mut self, env: &BackoffEnvironment)
        ensures
            final(self).overridden(*old(self), *env),
    {
        self.max_immediate_attempts = number_or(
            &env.max_immediate_attempts,
            self.max_immediate_attempts as u64,
            u32::MAX as u64,
        ) as u32;
        if let Some(t) = &env.on_timeout {
            if let Some(v) = OnTimeout::from_name(t.as_str()) {
                self.on_timeout = v;
            }
        }
        if let Some(t) = &env.strategy {
            if let Some(v) = Strategy::from_name(t.as_str()) {
                self.strategy = v;
            }
        }
        if let Some(t) = &env.intervals_minutes {
            let parts = split(t.as_str(), ',');
            if let Some(v) = numbers(&parts) {
                self.intervals_minutes = v;
            }
        }
        self.callback_valid_hours = number_or(
            &env.callback_valid_hours,
            self.callback_valid_hours,
            u64::MAX,
        );
        if let Some(t) = &env.counter_reset {
            if let Some(v) = CounterReset::from_name(t.as_str()) {
                self.counter_reset = v;
            }
        }
        self.stable_secs = number_or(&env.stable_secs, self.stable_secs, u64::MAX);
        self.cold_restart_preempts_hitl = switch_or(
            &env.cold_restart_preempts_hitl,
            self.cold_restart_preempts_hitl,
        );
        self.ntfy_send_retries = number_or(
            &env.ntfy_send_retries,
            self.ntfy_send_retries as u64,
            u32::MAX as u64,
        ) as u32;
    }
}

/// What became of the configuration file.
#[derive(Debug)]
pub enum FileLayer {
    /// There is no such file.
    Absent,
    /// It could not be read, for this reason.
    Unreadable(String),
    /// It is not in the format, for this reason.
    Malformed(String),
    Read(Config),
}

/// Which file is looked for: the one asked for, else the one that `IBCTL_CONFIG` names, else
/// `ibctl.toml`.
pub open spec fn config_path(path: Option<&str>, variable: Option<&str>) -> Seq<char> {
    match (path, variable) {
        (Some(p), _) => p@,
        (None, Some(v)) => v@,
        (None, None) => "ibctl.toml"@,
    }
}

/// The text of a variable, empty where it is not set.
pub open spec fn variable_text(v: Option<String>) -> Seq<char> {
    match v {
        Some(t) => t@,
        None => Seq::empty(),
    }
}

impl Config {
    /// Which file to look for: the one asked for, else the one that `IBCTL_CONFIG` names,
    /// else `ibctl.toml`.
    pub fn file_path(path: Option<&str>, variable: Option<&str>) -> (r: String)
        ensures
            r@ == config_path(path, variable),
    {
        match path {
            Some(p) => copy_of(p),
            None => match variable {
                Some(v) => copy_of(v),
                None => copy_of("ibctl.toml"),
            },
        }
    }

    /// The configuration with these passwords.
    pub open spec fn with_passwords(self, password: String, paper: String) -> Config {
        Config {
            auth: AuthConfig {
                password,
                paper: PaperAuthConfig { password: paper, ..self.auth.paper },
                ..self.auth
            },
            ..self
        }
    }

    /// The configuration in force is the layer `base`, without its passwords, under the
    /// environment.
    pub open spec fn layered(&self, base: Config, env: Environment) -> bool {
        exists|p: String, q: String|
            p@.len() == 0 && q@.len() == 0 && #[trigger] self.overridden(
                base.with_passwords(p, q),
                env,
            )
    }

    /// The configuration in force, from what became of the file that was looked for, and the
    /// environment.
    ///
    /// Only a file that was asked for by its path has to be there; without one the defaults
    /// stand. Passwords never come from the file.
    pub fn load(
        path: Option<&str>,
        variable: Option<&str>,
        file: FileLayer,
        env: &Environment,
    ) -> (r: Result<Config, ConfigError>)
        ensures
            match file {
                FileLayer::Read(c) => r matches Ok(config) && config.layered(c, *env),
                FileLayer::Absent => if path is Some {
                    r matches Err(ConfigError::ReadFile { path: p, source }) && p@ == config_path(
                        path,
                        variable,
                    ) && source@ == "config file not found"@
                } else {
                    r matches Ok(config) && exists|d: Config|
                        #[trigger] d.is_default() && config.layered(d, *env)
                },
                FileLayer::Unreadable(e) => r matches Err(ConfigError::ReadFile { path: p, source })
                    && p@ == config_path(path, variable) && source@ == e@,
                FileLayer::Malformed(e) => r matches Err(ConfigError::Parse(m)) && m@ == e@,
            },
            r matches Ok(config) ==> config.auth.password@ == variable_text(env.tws_password)
                && config.auth.paper.password@ == variable_text(env.tws_password_paper),
    {
        let mut config: Config = match file {
            FileLayer::Read(c) => c,
            FileLayer::Absent => {
                if path.is_some() {
                    return Err(
                        ConfigError::ReadFile {
                            path: Self::file_path(path, variable),
                            source: copy_of("config file not found"),
                        },
                    );
                }
                Config::default()
            },
            FileLayer::Unreadable(e) => {
                return Err(
                    ConfigError::ReadFile { path: Self::file_path(path, variable), source: e },
                );
            },
            FileLayer::Malformed(e) => {
                return Err(ConfigError::Parse(e));
            },
        };
        let ghost base = config;
        config.auth.password = String::new();
        config.auth.paper.password = String::new();
        let ghost (p, q) = (config.auth.password, config.auth.paper.password);
        assert(config == base.with_passwords(p, q));
        config.apply_env_overrides(env);
        assert(config.overridden(base.with_passwords(p, q), *env));
        Ok(config)
    }

    /// What the environment makes of a configuration: each variable that is set stands in for
    /// its setting, and a number that cannot be read does not.
    pub open spec fn overridden(&self, old: Config, env: Environment) -> bool {
        &&& self.auth.username@ == text_over(old.auth.username, env.tws_userid)
        &&& self.auth.password@ == text_over(old.auth.password, env.tws_password)
        &&& self.auth.trading_mode@ == text_over(old.auth.trading_mode, env.trading_mode)
        &&& self.auth.paper.username@ == text_over(old.auth.paper.username, env.tws_userid_paper)
        &&& self.auth.paper.password@ == text_over(old.auth.paper.password, env.tws_password_paper)
        &&& self.twofa.secret_env@ == old.twofa.secret_env@
        &&& self.twofa.provider@ == text_over(old.twofa.provider, env.totp_provider)
        &&& self.twofa.timeout_action@ == text_over(
            old.twofa.timeout_action,
            env.twofa_timeout_action,
        )
        &&& self.twofa.timeout_seconds == number_over(
            old.twofa.timeout_seconds as nat,
            env.twofa_exit_interval,
            u64::MAX as nat,
        )
        &&& self.twofa.device@ == old.twofa.device@
        &&& self.twofa.relogin_after_timeout == old.twofa.relogin_after_timeout
        &&& self.twofa.backoff.overridden(old.twofa.backoff, env.backoff)
        &&& self.gateway.tws_path@ == text_over(old.gateway.tws_path, env.tws_path)
        &&& self.gateway.settings_path@ == text_over(
            old.gateway.settings_path,
            env.tws_settings_path,
        )
        &&& self.gateway.version@ == text_over(old.gateway.version, env.tws_major_vrsn)
        &&& self.gateway.java_heap_mb == number_over(
            old.gateway.java_heap_mb as nat,
            env.java_heap_size,
            u32::MAX as nat,
        )
        &&& self.gateway.program@ == text_over(old.gateway.program, env.gateway_or_tws)
        &&& self.gateway.live_api_port == old.gateway.live_api_port
        &&& self.gateway.live_socat_port == old.gateway.live_socat_port
        &&& self.gateway.paper_api_port == old.gateway.paper_api_port
        &&& self.gateway.paper_socat_port == old.gateway.paper_socat_port
        &&& self.session.action@ == text_over(old.session.action, env.session_action)
        &&& self.session.accept_incoming@ == text_over(
            old.session.accept_incoming,
            env.accept_incoming,
        )
        &&& self.command_server.enabled == switch_over(
            old.command_server.enabled,
            env.command_server_enabled,
        )
        &&& self.command_server.port == number_over(
            old.command_server.port as nat,
            env.command_port,
            u16::MAX as nat,
        )
        &&& self.command_server.bind_address@ == old.command_server.bind_address@
        &&& texts(self.command_server.control_from@) == list_over(
            old.command_server.control_from@,
            env.control_from,
        )
        &&& self.agent.socket_path@ == text_over(old.agent.socket_path, env.agent_socket)
        &&& self.logging.level@ == text_over(old.logging.level, env.log_level)
        &&& self.timing == (TimingConfig {
            api_port_probe_interval_secs: number_over(
                old.timing.api_port_probe_interval_secs as nat,
                env.backoff.api_port_probe_interval_secs,
                u64::MAX as nat,
            ) as u64,
            api_port_probe_fails_before_revoke: number_over(
                old.timing.api_port_probe_fails_before_revoke as nat,
                env.backoff.api_port_probe_fails_before_revoke,
                u32::MAX as nat,
            ) as u32,
            ..old.timing
        })
        &&& self.site.role@ == old.site.role@
        &&& self.site.auto_launch == old.site.auto_launch
        &&& self.ib_status == old.ib_status
    }

    /// Lays the environment over the configuration. It has the highest precedence.
    pub fn apply_env_overrides(&mut self, env: &Environment)
        ensures
            final(self).overridden(*old(self), *env),
    {
        self.auth.username = text_or(&env.tws_userid, &self.auth.username);
        self.auth.password = text_or(&env.tws_password, &self.auth.password);
        self.auth.trading_mode = text_or(&env.trading_mode, &self.auth.trading_mode);
        self.auth.paper.username = text_or(&env.tws_userid_paper, &self.auth.paper.username);
        self.auth.paper.password = text_or(&env.tws_password_paper, &self.auth.paper.password);

        self.twofa.provider = text_or(&env.totp_provider, &self.twofa.provider);
        self.twofa.timeout_action = text_or(&env.twofa_timeout_action, &self.twofa.timeout_action);
        self.twofa.timeout_seconds = number_or(
            &env.twofa_exit_interval,
            self.twofa.timeout_seconds,
            u64::MAX,
        );
        self.twofa.backoff.override_from(&env.backoff);

        self.gateway.tws_path = text_or(&env.tws_path, &self.gateway.tws_path);
        self.gateway.settings_path = text_or(&env.tws_settings_path, &self.gateway.settings_path);
        self.gateway.version = text_or(&env.tws_major_vrsn, &self.gateway.version);
        self.gateway.java_heap_mb = number_or(
            &env.java_heap_size,
            self.gateway.java_heap_mb as u64,
            u32::MAX as u64,
        ) as u32;
        self.gateway.program = text_or(&env.gateway_or_tws, &self.gateway.program);

        self.session.action = text_or(&env.session_action, &self.session.action);
        self.session.accept_incoming = text_or(&env.accept_incoming, &self.session.accept_incoming);

        self.command_server.enabled = switch_or(
            &env.command_server_enabled,
            self.command_server.enabled,
        );
        self.command_server.port = number_or(
            &env.command_port,
            self.command_server.port as u64,
            u16::MAX as u64,
        ) as u16;
        if let Some(v) = &env.control_from {
            let parts = split(v.as_str(), ',');
            self.command_server.control_from = trimmed_parts(&parts);
        }
        self.agent.socket_path = text_or(&env.agent_socket, &self.agent.socket_path);
        self.logging.level = text_or(&env.log_level, &self.logging.level);

        self.timing.api_port_probe_interval_secs = number_or(
            &env.backoff.api_port_probe_interval_secs,
            self.timing.api_port_probe_interval_secs,
            u64::MAX,
        );
        self.timing.api_port_probe_fails_before_revoke = number_or(
            &env.backoff.api_port_probe_fails_before_revoke,
            self.timing.api_port_probe_fails_before_revoke as u64,
            u32::MAX as u64,
        ) as u32;
    }

    /// Checks that the required settings are there: the user name first, then the password.
    pub fn validate(&self) -> (r: Result<(), ConfigError>)
        ensures
            match r {
                Ok(_) => self.auth.username@.len() > 0 && self.auth.password@.len() > 0,
                Err(ConfigError::Missing(what)) => if self.auth.username@.len() == 0 {
                    what@ == "auth.username (or TWS_USERID env var)"@
                } else {
                    self.auth.password@.len() == 0 && what@
                        == "TWS_PASSWORD or TWS_PASSWORD_FILE env var"@
                },
                Err(_) => false,
            },
    {
        if self.auth.username.as_str().is_empty() {
            return Err(ConfigError::Missing(copy_of("auth.username (or TWS_USERID env var)")));
        }
        if self.auth.password.as_str().is_empty() {
            return Err(
                ConfigError::Missing(copy_of("TWS_PASSWORD or TWS_PASSWORD_FILE env var")),
            );
        }
        Ok(())
    }

    /// Both modes run without a paper user name: the main credentials are used, which deserves
    /// a warning.
    pub fn shares_credentials(&self) -> (r: bool)
        ensures
            r == (self.auth.trading_mode@ == "both"@ && self.auth.paper.username@.len() == 0),
    {
        same(self.auth.trading_mode.as_str(), "both") && self.auth.paper.username.as_str().is_empty()
    }

    /// What deserves a warning before the start, in this order: settings outside their ranges,
    /// a wait for the operator that nothing can end or that has no strategy, and what
    /// notifications lack.
    pub fn preflight(&self, signing_key: bool, external_url: bool) -> (r: Vec<PreflightIssue>)
        ensures
            r@ == self.issues(signing_key, external_url),
    {
        let b = &self.twofa.backoff;
        let mut out: Vec<PreflightIssue> = Vec::new();
        if !(1 <= b.callback_valid_hours && b.callback_valid_hours <= 168) {
            out.push(PreflightIssue::CallbackHours);
        }
        let fails: u32 = self.timing.api_port_probe_fails_before_revoke;
        if !(1 <= fails && fails <= 10) {
            out.push(PreflightIssue::ProbeFailures);
        }
        if b.strategy == Strategy::Disabled && b.on_timeout == OnTimeout::HitlImmediately {
            out.push(PreflightIssue::HitlNeedsStrategy);
        }
        if b.strategy == Strategy::Disabled && b.on_timeout == OnTimeout::RestartThenHitl {
            out.push(PreflightIssue::HitlDeadEnd);
        }
        if b.strategy.has_ntfy() && !signing_key {
            out.push(PreflightIssue::SigningKeyMissing);
        }
        if b.strategy.has_ntfy() && !external_url {
            out.push(PreflightIssue::ExternalUrlMissing);
        }
        assert(out@ =~= self.issues(signing_key, external_url));
        out
    }

    /// What deserves a warning before the start.
    pub open spec fn issues(&self, signing_key: bool, external_url: bool) -> Seq<PreflightIssue> {
        let b = self.twofa.backoff;
        let fails = self.timing.api_port_probe_fails_before_revoke;
        let disabled = b.strategy == Strategy::Disabled;
        issue_if(!(1 <= b.callback_valid_hours <= 168), PreflightIssue::CallbackHours) + issue_if(
            !(1 <= fails <= 10),
            PreflightIssue::ProbeFailures,
        ) + issue_if(
            disabled && b.on_timeout == OnTimeout::HitlImmediately,
            PreflightIssue::HitlNeedsStrategy,
        ) + issue_if(
            disabled && b.on_timeout == OnTimeout::RestartThenHitl,
            PreflightIssue::HitlDeadEnd,
        ) + issue_if(b.strategy.notifies() && !signing_key, PreflightIssue::SigningKeyMissing)
            + issue_if(b.strategy.notifies() && !external_url, PreflightIssue::ExternalUrlMissing)
    }

    /// The settings directory, which is the TWS directory where none is set.
    pub fn effective_settings_path(&self) -> (r: &str)
        ensures
            r@ == self.settings_directory(),
    {
        if self.gateway.settings_path.as_str().is_empty() {
            self.gateway.tws_path.as_str()
        } else {
            self.gateway.settings_path.as_str()
        }
    }

    /// The settings directory, which is the TWS directory where none is set.
    pub open spec fn settings_directory(&self) -> Seq<char> {
        if self.gateway.settings_path@.len() == 0 {
            self.gateway.tws_path@
        } else {
            self.gateway.settings_path@
        }
    }
}

/// What deserves a warning before the start.
#[derive(Debug, Clone, Copy, PartialEq, Eq, Structural)]
pub enum PreflightIssue {
    /// The validity of the callback is not between 1 and 168 hours.
    CallbackHours,
    /// The failures before the session counts as lost are not between 1 and 10.
    ProbeFailures,
    /// The operator is waited for at once, which needs a strategy other than "disabled".
    HitlNeedsStrategy,
    /// The wait for the operator has no automatic end.
    HitlDeadEnd,
    /// Notifications need a signing key.
    SigningKeyMissing,
    /// Notifications need a URL that can be reached from outside.
    ExternalUrlMissing,
}

/// The issue alone, where the condition holds.
pub open spec fn issue_if(condition: bool, issue: PreflightIssue) -> Seq<PreflightIssue> {
    if condition {
        seq![issue]
    } else {
        Seq::empty()
    }
}

/// The variable that names the file with the value of `var`.
pub fn file_variable(var: &str) -> (r: String)
    ensures
        r@ == var@ + "_FILE"@,
{
    let mut s = copy_of(var);
    s.append("_FILE");
    s
}

/// The value of a variable: what the file holds that its `_FILE` variable names, without the
/// space round it, where that file could be read; else the variable itself.
pub fn env_or_file(file_contents: Option<&str>, value: Option<String>) -> (r: Option<String>)
    ensures
        match file_contents {
            Some(c) => r matches Some(v) && v@ == trimmed(c@),
            None => r == value,
        },
{
    match file_contents {
        Some(c) => Some(trim(c)),
        None => value,
    }
}

impl BackoffEnvironment {
    /// No variable is set.
    pub open spec fn unset(&self) -> bool {
        &&& self.max_immediate_attempts is None
        &&& self.on_timeout is None
        &&& self.strategy is None
        &&& self.intervals_minutes is None
        &&& self.callback_valid_hours is None
        &&& self.counter_reset is None
        &&& self.stable_secs is None
        &&& self.cold_restart_preempts_hitl is None
        &&& self.ntfy_send_retries is None
        &&& self.api_port_probe_interval_secs is None
        &&& self.api_port_probe_fails_before_revoke is None
    }
}

impl Environment {
    /// No variable is set.
    pub open spec fn unset(&self) -> bool {
        &&& self.tws_userid is None
        &&& self.tws_password is None
        &&& self.trading_mode is None
        &&& self.tws_userid_paper is None
        &&& self.tws_password_paper is None
        &&& self.totp_provider is None
        &&& self.twofa_timeout_action is None
        &&& self.twofa_exit_interval is None
        &&& self.tws_path is None
        &&& self.tws_settings_path is None
        &&& self.tws_major_vrsn is None
        &&& self.java_heap_size is None
        &&& self.gateway_or_tws is None
        &&& self.session_action is None
        &&& self.accept_incoming is None
        &&& self.command_server_enabled is None
        &&& self.command_port is None
        &&& self.control_from is None
        &&& self.agent_socket is None
        &&& self.log_level is None
        &&& self.backoff.unset()
    }
}

/// Without variables the environment changes nothing: the defaults stay the defaults, and what
/// the file says stands.
pub proof fn empty_environment_changes_nothing(c: Config, old: Config, env: Environment)
    requires
        c.overridden(old, env),
        env.unset(),
    ensures
        old.is_default() ==> c.is_default(),
        c.auth.username@ == old.auth.username@,
        c.auth.password@ == old.auth.password@,
        c.auth.trading_mode@ == old.auth.trading_mode@,
        c.settings_directory() == old.settings_directory(),
        c.twofa.timeout_seconds == old.twofa.timeout_seconds,
        c.command_server.port == old.command_server.port,
        c.command_server.enabled == old.command_server.enabled,
        texts(c.command_server.control_from@) == texts(old.command_server.control_from@),
        c.twofa.backoff.intervals_minutes@ == old.twofa.backoff.intervals_minutes@,
        c.timing == old.timing,
{
}

/// Whatever passwords the file holds, they do not get into the configuration.
pub proof fn passwords_come_from_the_environment(c: Config, base: Config, env: Environment)
    requires
        c.layered(base, env),
    ensures
        c.auth.password@ == variable_text(env.tws_password),
        c.auth.paper.password@ == variable_text(env.tws_password_paper),
{
    let (p, q) = choose|p: String, q: String|
        p@.len() == 0 && q@.len() == 0 && #[trigger] c.overridden(base.with_passwords(p, q), env);
    assert(c.overridden(base.with_passwords(p, q), env));
    assert(p@ =~= Seq::<char>::empty());
    assert(q@ =~= Seq::<char>::empty());
}

/// A variable that is set decides, whatever the file says: the two results agree for any two
/// lower layers.
pub proof fn environment_takes_precedence(a: Config, b: Config, x: Config, y: Config, env: Environment)
    requires
        a.overridden(x, env),
        b.overridden(y, env),
    ensures
        env.tws_userid is Some ==> a.auth.username@ == b.auth.username@,
        env.tws_password is Some ==> a.auth.password@ == b.auth.password@,
        env.trading_mode is Some ==> a.auth.trading_mode@ == b.auth.trading_mode@,
        env.tws_path is Some ==> a.gateway.tws_path@ == b.gateway.tws_path@,
        env.control_from is Some ==> texts(a.command_server.control_from@) == texts(
            b.command_server.control_from@,
        ),
        env.agent_socket is Some ==> a.agent.socket_path@ == b.agent.socket_path@,
        env.log_level is Some ==> a.logging.level@ == b.logging.level@,
{
}

/// Every variable that stands for a text decides its setting where it is set, whatever the layer
/// below says; where it is not set, that layer stands.
pub proof fn text_variables_decide(c: Config, base: Config, env: Environment)
    requires
        c.overridden(base, env),
    ensures
        env.tws_userid matches Some(t) ==> c.auth.username@ == t@,
        env.tws_userid is None ==> c.auth.username@ == base.auth.username@,
        env.tws_password matches Some(t) ==> c.auth.password@ == t@,
        env.tws_password is None ==> c.auth.password@ == base.auth.password@,
        env.trading_mode matches Some(t) ==> c.auth.trading_mode@ == t@,
        env.trading_mode is None ==> c.auth.trading_mode@ == base.auth.trading_mode@,
        env.tws_userid_paper matches Some(t) ==> c.auth.paper.username@ == t@,
        env.tws_userid_paper is None ==> c.auth.paper.username@ == base.auth.paper.username@,
        env.tws_password_paper matches Some(t) ==> c.auth.paper.password@ == t@,
        env.tws_password_paper is None ==> c.auth.paper.password@ == base.auth.paper.password@,
        env.totp_provider matches Some(t) ==> c.twofa.provider@ == t@,
        env.totp_provider is None ==> c.twofa.provider@ == base.twofa.provider@,
        env.twofa_timeout_action matches Some(t) ==> c.twofa.timeout_action@ == t@,
        env.twofa_timeout_action is None ==> c.twofa.timeout_action@ == base.twofa.timeout_action@,
        env.tws_path matches Some(t) ==> c.gateway.tws_path@ == t@,
        env.tws_path is None ==> c.gateway.tws_path@ == base.gateway.tws_path@,
        env.tws_settings_path matches Some(t) ==> c.gateway.settings_path@ == t@,
        env.tws_settings_path is None ==> c.gateway.settings_path@ == base.gateway.settings_path@,
        env.tws_major_vrsn matches Some(t) ==> c.gateway.version@ == t@,
        env.tws_major_vrsn is None ==> c.gateway.version@ == base.gateway.version@,
        env.gateway_or_tws matches Some(t) ==> c.gateway.program@ == t@,
        env.gateway_or_tws is None ==> c.gateway.program@ == base.gateway.program@,
        env.session_action matches Some(t) ==> c.session.action@ == t@,
        env.session_action is None ==> c.session.action@ == base.session.action@,
        env.accept_incoming matches Some(t) ==> c.session.accept_incoming@ == t@,
        env.accept_incoming is None ==> c.session.accept_incoming@ == base.session.accept_incoming@,
        env.agent_socket matches Some(t) ==> c.agent.socket_path@ == t@,
        env.agent_socket is None ==> c.agent.socket_path@ == base.agent.socket_path@,
        env.log_level matches Some(t) ==> c.logging.level@ == t@,
        env.log_level is None ==> c.logging.level@ == base.logging.level@,
{
}

/// A loaded configuration goes by its variables in the same way; without a variable it goes by
/// the file or the defaults, but for the passwords.
pub proof fn text_variables_decide_what_is_loaded(c: Config, base: Config, env: Environment)
    requires
        c.layered(base, env),
    ensures
        env.tws_userid matches Some(t) ==> c.auth.username@ == t@,
        env.tws_userid is None ==> c.auth.username@ == base.auth.username@,
        env.tws_password matches Some(t) ==> c.auth.password@ == t@,
        env.tws_password is None ==> c.auth.password@.len() == 0,
        env.trading_mode matches Some(t) ==> c.auth.trading_mode@ == t@,
        env.trading_mode is None ==> c.auth.trading_mode@ == base.auth.trading_mode@,
        env.tws_userid_paper matches Some(t) ==> c.auth.paper.username@ == t@,
        env.tws_userid_paper is None ==> c.auth.paper.username@ == base.auth.paper.username@,
        env.tws_password_paper matches Some(t) ==> c.auth.paper.password@ == t@,
        env.tws_password_paper is None ==> c.auth.paper.password@.len() == 0,
        env.totp_provider matches Some(t) ==> c.twofa.provider@ == t@,
        env.totp_provider is None ==> c.twofa.provider@ == base.twofa.provider@,
        env.twofa_timeout_action matches Some(t) ==> c.twofa.timeout_action@ == t@,
        env.twofa_timeout_action is None ==> c.twofa.timeout_action@ == base.twofa.timeout_action@,
        env.tws_path matches Some(t) ==> c.gateway.tws_path@ == t@,
        env.tws_path is None ==> c.gateway.tws_path@ == base.gateway.tws_path@,
        env.tws_settings_path matches Some(t) ==> c.gateway.settings_path@ == t@,
        env.tws_settings_path is None ==> c.gateway.settings_path@ == base.gateway.settings_path@,
        env.tws_major_vrsn matches Some(t) ==> c.gateway.version@ == t@,
        env.tws_major_vrsn is None ==> c.gateway.version@ == base.gateway.version@,
        env.gateway_or_tws matches Some(t) ==> c.gateway.program@ == t@,
        env.gateway_or_tws is None ==> c.gateway.program@ == base.gateway.program@,
        env.session_action matches Some(t) ==> c.session.action@ == t@,
        env.session_action is None ==> c.session.action@ == base.session.action@,
        env.accept_incoming matches Some(t) ==> c.session.accept_incoming@ == t@,
        env.accept_incoming is None ==> c.session.accept_incoming@ == base.session.accept_incoming@,
        env.agent_socket matches Some(t) ==> c.agent.socket_path@ == t@,
        env.agent_socket is None ==> c.agent.socket_path@ == base.agent.socket_path@,
        env.log_level matches Some(t) ==> c.logging.level@ == t@,
        env.log_level is None ==> c.logging.level@ == base.logging.level@,
{
    let (p, q) = choose|p: String, q: String|
        p@.len() == 0 && q@.len() == 0 && #[trigger] c.overridden(base.with_passwords(p, q), env);
    text_variables_decide(c, base.with_passwords(p, q), env);
}

/// A variable that stands for a number decides its setting where it reads as a number that fits;
/// where it is not set, or does not read, the layer below stands.
pub proof fn number_variables_decide(c: Config, base: Config, env: Environment)
    requires
        c.overridden(base, env),
    ensures
        env.twofa_exit_interval matches Some(t) ==> (parsed(t@, 0xffff_ffff_ffff_ffff) matches Some(n) ==> c.twofa.timeout_seconds == n),
        (env.twofa_exit_interval matches Some(t) ==> parsed(t@, 0xffff_ffff_ffff_ffff) is None) ==> c.twofa.timeout_seconds == base.twofa.timeout_seconds,
        env.java_heap_size matches Some(t) ==> (parsed(t@, 0xffff_ffff) matches Some(n) ==> c.gateway.java_heap_mb == n),
        (env.java_heap_size matches Some(t) ==> parsed(t@, 0xffff_ffff) is None) ==> c.gateway.java_heap_mb == base.gateway.java_heap_mb,
        env.command_port matches Some(t) ==> (parsed(t@, 0xffff) matches Some(n) ==> c.command_server.port == n),
        (env.command_port matches Some(t) ==> parsed(t@, 0xffff) is None) ==> c.command_server.port == base.command_server.port,
        env.backoff.max_immediate_attempts matches Some(t) ==> (parsed(t@, 0xffff_ffff) matches Some(n) ==> c.twofa.backoff.max_immediate_attempts == n),
        (env.backoff.max_immediate_attempts matches Some(t) ==> parsed(t@, 0xffff_ffff) is None) ==> c.twofa.backoff.max_immediate_attempts == base.twofa.backoff.max_immediate_attempts,
        env.backoff.callback_valid_hours matches Some(t) ==> (parsed(t@, 0xffff_ffff_ffff_ffff) matches Some(n) ==> c.twofa.backoff.callback_valid_hours == n),
        (env.backoff.callback_valid_hours matches Some(t) ==> parsed(t@, 0xffff_ffff_ffff_ffff) is None) ==> c.twofa.backoff.callback_valid_hours == base.twofa.backoff.callback_valid_hours,
        env.backoff.stable_secs matches Some(t) ==> (parsed(t@, 0xffff_ffff_ffff_ffff) matches Some(n) ==> c.twofa.backoff.stable_secs == n),
        (env.backoff.stable_secs matches Some(t) ==> parsed(t@, 0xffff_ffff_ffff_ffff) is None) ==> c.twofa.backoff.stable_secs == base.twofa.backoff.stable_secs,
        env.backoff.ntfy_send_retries matches Some(t) ==> (parsed(t@, 0xffff_ffff) matches Some(n) ==> c.twofa.backoff.ntfy_send_retries == n),
        (env.backoff.ntfy_send_retries matches Some(t) ==> parsed(t@, 0xffff_ffff) is None) ==> c.twofa.backoff.ntfy_send_retries == base.twofa.backoff.ntfy_send_retries,
        env.backoff.api_port_probe_interval_secs matches Some(t) ==> (parsed(t@, 0xffff_ffff_ffff_ffff) matches Some(n) ==> c.timing.api_port_probe_interval_secs == n),
        (env.backoff.api_port_probe_interval_secs matches Some(t) ==> parsed(t@, 0xffff_ffff_ffff_ffff) is None) ==> c.timing.api_port_probe_interval_secs == base.timing.api_port_probe_interval_secs,
        env.backoff.api_port_probe_fails_before_revoke matches Some(t) ==> (parsed(t@, 0xffff_ffff) matches Some(n) ==> c.timing.api_port_probe_fails_before_revoke == n),
        (env.backoff.api_port_probe_fails_before_revoke matches Some(t) ==> parsed(t@, 0xffff_ffff) is None) ==> c.timing.api_port_probe_fails_before_revoke == base.timing.api_port_probe_fails_before_revoke,
{
}

/// The other variables: a switch is off for "false", "0" and "no" and on for every other text;
/// the names of the policies decide where they are known; lists are taken apart at their commas;
/// and what no variable stands for stays.
pub proof fn other_variables_decide(c: Config, base: Config, env: Environment)
    requires
        c.overridden(base, env),
    ensures
        env.command_server_enabled matches Some(t) ==> (c.command_server.enabled <==> !(t@ == "0"@
            || lower_case(t@) == "false"@ || lower_case(t@) == "no"@)),
        env.command_server_enabled is None ==> c.command_server.enabled
            == base.command_server.enabled,
        env.backoff.cold_restart_preempts_hitl matches Some(t) ==> (
        c.twofa.backoff.cold_restart_preempts_hitl <==> !(t@ == "0"@ || lower_case(t@) == "false"@
            || lower_case(t@) == "no"@)),
        env.backoff.cold_restart_preempts_hitl is None
            ==> c.twofa.backoff.cold_restart_preempts_hitl
            == base.twofa.backoff.cold_restart_preempts_hitl,
        env.control_from matches Some(t) ==> texts(c.command_server.control_from@).len() == pieces(
            t@,
            ',',
        ).len() && forall|i: int|
            0 <= i < c.command_server.control_from@.len() ==> (
            #[trigger] c.command_server.control_from@[i])@ == trimmed(pieces(t@, ',')[i]),
        env.control_from is None ==> texts(c.command_server.control_from@) == texts(
            base.command_server.control_from@,
        ),
        env.backoff.on_timeout matches Some(t) ==> {
            &&& t@ == "restart_then_hitl"@ ==> c.twofa.backoff.on_timeout
                == OnTimeout::RestartThenHitl
            &&& t@ == "restart_forever"@ ==> c.twofa.backoff.on_timeout == OnTimeout::RestartForever
            &&& t@ == "hitl_immediately"@ ==> c.twofa.backoff.on_timeout
                == OnTimeout::HitlImmediately
        },
        env.backoff.on_timeout is None ==> c.twofa.backoff.on_timeout
            == base.twofa.backoff.on_timeout,
        env.backoff.strategy matches Some(t) ==> {
            &&& t@ == "periodic"@ ==> c.twofa.backoff.strategy == Strategy::Periodic
            &&& t@ == "ntfy_callback"@ ==> c.twofa.backoff.strategy == Strategy::NtfyCallback
            &&& t@ == "both"@ ==> c.twofa.backoff.strategy == Strategy::Both
            &&& t@ == "disabled"@ ==> c.twofa.backoff.strategy == Strategy::Disabled
        },
        env.backoff.strategy is None ==> c.twofa.backoff.strategy == base.twofa.backoff.strategy,
        env.backoff.counter_reset matches Some(t) ==> {
            &&& t@ == "any_reach"@ ==> c.twofa.backoff.counter_reset == CounterReset::AnyReach
            &&& t@ == "stable"@ ==> c.twofa.backoff.counter_reset == CounterReset::Stable
        },
        env.backoff.counter_reset is None ==> c.twofa.backoff.counter_reset
            == base.twofa.backoff.counter_reset,
        env.backoff.intervals_minutes is None ==> c.twofa.backoff.intervals_minutes@
            == base.twofa.backoff.intervals_minutes@,
        c.twofa.secret_env@ == base.twofa.secret_env@,
        c.twofa.device@ == base.twofa.device@,
        c.twofa.relogin_after_timeout == base.twofa.relogin_after_timeout,
        c.gateway.live_api_port == base.gateway.live_api_port,
        c.gateway.live_socat_port == base.gateway.live_socat_port,
        c.gateway.paper_api_port == base.gateway.paper_api_port,
        c.gateway.paper_socat_port == base.gateway.paper_socat_port,
        c.command_server.bind_address@ == base.command_server.bind_address@,
        c.site.role@ == base.site.role@,
        c.site.auto_launch == base.site.auto_launch,
        c.ib_status == base.ib_status,
        c.timing.ui_tick_ms == base.timing.ui_tick_ms,
        c.timing.login_dialog_timeout_secs == base.timing.login_dialog_timeout_secs,
        c.timing.relogin_max_attempts == base.timing.relogin_max_attempts,
        c.timing.restart_delay_secs == base.timing.restart_delay_secs,
        c.timing.popup_quiet_secs == base.timing.popup_quiet_secs,
        c.timing.popup_max_wait_secs == base.timing.popup_max_wait_secs,
{
    policy_names_differ();
    if env.control_from is Some {
        let t = env.control_from->0;
        let list = texts(c.command_server.control_from@);
        assert(list == pieces(t@, ',').map_values(|p: Seq<char>| trimmed(p)));
        assert forall|i: int| 0 <= i < c.command_server.control_from@.len() implies (
        #[trigger] c.command_server.control_from@[i])@ == trimmed(pieces(t@, ',')[i]) by {
            assert(list[i] == c.command_server.control_from@[i]@);
        }
    }
}

proof fn policy_names_differ()
    ensures
        "restart_then_hitl"@ != "restart_forever"@,
        "restart_then_hitl"@ != "hitl_immediately"@,
        "restart_forever"@ != "hitl_immediately"@,
        "periodic"@ != "ntfy_callback"@,
        "periodic"@ != "both"@,
        "periodic"@ != "disabled"@,
        "ntfy_callback"@ != "both"@,
        "ntfy_callback"@ != "disabled"@,
        "both"@ != "disabled"@,
        "any_reach"@ != "stable"@,
{
    reveal_strlit("restart_then_hitl");
    reveal_strlit("restart_forever");
    reveal_strlit("hitl_immediately");
    reveal_strlit("periodic");
    reveal_strlit("ntfy_callback");
    reveal_strlit("both");
    reveal_strlit("disabled");
    reveal_strlit("any_reach");
    reveal_strlit("stable");
    assert("periodic"@[0] == 'p' && "disabled"@[0] == 'd');
    assert("restart_then_hitl"@.len() == 17 && "restart_forever"@.len() == 15);
    assert("hitl_immediately"@.len() == 16 && "ntfy_callback"@.len() == 13 && "both"@.len() == 4);
    assert("periodic"@.len() == 8 && "any_reach"@.len() == 9 && "stable"@.len() == 6);
}

/// A schedule is read from the numbers between commas: one number alone, and each further one
/// behind a comma, is appended; a part that does not read spoils the whole.
pub proof fn schedules_are_read_in_order(parts: Seq<Seq<char>>, part: Seq<char>, old: Vec<u64>, t: String)
    ensures
        numbers_of(Seq::empty()) == Some(Seq::<u64>::empty()),
        numbers_of(parts) is Some ==> (parsed(trimmed(part), 0xffff_ffff_ffff_ffff) matches Some(n)
            ==> numbers_of(parts.push(part)) == Some(numbers_of(parts)->0.push(n as u64))),
        parsed(trimmed(part), 0xffff_ffff_ffff_ffff) is None ==> numbers_of(parts.push(part)) is None,
        numbers_of(parts) is None ==> numbers_of(parts.push(part)) is None,
        numbers_over(old@, Some(t)) == match numbers_of(pieces(t@, ',')) {
            Some(n) => n,
            None => old@,
        },
{
    assert(parts.push(part).drop_last() =~= parts);
}

/// The built-in defaults.
pub proof fn defaults_are_documented(c: Config)
    requires
        c.is_default(),
    ensures
        c.auth.username@.len() == 0 && c.auth.password@.len() == 0 && c.auth.trading_mode@ == "live"@,
        c.auth.paper.username@.len() == 0 && c.auth.paper.password@.len() == 0,
        c.twofa.secret_env@ == "TWOFACTOR_CODE"@ && c.twofa.provider@ == "oathtool"@,
        c.twofa.timeout_action@ == "restart"@ && c.twofa.timeout_seconds == 180,
        c.twofa.device@.len() == 0 && !c.twofa.relogin_after_timeout,
        c.twofa.backoff.max_immediate_attempts == 3,
        c.twofa.backoff.on_timeout == OnTimeout::RestartThenHitl,
        c.twofa.backoff.strategy == Strategy::Periodic,
        c.twofa.backoff.intervals_minutes@ == seq![60u64],
        c.twofa.backoff.callback_valid_hours == 12,
        c.twofa.backoff.counter_reset == CounterReset::AnyReach,
        c.twofa.backoff.stable_secs == 300,
        c.twofa.backoff.cold_restart_preempts_hitl,
        c.twofa.backoff.ntfy_send_retries == 1,
        c.gateway.tws_path@ == "/home/ibgateway/Jts"@ && c.gateway.settings_path@.len() == 0,
        c.gateway.version@.len() == 0 && c.gateway.java_heap_mb == 768,
        c.gateway.program@ == "gateway"@,
        c.gateway.live_api_port == 4001 && c.gateway.live_socat_port == 4003,
        c.gateway.paper_api_port == 4002 && c.gateway.paper_socat_port == 4004,
        c.session.action@ == "primary"@ && c.session.accept_incoming@ == "accept"@,
        c.command_server.enabled && c.command_server.port == 7462,
        c.command_server.bind_address@ == "0.0.0.0"@,
        texts(c.command_server.control_from@) == seq!["127.0.0.1"@],
        c.agent.socket_path@ == "/tmp/ibctl.sock"@ && c.logging.level@ == "info"@,
        c.timing.ui_tick_ms == 100 && c.timing.agent_tick_ms == 50,
        c.timing.post_login_delay_ms == 1000 && c.timing.popup_quiet_secs == 5,
        c.timing.popup_max_wait_secs == 30 && c.timing.login_radio_delay_ms == 100,
        c.timing.jvm_shutdown_timeout_secs == 5 && c.timing.login_dialog_timeout_secs == 120,
        c.timing.relogin_max_attempts == 3 && c.timing.restart_delay_secs == 0,
        c.timing.relogin_failure_action == ReloginFailureAction::Restart,
        c.timing.api_port_probe_interval_secs == 5,
        c.timing.api_port_probe_fails_before_revoke == 3,
        c.site.role@ == "primary"@ && c.site.auto_launch,
        !c.ib_status.kick_active_session,
{
}

/// A configuration is valid exactly when it has a user name and a password; the user name is
/// missed first.
pub proof fn credentials_are_required(c: Config, r: Result<(), ConfigError>)
    requires
        call_ensures(Config::validate, (&c,), r),
    ensures
        r is Ok <==> c.auth.username@ != Seq::<char>::empty() && c.auth.password@ != Seq::<
            char,
        >::empty(),
        c.auth.username@.len() == 0 ==> (r matches Err(ConfigError::Missing(w)) && w@
            == "auth.username (or TWS_USERID env var)"@),
        c.auth.username@.len() > 0 && c.auth.password@.len() == 0 ==> (r
            matches Err(ConfigError::Missing(w)) && w@
            == "TWS_PASSWORD or TWS_PASSWORD_FILE env var"@),
{
    assert(c.auth.username@.len() == 0 <==> c.auth.username@ =~= Seq::<char>::empty());
    assert(c.auth.password@.len() == 0 <==> c.auth.password@ =~= Seq::<char>::empty());
}

/// A file decides the value of a variable where it could be read, without the white space round
/// what it holds; else the variable itself does. The directory of the settings is the configured
/// one, and that of TWS where none is. The configuration file is the one asked for, then the one
/// that the variable names, then the usual one.
pub proof fn sources_are_chosen(
    contents: Option<&str>,
    value: Option<String>,
    r: Option<String>,
    c: Config,
    p: &str,
    v: &str,
    path: Option<&str>,
)
    requires
        call_ensures(env_or_file, (contents, value), r),
    ensures
        contents matches Some(t) ==> (r matches Some(x) && x@ == trimmed(t@)),
        contents is None ==> r == value,
        c.gateway.settings_path@.len() > 0 ==> c.settings_directory() == c.gateway.settings_path@,
        c.gateway.settings_path@.len() == 0 ==> c.settings_directory() == c.gateway.tws_path@,
        config_path(Some(p), None) == p@,
        config_path(Some(p), Some(v)) == p@,
        config_path(None, Some(v)) == v@,
        config_path(None, None) == "ibctl.toml"@,
{
}

/// What loading gives for what became of the file: a file that was read is the base, a missing
/// one is an error where it was asked for and the defaults otherwise, and one that cannot be
/// read or understood is an error that says so.
pub proof fn loading_goes_by_the_file(
    path: Option<&str>,
    variable: Option<&str>,
    file: FileLayer,
    env: &Environment,
    r: Result<Config, ConfigError>,
)
    requires
        call_ensures(Config::load, (path, variable, file, env), r),
    ensures
        r is Err <==> file is Unreadable || file is Malformed || (file is Absent && path is Some),
        file matches FileLayer::Read(c) ==> (r matches Ok(x) && x.layered(c, *env)),
        file is Absent && path is None ==> (r matches Ok(x) && exists|d: Config|
            #[trigger] d.is_default() && x.layered(d, *env)),
        file matches FileLayer::Malformed(e) ==> (r matches Err(ConfigError::Parse(m)) && m@ == e@),
        file matches FileLayer::Unreadable(e) ==> (r matches Err(
            ConfigError::ReadFile { path: p, source },
        ) && source@ == e@ && p@ == config_path(path, variable)),
        file is Absent && path is Some ==> (r matches Err(
            ConfigError::ReadFile { path: p, source },
        ) && source@ == "config file not found"@ && p@ == path->0@),
{
}

/// A warning comes exactly for what deserves it.
pub proof fn preflight_warns_of(c: Config, key: bool, url: bool)
    ensures
        ({
            let b = c.twofa.backoff;
            let w = c.issues(key, url);
            let ntfy = b.strategy == Strategy::NtfyCallback || b.strategy == Strategy::Both;
            let fails = c.timing.api_port_probe_fails_before_revoke;
            &&& w.contains(PreflightIssue::CallbackHours) <==> b.callback_valid_hours == 0
                || b.callback_valid_hours > 168
            &&& w.contains(PreflightIssue::ProbeFailures) <==> fails == 0 || fails > 10
            &&& w.contains(PreflightIssue::HitlNeedsStrategy) <==> b.strategy == Strategy::Disabled
                && b.on_timeout == OnTimeout::HitlImmediately
            &&& w.contains(PreflightIssue::HitlDeadEnd) <==> b.strategy == Strategy::Disabled
                && b.on_timeout == OnTimeout::RestartThenHitl
            &&& w.contains(PreflightIssue::SigningKeyMissing) <==> ntfy && !key
            &&& w.contains(PreflightIssue::ExternalUrlMissing) <==> ntfy && !url
        }),
{
    let b = c.twofa.backoff;
    let fails = c.timing.api_port_probe_fails_before_revoke;
    let disabled = b.strategy == Strategy::Disabled;
    let s1 = issue_if(!(1 <= b.callback_valid_hours <= 168), PreflightIssue::CallbackHours);
    let s2 = issue_if(!(1 <= fails <= 10), PreflightIssue::ProbeFailures);
    let s3 = issue_if(
        disabled && b.on_timeout == OnTimeout::HitlImmediately,
        PreflightIssue::HitlNeedsStrategy,
    );
    let s4 = issue_if(
        disabled && b.on_timeout == OnTimeout::RestartThenHitl,
        PreflightIssue::HitlDeadEnd,
    );
    let s5 = issue_if(b.strategy.notifies() && !key, PreflightIssue::SigningKeyMissing);
    let s6 = issue_if(b.strategy.notifies() && !url, PreflightIssue::ExternalUrlMissing);
    let w = c.issues(key, url);
    assert(w == s1 + s2 + s3 + s4 + s5 + s6);
    assert forall|x: PreflightIssue| #[trigger]
        w.contains(x) <==> (s1.contains(x) || s2.contains(x) || s3.contains(x) || s4.contains(x)
            || s5.contains(x) || s6.contains(x)) by {
        issues_in_either(s1, s2, x);
        issues_in_either(s1 + s2, s3, x);
        issues_in_either(s1 + s2 + s3, s4, x);
        issues_in_either(s1 + s2 + s3 + s4, s5, x);
        issues_in_either(s1 + s2 + s3 + s4 + s5, s6, x);
    }
    assert forall|b: bool, x: PreflightIssue, y: PreflightIssue| #[trigger]
        issue_if(b, y).contains(x) <==> b && x == y by {
        if b {
            assert(issue_if(b, y)[0] == y);
        }
    }
}

proof fn issues_in_either(a: Seq<PreflightIssue>, b: Seq<PreflightIssue>, x: PreflightIssue)
    ensures
        (a + b).contains(x) <==> a.contains(x) || b.contains(x),
{
    if a.contains(x) {
        let i = choose|i: int| 0 <= i < a.len() && a[i] == x;
        assert((a + b)[i] == x);
    }
    if b.contains(x) {
        let i = choose|i: int| 0 <= i < b.len() && b[i] == x;
        assert((a + b)[a.len() + i] == x);
    }
}

/// An error on the configuration tells what was done and what came of it.
pub proof fn errors_tell_what_failed(e: ConfigError, r: String)
    requires
        call_ensures(ConfigError::message, (&e,), r),
    ensures
        e matches ConfigError::Parse(x) ==> {
            &&& crate::text::begins(r@, "failed to parse config file: "@)
            &&& crate::text::ends(r@, x@)
            &&& r@.len() == "failed to parse config file: "@.len() + x@.len()
        },
        e matches ConfigError::Missing(x) ==> {
            &&& crate::text::begins(r@, "missing required configuration: "@)
            &&& crate::text::ends(r@, x@)
            &&& r@.len() == "missing required configuration: "@.len() + x@.len()
        },
        e matches ConfigError::ReadFile { path, source } ==> {
            &&& crate::text::begins(r@, "failed to read config file '"@ + path@)
            &&& crate::text::ends(r@, "': "@ + source@)
        },
{
    match e {
        ConfigError::Parse(x) => {
            crate::text::parts_begin_and_end("failed to parse config file: "@, x@);
        },
        ConfigError::Missing(x) => {
            crate::text::parts_begin_and_end("missing required configuration: "@, x@);
        },
        ConfigError::ReadFile { path, source } => {
            crate::text::parts_begin_and_end("failed to read config file '"@ + path@, "': "@ + source@);
            assert("failed to read config file '"@ + path@ + "': "@ + source@
                =~= ("failed to read config file '"@ + path@) + ("': "@ + source@));
        },
    }
}

/// Credentials are shared exactly where both modes are asked for and the paper one has no name of
/// its own.
pub proof fn credentials_are_shared(c: Config, r: bool)
    requires
        call_ensures(Config::shares_credentials, (&c,), r),
    ensures
        c.auth.trading_mode@ != "both"@ ==> !r,
        c.auth.paper.username@.len() > 0 ==> !r,
        c.auth.trading_mode@ == "both"@ && c.auth.paper.username@.len() == 0 ==> r,
{
}

} // verus!
