//! The states of the lifecycle, the record of transitions, and what clients are advised.

use crate::agent_client::AgentError;
use crate::handlers::step::HandlerError;
use crate::supervisor::SupervisorError;
use crate::text::{copy_of, same};
use vstd::prelude::*;
use vstd::string::*;

verus! {

/// What ends the machine.
#[derive(Debug)]
pub enum StateMachineError {
    Supervisor(SupervisorError),
    Agent(AgentError),
    Handler(HandlerError),
}

impl From<SupervisorError> for StateMachineError {
    fn from(e: SupervisorError) -> (r: StateMachineError) {
        StateMachineError::Supervisor(e)
    }
}

impl vstd::std_specs::convert::FromSpecImpl<SupervisorError> for StateMachineError {
    open spec fn obeys_from_spec() -> bool {
        true
    }

    open spec fn from_spec(e: SupervisorError) -> StateMachineError {
        StateMachineError::Supervisor(e)
    }
}

impl From<AgentError> for StateMachineError {
    fn from(e: AgentError) -> (r: StateMachineError) {
        StateMachineError::Agent(e)
    }
}

impl vstd::std_specs::convert::FromSpecImpl<AgentError> for StateMachineError {
    open spec fn obeys_from_spec() -> bool {
        true
    }

    open spec fn from_spec(e: AgentError) -> StateMachineError {
        StateMachineError::Agent(e)
    }
}

impl From<HandlerError> for StateMachineError {
    fn from(e: HandlerError) -> (r: StateMachineError) {
        StateMachineError::Handler(e)
    }
}

impl vstd::std_specs::convert::FromSpecImpl<HandlerError> for StateMachineError {
    open spec fn obeys_from_spec() -> bool {
        true
    }

    open spec fn from_spec(e: HandlerError) -> StateMachineError {
        StateMachineError::Handler(e)
    }
}

/// All states of the lifecycle.
#[derive(Debug, PartialEq, Eq)]
pub enum State {
    /// Standby: the process runs, the JVM is not launched; a START command is awaited.
    WaitingForLaunch,
    /// The environment is validated.
    Init,
    /// The JVM is launched with the agent.
    Launching,
    /// The agent's health endpoint is polled until it responds.
    WaitingForAgent,
    /// The login window is awaited.
    WaitingForLogin,
    /// Credentials are filled in and the login is clicked.
    Authenticating,
    /// The 2FA dialog is awaited.
    WaitingFor2fa,
    /// An "existing session detected" dialog is handled.
    HandlingSessionConflict,
    /// Startup popups are dismissed.
    DismissingPopups,
    /// The API server is awaited before it is configured.
    WaitingForApiReady,
    /// The API configuration is applied.
    ConfiguringApi,
    /// Fully connected; new dialogs are watched for.
    ///
    /// Entered by positive confirmation alone: the API configuration succeeded, or a
    /// reconnected session was seen authenticated. The privileged SETSTATE command can force
    /// it for debugging.
    Connected,
    /// Recovering from a connection loss by clicking Re-login; a failure restarts the JVM.
    ReconnectingSession,
    /// The JVM is restarted.
    Restarting,
    /// The IB system is unavailable; its return is awaited.
    WaitingForIB,
    /// Repeated 2FA timeouts exhausted the immediate retries; an operator, the retry timer
    /// or the cold restart ends the wait.
    WaitingForHitl2fa,
    /// Shutting down cleanly.
    Shutdown,
    /// An error; the machine recovers from it by a restart.
    Error(String),
}

/// A state as a mathematical value: as `State`, with the message as a sequence.
pub enum Phase {
    WaitingForLaunch,
    Init,
    Launching,
    WaitingForAgent,
    WaitingForLogin,
    Authenticating,
    WaitingFor2fa,
    HandlingSessionConflict,
    DismissingPopups,
    WaitingForApiReady,
    ConfiguringApi,
    Connected,
    ReconnectingSession,
    Restarting,
    WaitingForIB,
    WaitingForHitl2fa,
    Shutdown,
    Error(Seq<char>),
}

impl View for State {
    type V = Phase;

    open spec fn view(&self) -> Phase {
        match self {
            State::WaitingForLaunch => Phase::WaitingForLaunch,
            State::Init => Phase::Init,
            State::Launching => Phase::Launching,
            State::WaitingForAgent => Phase::WaitingForAgent,
            State::WaitingForLogin => Phase::WaitingForLogin,
            State::Authenticating => Phase::Authenticating,
            State::WaitingFor2fa => Phase::WaitingFor2fa,
            State::HandlingSessionConflict => Phase::HandlingSessionConflict,
            State::DismissingPopups => Phase::DismissingPopups,
            State::WaitingForApiReady => Phase::WaitingForApiReady,
            State::ConfiguringApi => Phase::ConfiguringApi,
            State::Connected => Phase::Connected,
            State::ReconnectingSession => Phase::ReconnectingSession,
            State::Restarting => Phase::Restarting,
            State::WaitingForIB => Phase::WaitingForIB,
            State::WaitingForHitl2fa => Phase::WaitingForHitl2fa,
            State::Shutdown => Phase::Shutdown,
            State::Error(m) => Phase::Error(m@),
        }
    }
}

impl Phase {
    /// The name under which a phase is known.
    pub open spec fn name(self) -> Seq<char> {
        match self {
            Phase::WaitingForLaunch => "WaitingForLaunch"@,
            Phase::Init => "Init"@,
            Phase::Launching => "Launching"@,
            Phase::WaitingForAgent => "WaitingForAgent"@,
            Phase::WaitingForLogin => "WaitingForLogin"@,
            Phase::Authenticating => "Authenticating"@,
            Phase::WaitingFor2fa => "WaitingFor2fa"@,
            Phase::HandlingSessionConflict => "HandlingSessionConflict"@,
            Phase::DismissingPopups => "DismissingPopups"@,
            Phase::WaitingForApiReady => "WaitingForApiReady"@,
            Phase::ConfiguringApi => "ConfiguringApi"@,
            Phase::Connected => "Connected"@,
            Phase::ReconnectingSession => "ReconnectingSession"@,
            Phase::Restarting => "Restarting"@,
            Phase::WaitingForIB => "WaitingForIB"@,
            Phase::WaitingForHitl2fa => "WaitingForHitl2fa"@,
            Phase::Shutdown => "Shutdown"@,
            Phase::Error(m) => "Error("@ + m + ")"@,
        }
    }
}

/// The phase that bears the name `n`; an error has none.
pub open spec fn phase_named(n: Seq<char>) -> Option<Phase> {
    if n == "WaitingForLaunch"@ { Some(Phase::WaitingForLaunch) }
    else if n == "Init"@ { Some(Phase::Init) }
    else if n == "Launching"@ { Some(Phase::Launching) }
    else if n == "WaitingForAgent"@ { Some(Phase::WaitingForAgent) }
    else if n == "WaitingForLogin"@ { Some(Phase::WaitingForLogin) }
    else if n == "Authenticating"@ { Some(Phase::Authenticating) }
    else if n == "WaitingFor2fa"@ { Some(Phase::WaitingFor2fa) }
    else if n == "HandlingSessionConflict"@ { Some(Phase::HandlingSessionConflict) }
    else if n == "DismissingPopups"@ { Some(Phase::DismissingPopups) }
    else if n == "WaitingForApiReady"@ { Some(Phase::WaitingForApiReady) }
    else if n == "ConfiguringApi"@ { Some(Phase::ConfiguringApi) }
    else if n == "Connected"@ { Some(Phase::Connected) }
    else if n == "ReconnectingSession"@ { Some(Phase::ReconnectingSession) }
    else if n == "Restarting"@ { Some(Phase::Restarting) }
    else if n == "WaitingForIB"@ { Some(Phase::WaitingForIB) }
    else if n == "WaitingForHitl2fa"@ { Some(Phase::WaitingForHitl2fa) }
    else if n == "Shutdown"@ { Some(Phase::Shutdown) }
    else { None }
}

impl State {
    /// The state that bears a name, as the SETSTATE command gives it.
    pub fn from_name(name: &str) -> (r: Option<State>)
        ensures
            match r {
                Some(s) => phase_named(name@) == Some(s@),
                None => phase_named(name@) is None,
            },
    {
        if same(name, "WaitingForLaunch") { Some(State::WaitingForLaunch) }
        else if same(name, "Init") { Some(State::Init) }
        else if same(name, "Launching") { Some(State::Launching) }
        else if same(name, "WaitingForAgent") { Some(State::WaitingForAgent) }
        else if same(name, "WaitingForLogin") { Some(State::WaitingForLogin) }
        else if same(name, "Authenticating") { Some(State::Authenticating) }
        else if same(name, "WaitingFor2fa") { Some(State::WaitingFor2fa) }
        else if same(name, "HandlingSessionConflict") { Some(State::HandlingSessionConflict) }
        else if same(name, "DismissingPopups") { Some(State::DismissingPopups) }
        else if same(name, "WaitingForApiReady") { Some(State::WaitingForApiReady) }
        else if same(name, "ConfiguringApi") { Some(State::ConfiguringApi) }
        else if same(name, "Connected") { Some(State::Connected) }
        else if same(name, "ReconnectingSession") { Some(State::ReconnectingSession) }
        else if same(name, "Restarting") { Some(State::Restarting) }
        else if same(name, "WaitingForIB") { Some(State::WaitingForIB) }
        else if same(name, "WaitingForHitl2fa") { Some(State::WaitingForHitl2fa) }
        else if same(name, "Shutdown") { Some(State::Shutdown) }
        else { None }
    }

    /// The name of the state; for an error with its message in brackets.
    pub fn to_string(&self) -> (r: String)
        ensures
            r@ == self@.name(),
    {
        match self {
            State::WaitingForLaunch => copy_of("WaitingForLaunch"),
            State::Init => copy_of("Init"),
            State::Launching => copy_of("Launching"),
            State::WaitingForAgent => copy_of("WaitingForAgent"),
            State::WaitingForLogin => copy_of("WaitingForLogin"),
            State::Authenticating => copy_of("Authenticating"),
            State::WaitingFor2fa => copy_of("WaitingFor2fa"),
            State::HandlingSessionConflict => copy_of("HandlingSessionConflict"),
            State::DismissingPopups => copy_of("DismissingPopups"),
            State::WaitingForApiReady => copy_of("WaitingForApiReady"),
            State::ConfiguringApi => copy_of("ConfiguringApi"),
            State::Connected => copy_of("Connected"),
            State::ReconnectingSession => copy_of("ReconnectingSession"),
            State::Restarting => copy_of("Restarting"),
            State::WaitingForIB => copy_of("WaitingForIB"),
            State::WaitingForHitl2fa => copy_of("WaitingForHitl2fa"),
            State::Shutdown => copy_of("Shutdown"),
            State::Error(m) => {
                let mut s = copy_of("Error(");
                s.append(m.as_str());
                s.append(")");
                s
            },
        }
    }

    /// Whether two states are the same; errors by their messages.
    pub fn same_as(&self, other: &State) -> (r: bool)
        ensures
            r == (self@ == other@),
    {
        match (self, other) {
            (State::WaitingForLaunch, State::WaitingForLaunch) => true,
            (State::Init, State::Init) => true,
            (State::Launching, State::Launching) => true,
            (State::WaitingForAgent, State::WaitingForAgent) => true,
            (State::WaitingForLogin, State::WaitingForLogin) => true,
            (State::Authenticating, State::Authenticating) => true,
            (State::WaitingFor2fa, State::WaitingFor2fa) => true,
            (State::HandlingSessionConflict, State::HandlingSessionConflict) => true,
            (State::DismissingPopups, State::DismissingPopups) => true,
            (State::WaitingForApiReady, State::WaitingForApiReady) => true,
            (State::ConfiguringApi, State::ConfiguringApi) => true,
            (State::Connected, State::Connected) => true,
            (State::ReconnectingSession, State::ReconnectingSession) => true,
            (State::Restarting, State::Restarting) => true,
            (State::WaitingForIB, State::WaitingForIB) => true,
            (State::WaitingForHitl2fa, State::WaitingForHitl2fa) => true,
            (State::Shutdown, State::Shutdown) => true,
            (State::Error(a), State::Error(b)) => same(a.as_str(), b.as_str()),
            _ => false,
        }
    }
}

impl Clone for State {
    fn clone(&self) -> (r: State)
        ensures
            r@ == self@,
    {
        match self {
            State::WaitingForLaunch => State::WaitingForLaunch,
            State::Init => State::Init,
            State::Launching => State::Launching,
            State::WaitingForAgent => State::WaitingForAgent,
            State::WaitingForLogin => State::WaitingForLogin,
            State::Authenticating => State::Authenticating,
            State::WaitingFor2fa => State::WaitingFor2fa,
            State::HandlingSessionConflict => State::HandlingSessionConflict,
            State::DismissingPopups => State::DismissingPopups,
            State::WaitingForApiReady => State::WaitingForApiReady,
            State::ConfiguringApi => State::ConfiguringApi,
            State::Connected => State::Connected,
            State::ReconnectingSession => State::ReconnectingSession,
            State::Restarting => State::Restarting,
            State::WaitingForIB => State::WaitingForIB,
            State::WaitingForHitl2fa => State::WaitingForHitl2fa,
            State::Shutdown => State::Shutdown,
            State::Error(m) => State::Error(m.clone()),
        }
    }
}

/// What clients are advised in a phase.
pub struct Advice {
    pub should_connect: bool,
    pub should_wait: bool,
    pub reason: Option<Seq<char>>,
    pub stale_ids: bool,
}

/// The advice for a phase.
pub open spec fn advice(p: Phase) -> Advice {
    Advice {
        should_connect: p is Connected,
        should_wait: !(p is WaitingForLaunch || p is Connected || p is Shutdown || p is Error),
        reason: match p {
            Phase::WaitingForLaunch => Some("standby"@),
            Phase::Init | Phase::Launching | Phase::WaitingForAgent => Some("launching"@),
            Phase::WaitingForLogin | Phase::Authenticating => Some("logging_in"@),
            Phase::WaitingFor2fa => Some("2fa_pending"@),
            Phase::HandlingSessionConflict => Some("session_conflict"@),
            Phase::DismissingPopups | Phase::WaitingForApiReady | Phase::ConfiguringApi => Some(
                "configuring"@,
            ),
            Phase::ReconnectingSession => Some("reconnecting"@),
            Phase::Restarting => Some("restarting"@),
            Phase::WaitingForIB => Some("ib_maintenance"@),
            Phase::WaitingForHitl2fa => Some("awaiting_operator"@),
            Phase::Connected | Phase::Shutdown | Phase::Error(_) => None,
        },
        stale_ids: p is Restarting,
    }
}

/// What clients are advised in a state: whether to connect, whether to wait, why, and whether
/// their client ids are likely stale.
pub fn client_advisory(state: &State) -> (r: (bool, bool, Option<&'static str>, bool))
    ensures
        r.0 == advice(state@).should_connect,
        r.1 == advice(state@).should_wait,
        match r.2 {
            Some(t) => advice(state@).reason == Some(t@),
            None => advice(state@).reason is None,
        },
        r.3 == advice(state@).stale_ids,
{
    let (should_connect, should_wait, wait_reason): (bool, bool, Option<&'static str>) = match state {
        State::WaitingForLaunch => (false, false, Some("standby")),
        State::Init | State::Launching | State::WaitingForAgent => (false, true, Some("launching")),
        State::WaitingForLogin | State::Authenticating => (false, true, Some("logging_in")),
        State::WaitingFor2fa => (false, true, Some("2fa_pending")),
        State::HandlingSessionConflict => (false, true, Some("session_conflict")),
        State::DismissingPopups | State::WaitingForApiReady | State::ConfiguringApi => (
            false,
            true,
            Some("configuring"),
        ),
        State::Connected => (true, false, None),
        State::ReconnectingSession => (false, true, Some("reconnecting")),
        State::Restarting => (false, true, Some("restarting")),
        State::WaitingForIB => (false, true, Some("ib_maintenance")),
        State::WaitingForHitl2fa => (false, true, Some("awaiting_operator")),
        State::Shutdown => (false, false, None),
        State::Error(_) => (false, false, None),
    };
    let stale: bool = matches!(state, State::Restarting);
    (should_connect, should_wait, wait_reason, stale)
}

/// A recorded state transition.
#[derive(Debug)]
pub struct Transition {
    pub timestamp: String,
    pub from: String,
    pub to: String,
}

/// A recorded transition as a mathematical value.
pub struct Step {
    pub timestamp: Seq<char>,
    pub from: Seq<char>,
    pub to: Seq<char>,
}

impl View for Transition {
    type V = Step;

    open spec fn view(&self) -> Step {
        Step { timestamp: self.timestamp@, from: self.from@, to: self.to@ }
    }
}

impl Clone for Transition {
    fn clone(&self) -> (r: Self)
        ensures
            r@ == self@,
    {
        Transition {
            timestamp: self.timestamp.clone(),
            from: self.from.clone(),
            to: self.to.clone(),
        }
    }
}

/// What the IB system was last reported as.
#[derive(Debug)]
pub struct IbSystemStatus {
    pub available: bool,
    pub status: String,
    pub reason: String,
    /// When the report came, in nanoseconds on the monotonic scale.
    pub last_updated: Option<u128>,
    /// The state to go back to once the system is available again.
    pub return_state: Option<State>,
}

impl IbSystemStatus {
    /// Available, with nothing reported yet.
    pub fn new() -> (r: Self)
        ensures
            r.available,
            r.status@ == "available"@,
            r.reason@ == Seq::<char>::empty(),
            r.last_updated is None,
            r.return_state is None,
    {
        Self {
            available: true,
            status: copy_of("available"),
            reason: String::new(),
            last_updated: None,
            return_state: None,
        }
    }
}

/// Pause and ceiling controls.
#[derive(Debug)]
pub struct PauseControl {
    pub paused: bool,
    /// The state on whose entry the machine pauses itself.
    pub ceiling_state: Option<State>,
}

impl PauseControl {
    /// Neither paused nor with a ceiling.
    pub fn new() -> (r: Self)
        ensures
            !r.paused,
            r.ceiling_state is None,
    {
        Self { paused: false, ceiling_state: None }
    }
}

/// The names of the phases differ pairwise, except that nothing is said of errors.
proof fn names_differ()
    ensures
        forall|p: Phase, q: Phase|
            !(p is Error) && !(q is Error) && p != q ==> #[trigger] p.name() != #[trigger] q.name(),
{
    reveal_strlit("WaitingForLaunch");
    reveal_strlit("Init");
    reveal_strlit("Launching");
    reveal_strlit("WaitingForAgent");
    reveal_strlit("WaitingForLogin");
    reveal_strlit("Authenticating");
    reveal_strlit("WaitingFor2fa");
    reveal_strlit("HandlingSessionConflict");
    reveal_strlit("DismissingPopups");
    reveal_strlit("WaitingForApiReady");
    reveal_strlit("ConfiguringApi");
    reveal_strlit("Connected");
    reveal_strlit("ReconnectingSession");
    reveal_strlit("Restarting");
    reveal_strlit("WaitingForIB");
    reveal_strlit("WaitingForHitl2fa");
    reveal_strlit("Shutdown");
    // Where two names have the same length they differ in the character at this index.
    assert(forall|p: Phase, q: Phase|
        !(p is Error) && !(q is Error) && p != q && (#[trigger] p.name()).len() == (
        #[trigger] q.name()).len() ==> p.name()[3] != q.name()[3] || p.name()[0] != q.name()[0]
            || p.name()[10] != q.name()[10] || p.name()[11] != q.name()[11]);
}

/// Every state but an error is found again by its name: `from_name` undoes `to_string`.
pub proof fn name_round_trip(p: Phase)
    requires
        !(p is Error),
    ensures
        phase_named(p.name()) == Some(p),
{
    names_differ();
    let named = phase_named(p.name());
    assert(named is Some && named->0.name() == p.name());
}

/// A name that is accepted is the name of the state that comes out.
pub proof fn named_phase_bears_name(n: Seq<char>)
    ensures
        phase_named(n) matches Some(p) ==> p.name() == n && !(p is Error),
{
}

/// Clients are told to connect in the connected phase and in no other, never to connect and
/// to wait at once, and whoever is told to wait is told why. Whoever is told neither, without
/// a reason, has to stop trying: the machine has ended or failed.
pub proof fn advice_is_coherent(p: Phase)
    ensures
        advice(p).should_connect <==> p is Connected,
        !(advice(p).should_connect && advice(p).should_wait),
        advice(p).should_wait ==> advice(p).reason is Some,
        advice(p).should_connect ==> advice(p).reason is None,
        !advice(p).should_connect && !advice(p).should_wait && advice(p).reason is None <==> p
            is Shutdown || p is Error,
        advice(p).stale_ids <==> p is Restarting,
{
}

/// Clients are told to wait in every phase but standby, the connected phase, the end and an
/// error, and in none of these four.
pub proof fn waiting_is_told_everywhere_else(p: Phase)
    ensures
        p is WaitingForLaunch || p is Connected || p is Shutdown || p is Error
            ==> !advice(p).should_wait,
        p is Init || p is Launching || p is WaitingForAgent || p is WaitingForLogin || p
            is Authenticating || p is WaitingFor2fa || p is HandlingSessionConflict || p
            is DismissingPopups || p is WaitingForApiReady || p is ConfiguringApi || p
            is ReconnectingSession || p is Restarting || p is WaitingForIB || p
            is WaitingForHitl2fa ==> advice(p).should_wait,
        !(p is Connected) ==> !advice(p).should_connect,
        p is Connected ==> advice(p).should_connect,
        !(p is Restarting) ==> !advice(p).stale_ids,
        p is Restarting ==> advice(p).stale_ids,
{
}

/// The reasons that clients are given tell what is going on: phases with the same reason belong
/// to the same part of the lifecycle.
pub proof fn reasons_tell_the_part_of_the_lifecycle(p: Phase)
    ensures
        p is WaitingForLaunch <==> advice(p).reason == Some("standby"@),
        p is Init || p is Launching || p is WaitingForAgent <==> advice(p).reason == Some(
            "launching"@,
        ),
        p is WaitingForLogin || p is Authenticating <==> advice(p).reason == Some("logging_in"@),
        p is WaitingFor2fa <==> advice(p).reason == Some("2fa_pending"@),
        p is HandlingSessionConflict <==> advice(p).reason == Some("session_conflict"@),
        p is DismissingPopups || p is WaitingForApiReady || p is ConfiguringApi
            <==> advice(p).reason == Some("configuring"@),
        p is ReconnectingSession <==> advice(p).reason == Some("reconnecting"@),
        p is Restarting <==> advice(p).reason == Some("restarting"@),
        p is WaitingForIB <==> advice(p).reason == Some("ib_maintenance"@),
        p is WaitingForHitl2fa <==> advice(p).reason == Some("awaiting_operator"@),
        p is Connected || p is Shutdown || p is Error <==> advice(p).reason is None,
{
    reveal_strlit("standby");
    reveal_strlit("launching");
    reveal_strlit("logging_in");
    reveal_strlit("2fa_pending");
    reveal_strlit("session_conflict");
    reveal_strlit("configuring");
    reveal_strlit("reconnecting");
    reveal_strlit("restarting");
    reveal_strlit("ib_maintenance");
    reveal_strlit("awaiting_operator");
    assert("standby"@.len() == 7 && "launching"@.len() == 9 && "logging_in"@.len() == 10);
    assert("2fa_pending"@.len() == 11 && "session_conflict"@.len() == 16);
    assert("configuring"@.len() == 11 && "reconnecting"@.len() == 12 && "restarting"@.len() == 10);
    assert("ib_maintenance"@.len() == 14 && "awaiting_operator"@.len() == 17);
    assert("logging_in"@[0] == 'l' && "restarting"@[0] == 'r');
    assert("2fa_pending"@[0] == '2' && "configuring"@[0] == 'c');
}

/// Every state is seen as the phase of its own name.
pub proof fn states_are_their_phases(s: State)
    ensures
        s is WaitingForLaunch <==> s@ is WaitingForLaunch,
        s is Init <==> s@ is Init,
        s is Launching <==> s@ is Launching,
        s is WaitingForAgent <==> s@ is WaitingForAgent,
        s is WaitingForLogin <==> s@ is WaitingForLogin,
        s is Authenticating <==> s@ is Authenticating,
        s is HandlingSessionConflict <==> s@ is HandlingSessionConflict,
        s is WaitingFor2fa <==> s@ is WaitingFor2fa,
        s is DismissingPopups <==> s@ is DismissingPopups,
        s is WaitingForApiReady <==> s@ is WaitingForApiReady,
        s is ConfiguringApi <==> s@ is ConfiguringApi,
        s is Connected <==> s@ is Connected,
        s is ReconnectingSession <==> s@ is ReconnectingSession,
        s is Restarting <==> s@ is Restarting,
        s is WaitingForIB <==> s@ is WaitingForIB,
        s is WaitingForHitl2fa <==> s@ is WaitingForHitl2fa,
        s is Shutdown <==> s@ is Shutdown,
        s is Error <==> s@ is Error,
{
}

} // verus!
