//! The proof carried by a verified connection, and the debounced sources that revoke it.
//!
//! Immediate sources (the JVM died, a session conflict, a re-login dialog) fire on the first
//! observation. The others fire only after the contradiction has lasted: the Gateway's
//! windows pass through short phases in which a single observation would mislead.

use crate::clock::{elapsed, is_in_nanos, is_reading, is_time_since, nanos_since, span};
use crate::state_machine::types::{Phase, State};
use crate::text::same;
use vstd::prelude::*;
use vstd::string::*;

verus! {

/// A set of evidence families, one bit each. The signals of one family come from one
/// observation mechanism and count once.
#[derive(Debug, Clone, Copy, PartialEq, Eq, Hash, Structural)]
pub struct EvidenceKinds(pub u8);

/// The evidence families with the texts that stand for them.
pub open spec fn family_tags() -> Seq<(u8, Seq<char>)> {
    seq![
        (1u8, "ui_snapshot"@),
        (2u8, "window_inventory"@),
        (4u8, "event_stream"@),
        (8u8, "tcp_probe"@),
        (16u8, "supervisor_alive"@),
        (128u8, "forced"@),
    ]
}

/// The tags of the families whose bits are set, among the first `n` families.
pub open spec fn tags_of(bits: u8, n: int) -> Seq<Seq<char>>
    decreases n,
{
    if n <= 0 {
        Seq::empty()
    } else {
        let family = family_tags()[n - 1];
        if bits & family.0 == family.0 {
            tags_of(bits, n - 1).push(family.1)
        } else {
            tags_of(bits, n - 1)
        }
    }
}

/// The character sequences that a vector of literals holds.
pub open spec fn str_texts(v: Seq<&'static str>) -> Seq<Seq<char>> {
    v.map_values(|s: &'static str| s@)
}

impl EvidenceKinds {
    /// Labels, text fields and buttons of a component dump.
    pub fn ui_snapshot() -> (r: EvidenceKinds)
        ensures
            r.0 == 0b0000_0001,
    {
        EvidenceKinds(0b0000_0001)
    }

    /// The list of windows.
    pub fn window_inventory() -> (r: EvidenceKinds)
        ensures
            r.0 == 0b0000_0010,
    {
        EvidenceKinds(0b0000_0010)
    }

    /// Events pushed by the agent.
    pub fn event_stream() -> (r: EvidenceKinds)
        ensures
            r.0 == 0b0000_0100,
    {
        EvidenceKinds(0b0000_0100)
    }

    /// A TCP connect check from outside.
    pub fn tcp_probe() -> (r: EvidenceKinds)
        ensures
            r.0 == 0b0000_1000,
    {
        EvidenceKinds(0b0000_1000)
    }

    /// The liveness of the child process.
    pub fn supervisor_alive() -> (r: EvidenceKinds)
        ensures
            r.0 == 0b0001_0000,
    {
        EvidenceKinds(0b0001_0000)
    }

    /// A transition forced by the SETSTATE command: no real proof.
    pub fn forced() -> (r: EvidenceKinds)
        ensures
            r.0 == 0b1000_0000,
    {
        EvidenceKinds(0b1000_0000)
    }

    /// Every family of `other` is in `self`.
    pub open spec fn has_all(self, other: EvidenceKinds) -> bool {
        self.0 & other.0 == other.0
    }

    /// Whether every family of `other` is in `self`.
    pub fn contains(self, other: EvidenceKinds) -> (r: bool)
        ensures
            r == self.has_all(other),
    {
        self.0 & other.0 == other.0
    }

    /// The families of both.
    pub fn union(self, other: EvidenceKinds) -> (r: EvidenceKinds)
        ensures
            r.0 == self.0 | other.0,
    {
        EvidenceKinds(self.0 | other.0)
    }

    /// The bits of the set.
    pub fn bits(self) -> (r: u8)
        ensures
            r == self.0,
    {
        self.0
    }

    /// The tags of the families in the set, in the order of their bits.
    pub fn tags(self) -> (r: Vec<&'static str>)
        ensures
            str_texts(r@) == tags_of(self.0, 6),
    {
        let mut out: Vec<&'static str> = Vec::new();
        proof {
            reveal_with_fuel(tags_of, 7);
        }
        if self.contains(Self::ui_snapshot()) {
            out.push("ui_snapshot");
        }
        assert(str_texts(out@) =~= tags_of(self.0, 1));
        if self.contains(Self::window_inventory()) {
            out.push("window_inventory");
        }
        assert(str_texts(out@) =~= tags_of(self.0, 2));
        if self.contains(Self::event_stream()) {
            out.push("event_stream");
        }
        assert(str_texts(out@) =~= tags_of(self.0, 3));
        if self.contains(Self::tcp_probe()) {
            out.push("tcp_probe");
        }
        assert(str_texts(out@) =~= tags_of(self.0, 4));
        if self.contains(Self::supervisor_alive()) {
            out.push("supervisor_alive");
        }
        assert(str_texts(out@) =~= tags_of(self.0, 5));
        if self.contains(Self::forced()) {
            out.push("forced");
        }
        assert(str_texts(out@) =~= tags_of(self.0, 6));
        out
    }
}

/// The union of two sets holds exactly the families of both.
pub proof fn union_holds_both(a: EvidenceKinds, b: EvidenceKinds, family: EvidenceKinds)
    requires
        family.0 == 1 || family.0 == 2 || family.0 == 4 || family.0 == 8 || family.0 == 16
            || family.0 == 128,
    ensures
        EvidenceKinds(a.0 | b.0).has_all(family) <==> a.has_all(family) || b.has_all(family),
{
    let (x, y, f) = (a.0, b.0, family.0);
    assert((x | y) & f == f <==> (x & f == f) || (y & f == f)) by (bit_vector)
        requires
            f == 1 || f == 2 || f == 4 || f == 8 || f == 16 || f == 128,
    ;
}

/// The rule set under which proofs are issued.
pub const VERIFIER_VERSION: u32 = 1;

/// Proof that the Gateway has reached a verified connected state. `snapshot_version` and
/// `event_seq` are the machine's counters at the time of issue.
#[derive(Debug, PartialEq, Eq)]
pub struct ConnectedProof {
    issued_at: std::time::Instant,
    snapshot_version: u64,
    event_seq: u64,
    evidence: EvidenceKinds,
    verifier_version: u32,
}

/// What a proof records, besides when it was issued.
pub struct Provenance {
    pub snapshot_version: u64,
    pub event_seq: u64,
    pub evidence: EvidenceKinds,
    pub verifier_version: u32,
}

impl View for ConnectedProof {
    type V = Provenance;

    closed spec fn view(&self) -> Provenance {
        Provenance {
            snapshot_version: self.snapshot_version,
            event_seq: self.event_seq,
            evidence: self.evidence,
            verifier_version: self.verifier_version,
        }
    }
}

impl Clone for ConnectedProof {
    fn clone(&self) -> (r: Self)
        ensures
            r@ == self@,
            r.issued() == self.issued(),
    {
        ConnectedProof {
            issued_at: self.issued_at.clone(),
            snapshot_version: self.snapshot_version,
            event_seq: self.event_seq,
            evidence: self.evidence,
            verifier_version: self.verifier_version,
        }
    }
}

impl ConnectedProof {
    /// The reading of the clock at which the proof was issued.
    pub closed spec fn issued(&self) -> std::time::Instant {
        self.issued_at
    }

    /// A proof from verified evidence.
    pub fn mint(snapshot_version: u64, event_seq: u64, evidence: EvidenceKinds) -> (r: Self)
        ensures
            r@ == (Provenance {
                snapshot_version,
                event_seq,
                evidence,
                verifier_version: VERIFIER_VERSION,
            }),
            is_reading(r.issued()),
    {
        Self {
            issued_at: std::time::Instant::now(),
            snapshot_version,
            event_seq,
            evidence,
            verifier_version: VERIFIER_VERSION,
        }
    }

    /// A synthetic proof for the SETSTATE command, marked as forced.
    pub fn forced() -> (r: Self)
        ensures
            r@ == (Provenance {
                snapshot_version: 0,
                event_seq: 0,
                evidence: EvidenceKinds(128),
                verifier_version: VERIFIER_VERSION,
            }),
            is_reading(r.issued()),
    {
        Self {
            issued_at: std::time::Instant::now(),
            snapshot_version: 0,
            event_seq: 0,
            evidence: EvidenceKinds::forced(),
            verifier_version: VERIFIER_VERSION,
        }
    }

    /// The time since the proof was issued. The clock decides how long that is.
    pub fn age(&self) -> (r: std::time::Duration)
        ensures
            is_time_since(self.issued(), r),
    {
        self.issued_at.elapsed()
    }

    pub fn snapshot_version(&self) -> (r: u64)
        ensures
            r == self@.snapshot_version,
    {
        self.snapshot_version
    }

    pub fn event_seq(&self) -> (r: u64)
        ensures
            r == self@.event_seq,
    {
        self.event_seq
    }

    pub fn evidence(&self) -> (r: EvidenceKinds)
        ensures
            r == self@.evidence,
    {
        self.evidence
    }

    pub fn verifier_version(&self) -> (r: u32)
        ensures
            r == self@.verifier_version,
    {
        self.verifier_version
    }

    /// Whether the proof comes from the SETSTATE command and not from the verifier.
    pub fn is_forced(&self) -> (r: bool)
        ensures
            r == self@.evidence.has_all(EvidenceKinds(128)),
    {
        self.evidence.contains(EvidenceKinds::forced())
    }
}

/// A proof counts as forced exactly when its evidence has the forced mark: the synthetic one
/// does, and one minted from other evidence does not.
pub proof fn forced_mark_is_distinct(evidence: EvidenceKinds)
    requires
        evidence.0 <= 0b0001_1111,
    ensures
        EvidenceKinds(128).has_all(EvidenceKinds(128)),
        !evidence.has_all(EvidenceKinds(128)),
{
    let x = evidence.0;
    assert(128u8 & 128u8 == 128u8) by (bit_vector);
    assert(x & 128u8 != 128u8) by (bit_vector)
        requires
            x <= 0b0001_1111,
    ;
}

/// Why the verifier refuses a proof.
#[derive(Debug, Clone, Copy, PartialEq, Eq, Structural)]
pub enum VerificationFailure {
    JvmDead,
    NoPositiveLabel,
    LoginFormVisible,
    DisconnectedLabelPresent,
    SessionConflictVisible,
    ReloginDialogVisible,
    AgentUnreachable,
}

/// A single source of negative evidence that can revoke a proof.
#[derive(Debug, PartialEq, Eq, Hash)]
pub enum RevocationSource {
    /// The JVM exited or crashed.
    JvmDied,
    /// A window with a known disconnect title appeared.
    ErrorDialog(String),
    /// The "Re-login is required" dialog appeared.
    ReloginDialog,
    /// The session conflict dialog appeared.
    SessionConflict,
    /// Login text fields appeared on the main window.
    LoginFormVisible,
    /// The labels say "disconnected".
    DisconnectedLabelStable,
    /// The class of the main window changed.
    WindowClassMorphed { from: String, to: String },
}

/// A source as a mathematical value.
pub enum Contradiction {
    JvmDied,
    ErrorDialog(Seq<char>),
    ReloginDialog,
    SessionConflict,
    LoginFormVisible,
    DisconnectedLabelStable,
    WindowClassMorphed { from: Seq<char>, to: Seq<char> },
}

impl View for RevocationSource {
    type V = Contradiction;

    open spec fn view(&self) -> Contradiction {
        match self {
            RevocationSource::JvmDied => Contradiction::JvmDied,
            RevocationSource::ErrorDialog(t) => Contradiction::ErrorDialog(t@),
            RevocationSource::ReloginDialog => Contradiction::ReloginDialog,
            RevocationSource::SessionConflict => Contradiction::SessionConflict,
            RevocationSource::LoginFormVisible => Contradiction::LoginFormVisible,
            RevocationSource::DisconnectedLabelStable => Contradiction::DisconnectedLabelStable,
            RevocationSource::WindowClassMorphed { from, to } => Contradiction::WindowClassMorphed {
                from: from@,
                to: to@,
            },
        }
    }
}

impl Contradiction {
    /// The milliseconds for which the contradiction must last.
    pub open spec fn debounce(self) -> u64 {
        match self {
            Contradiction::JvmDied => 0,
            Contradiction::ErrorDialog(_) => 500,
            Contradiction::ReloginDialog => 0,
            Contradiction::SessionConflict => 0,
            Contradiction::LoginFormVisible => 1000,
            Contradiction::DisconnectedLabelStable => 2000,
            Contradiction::WindowClassMorphed { .. } => 500,
        }
    }

    /// The same in nanoseconds.
    pub open spec fn debounce_nanos(self) -> int {
        self.debounce() * 1_000_000
    }

    /// The phase that follows when the contradiction revokes the proof.
    pub open spec fn demotes_to(self) -> Phase {
        match self {
            Contradiction::JvmDied => Phase::Restarting,
            Contradiction::ErrorDialog(_) => Phase::Restarting,
            Contradiction::ReloginDialog => Phase::ReconnectingSession,
            Contradiction::SessionConflict => Phase::HandlingSessionConflict,
            Contradiction::LoginFormVisible => Phase::WaitingForLogin,
            Contradiction::DisconnectedLabelStable => Phase::WaitingForLogin,
            Contradiction::WindowClassMorphed { .. } => Phase::WaitingForLogin,
        }
    }

    /// The key under which the contradiction is timed: its kind, without what it carries.
    pub open spec fn tag(self) -> Seq<char> {
        match self {
            Contradiction::JvmDied => "jvm_died"@,
            Contradiction::ErrorDialog(_) => "error_dialog"@,
            Contradiction::ReloginDialog => "relogin_dialog"@,
            Contradiction::SessionConflict => "session_conflict"@,
            Contradiction::LoginFormVisible => "login_form_visible"@,
            Contradiction::DisconnectedLabelStable => "disconnected_label"@,
            Contradiction::WindowClassMorphed { .. } => "window_class_morphed"@,
        }
    }
}

impl RevocationSource {
    /// How many milliseconds the contradiction must last before this source fires.
    pub fn debounce(&self) -> (r: u64)
        ensures
            r == self@.debounce(),
    {
        match self {
            Self::JvmDied => 0,
            Self::ErrorDialog(_) => 500,
            Self::ReloginDialog => 0,
            Self::SessionConflict => 0,
            Self::LoginFormVisible => 1000,
            Self::DisconnectedLabelStable => 2000,
            Self::WindowClassMorphed { .. } => 500,
        }
    }

    /// The state that follows when this source revokes the proof.
    pub fn next_state(&self) -> (r: State)
        ensures
            r@ == self@.demotes_to(),
    {
        match self {
            Self::JvmDied => State::Restarting,
            Self::ErrorDialog(_) => State::Restarting,
            Self::ReloginDialog => State::ReconnectingSession,
            Self::SessionConflict => State::HandlingSessionConflict,
            Self::LoginFormVisible => State::WaitingForLogin,
            Self::DisconnectedLabelStable => State::WaitingForLogin,
            Self::WindowClassMorphed { .. } => State::WaitingForLogin,
        }
    }

    /// The key under which the source is timed, also used in log lines.
    pub fn tag(&self) -> (r: &'static str)
        ensures
            r@ == self@.tag(),
    {
        match self {
            Self::JvmDied => "jvm_died",
            Self::ErrorDialog(_) => "error_dialog",
            Self::ReloginDialog => "relogin_dialog",
            Self::SessionConflict => "session_conflict",
            Self::LoginFormVisible => "login_form_visible",
            Self::DisconnectedLabelStable => "disconnected_label",
            Self::WindowClassMorphed { .. } => "window_class_morphed",
        }
    }
}

impl Clone for RevocationSource {
    fn clone(&self) -> (r: Self)
        ensures
            r@ == self@,
    {
        match self {
            Self::JvmDied => Self::JvmDied,
            Self::ErrorDialog(t) => Self::ErrorDialog(t.clone()),
            Self::ReloginDialog => Self::ReloginDialog,
            Self::SessionConflict => Self::SessionConflict,
            Self::LoginFormVisible => Self::LoginFormVisible,
            Self::DisconnectedLabelStable => Self::DisconnectedLabelStable,
            Self::WindowClassMorphed { from, to } => Self::WindowClassMorphed {
                from: from.clone(),
                to: to.clone(),
            },
        }
    }
}

/// A contradiction revokes towards recovery and never promotes.
pub proof fn revocation_never_promotes(c: Contradiction)
    ensures
        !(c.demotes_to() is Connected),
        c.demotes_to() is Restarting || c.demotes_to() is ReconnectingSession
            || c.demotes_to() is HandlingSessionConflict || c.demotes_to() is WaitingForLogin,
{
}

#[derive(Debug)]
struct Pending {
    first_seen: u128,
    fired: bool,
    source: RevocationSource,
}

/// What is known of a tag that is being timed.
pub struct Timer {
    /// When the contradiction was first observed.
    pub first_seen: u128,
    /// Whether it has fired since.
    pub fired: bool,
    /// The contradiction as last observed.
    pub latest: Contradiction,
}

spec fn timer_of(p: Pending) -> Timer {
    Timer { first_seen: p.first_seen, fired: p.fired, latest: p.source@ }
}

spec fn lookup(s: Seq<Pending>, tag: Seq<char>) -> Option<Timer>
    decreases s.len(),
{
    if s.len() == 0 {
        None
    } else if s.last().source@.tag() == tag {
        Some(timer_of(s.last()))
    } else {
        lookup(s.drop_last(), tag)
    }
}

spec fn distinct(s: Seq<Pending>) -> bool {
    forall|i: int, j: int|
        0 <= i < j < s.len() ==> (#[trigger] s[i]).source@.tag() != (#[trigger] s[j]).source@.tag()
}

proof fn lookup_at(s: Seq<Pending>, i: int)
    requires
        distinct(s),
        0 <= i < s.len(),
    ensures
        lookup(s, s[i].source@.tag()) == Some(timer_of(s[i])),
    decreases s.len(),
{
    if i < s.len() - 1 {
        lookup_at(s.drop_last(), i);
        assert(s.drop_last()[i] == s[i]);
    }
}

proof fn lookup_absent(s: Seq<Pending>, tag: Seq<char>)
    requires
        forall|i: int| 0 <= i < s.len() ==> (#[trigger] s[i]).source@.tag() != tag,
    ensures
        lookup(s, tag) is None,
    decreases s.len(),
{
    if s.len() > 0 {
        lookup_absent(s.drop_last(), tag);
    }
}

proof fn lookup_present(s: Seq<Pending>, tag: Seq<char>)
    requires
        lookup(s, tag) is Some,
    ensures
        exists|i: int| 0 <= i < s.len() && (#[trigger] s[i]).source@.tag() == tag,
    decreases s.len(),
{
    if s.last().source@.tag() != tag {
        lookup_present(s.drop_last(), tag);
        let i = choose|i: int|
            0 <= i < s.drop_last().len() && (#[trigger] s.drop_last()[i]).source@.tag() == tag;
        assert(s[i].source@.tag() == tag);
    } else {
        assert(s[s.len() - 1].source@.tag() == tag);
    }
}

/// Taking one entry out leaves the others as they were.
proof fn lookup_removed(s: Seq<Pending>, k: int)
    requires
        distinct(s),
        0 <= k < s.len(),
    ensures
        distinct(s.remove(k)),
        lookup(s.remove(k), s[k].source@.tag()) is None,
        forall|tag: Seq<char>|
            tag != s[k].source@.tag() ==> #[trigger] lookup(s.remove(k), tag) == lookup(s, tag),
{
    let t = s.remove(k);
    assert forall|i: int, j: int| 0 <= i < j < t.len() implies (#[trigger] t[i]).source@.tag() != (
    #[trigger] t[j]).source@.tag() by {
        let a = if i < k { i } else { i + 1 };
        let b = if j < k { j } else { j + 1 };
        assert(t[i] == s[a] && t[j] == s[b]);
    }
    assert forall|i: int| 0 <= i < t.len() implies (#[trigger] t[i]).source@.tag()
        != s[k].source@.tag() by {
        let a = if i < k { i } else { i + 1 };
        assert(t[i] == s[a]);
        if a < k {
            assert(s[a].source@.tag() != s[k].source@.tag());
        } else {
            assert(s[k].source@.tag() != s[a].source@.tag());
        }
    }
    lookup_absent(t, s[k].source@.tag());
    assert forall|tag: Seq<char>| tag != s[k].source@.tag() implies #[trigger] lookup(t, tag)
        == lookup(s, tag) by {
        if lookup(s, tag) is Some {
            lookup_present(s, tag);
            let i = choose|i: int| 0 <= i < s.len() && (#[trigger] s[i]).source@.tag() == tag;
            let a = if i < k { i } else { i - 1 };
            assert(t[a] == s[i]);
            lookup_at(s, i);
            lookup_at(t, a);
        } else {
            if lookup(t, tag) is Some {
                lookup_present(t, tag);
                let i = choose|i: int| 0 <= i < t.len() && (#[trigger] t[i]).source@.tag() == tag;
                let a = if i < k { i } else { i + 1 };
                assert(t[i] == s[a]);
                lookup_at(s, a);
            }
        }
    }
}

/// Times the contradictions of a connected session, one timer per tag.
///
/// `observe` is called each time a contradiction is detected and answers once the source's
/// debounce has passed; the caller then changes the state. `clear` is called when the
/// contradiction stops, `clear_all` when a new session begins.
#[derive(Debug)]
pub struct RevocationTracker {
    start: std::time::Instant,
    pending: Vec<Pending>,
}

/// What an observation of `c` at `now` makes of the timer of its tag.
pub open spec fn observed(before: Option<Timer>, c: Contradiction, now: u128) -> Timer {
    match before {
        None => Timer { first_seen: now, fired: c.debounce() == 0, latest: c },
        Some(t) => Timer {
            first_seen: t.first_seen,
            fired: t.fired || span(t.first_seen, now) >= c.debounce_nanos(),
            latest: c,
        },
    }
}

/// Whether an observation of `c` at `now` fires: the debounce has passed since the first
/// observation, and the source has not fired since.
pub open spec fn fires(before: Option<Timer>, c: Contradiction, now: u128) -> bool {
    match before {
        None => c.debounce() == 0,
        Some(t) => !t.fired && span(t.first_seen, now) >= c.debounce_nanos(),
    }
}

/// An observation of `c` at `now` takes a tracker from `before` to `after`: the timer of its tag
/// moves on, and nothing else changes.
pub open spec fn observes(
    before: RevocationTracker,
    c: Contradiction,
    now: u128,
    after: RevocationTracker,
) -> bool {
    &&& after.started() == before.started()
    &&& after.timer(c.tag()) == Some(observed(before.timer(c.tag()), c, now))
    &&& forall|tag: Seq<char>|
        tag != c.tag() ==> #[trigger] after.timer(tag) == before.timer(tag)
    &&& after.count() == before.count() + if before.timer(c.tag()) is None {
        1int
    } else {
        0
    }
}

/// Clearing a tag takes a tracker from `before` to `after`: its timer is gone, and nothing else
/// changes.
pub open spec fn clears(before: RevocationTracker, tag: Seq<char>, after: RevocationTracker) -> bool {
    &&& after.started() == before.started()
    &&& after.timer(tag) is None
    &&& forall|other: Seq<char>|
        other != tag ==> #[trigger] after.timer(other) == before.timer(other)
    &&& after.count() == before.count() - if before.timer(tag) is None {
        0int
    } else {
        1
    }
}

/// Clearing everything takes a tracker from `before` to `after`: no timer is left.
pub open spec fn clears_all(before: RevocationTracker, after: RevocationTracker) -> bool {
    &&& after.started() == before.started()
    &&& after.count() == 0
    &&& forall|tag: Seq<char>| (#[trigger] after.timer(tag)) is None
}

impl RevocationTracker {
    /// No tag has two entries.
    pub closed spec fn well_formed(&self) -> bool {
        distinct(self.pending@)
    }

    /// The timer of a tag, where one runs.
    pub closed spec fn timer(&self, tag: Seq<char>) -> Option<Timer> {
        lookup(self.pending@, tag)
    }

    /// How many timers run.
    pub closed spec fn count(&self) -> nat {
        self.pending@.len()
    }

    /// The reading of the clock at which the tracker was made: the zero of its times.
    pub closed spec fn started(&self) -> std::time::Instant {
        self.start
    }

    /// No timer runs, and times are counted from now.
    pub fn new() -> (r: Self)
        ensures
            r.well_formed(),
            is_reading(r.started()),
            r.count() == 0,
            forall|tag: Seq<char>| (#[trigger] r.timer(tag)) is None,
    {
        Self { start: std::time::Instant::now(), pending: Vec::new() }
    }

    fn position(&self, tag: &str) -> (r: Option<usize>)
        ensures
            match r {
                Some(i) => i < self.pending@.len() && self.pending@[i as int].source@.tag() == tag@,
                None => forall|i: int|
                    0 <= i < self.pending@.len() ==> (#[trigger] self.pending@[i]).source@.tag()
                        != tag@,
            },
    {
        let mut i: usize = 0;
        while i < self.pending.len()
            invariant
                i <= self.pending@.len(),
                forall|j: int| 0 <= j < i ==> (#[trigger] self.pending@[j]).source@.tag() != tag@,
            decreases self.pending@.len() - i,
        {
            if same(self.pending[i].source.tag(), tag) {
                return Some(i);
            }
            i += 1;
        }
        None
    }

    /// Records an observation made now, by the clock: the result and the timers are those of
    /// `observe_at` for the nanoseconds that the clock gives since the tracker was made.
    pub fn observe(&mut self, source: RevocationSource) -> (r: Option<RevocationSource>)
        requires
            old(self).well_formed(),
        ensures
            final(self).well_formed(),
            exists|d: std::time::Duration, now: u128|
                {
                    &&& is_time_since(old(self).started(), d)
                    &&& #[trigger] is_in_nanos(d, now)
                    &&& observes(*old(self), source@, now, *final(self))
                    &&& fires(old(self).timer(source@.tag()), source@, now) == (r is Some)
                },
            r matches Some(s) ==> s == source,
            old(self).timer(source@.tag()) is None ==> (r is Some <==> source@.debounce() == 0),
    {
        let now: u128 = nanos_since(&self.start);
        let ghost d = choose|d: std::time::Duration|
            #[trigger] is_time_since(self.start, d) && is_in_nanos(d, now);
        assert(is_time_since(self.started(), d) && is_in_nanos(d, now));
        self.observe_at(source, now)
    }

    /// Records an observation made at `now`, in nanoseconds since the tracker was made.
    ///
    /// Answers with the source on the first observation for which the debounce has passed
    /// since the first one; not before that, and not again until `clear`.
    pub fn observe_at(&mut self, source: RevocationSource, now: u128) -> (r: Option<
        RevocationSource,
    >)
        requires
            old(self).well_formed(),
        ensures
            final(self).well_formed(),
            r == if fires(old(self).timer(source@.tag()), source@, now) {
                Some(source)
            } else {
                None
            },
            observes(*old(self), source@, now, *final(self)),
    {
        let ghost before = self.pending@;
        let debounce: u128 = (source.debounce() as u128) * 1_000_000;
        let ghost tag = source@.tag();
        match self.position(source.tag()) {
            Some(i) => {
                proof {
                    lookup_at(before, i as int);
                }
                let p = self.pending.remove(i);
                let due: bool = elapsed(p.first_seen, now) >= debounce;
                let fire: bool = due && !p.fired;
                let next = Pending {
                    first_seen: p.first_seen,
                    fired: p.fired || due,
                    source: source.clone(),
                };
                proof {
                    lookup_removed(before, i as int);
                    push_pending(self.pending@, next);
                }
                self.pending.push(next);
                if fire {
                    Some(source)
                } else {
                    None
                }
            },
            None => {
                let next = Pending {
                    first_seen: now,
                    fired: debounce == 0,
                    source: source.clone(),
                };
                proof {
                    lookup_absent(before, tag);
                    push_pending(before, next);
                }
                self.pending.push(next);
                if debounce == 0 {
                    Some(source)
                } else {
                    None
                }
            },
        }
    }

    /// Cancels the timer of a tag; nothing happens where none runs.
    pub fn clear(&mut self, tag: &str)
        requires
            old(self).well_formed(),
        ensures
            final(self).well_formed(),
            clears(*old(self), tag@, *final(self)),
    {
        let ghost before = self.pending@;
        match self.position(tag) {
            Some(i) => {
                proof {
                    lookup_at(before, i as int);
                    lookup_removed(before, i as int);
                }
                let _ = self.pending.remove(i);
            },
            None => {
                proof {
                    lookup_absent(before, tag@);
                }
            },
        }
    }

    /// Cancels every timer.
    pub fn clear_all(&mut self)
        ensures
            final(self).well_formed(),
            clears_all(*old(self), *final(self)),
    {
        self.pending = Vec::new();
    }

    /// Whether any timer runs.
    pub fn any_pending(&self) -> (r: bool)
        requires
            self.well_formed(),
        ensures
            r == (self.count() > 0),
            r == exists|tag: Seq<char>| (#[trigger] self.timer(tag)) is Some,
    {
        proof {
            if self.pending@.len() > 0 {
                lookup_at(self.pending@, 0);
                assert(self.timer(self.pending@[0].source@.tag()) is Some);
            }
        }
        self.pending.len() > 0
    }

    /// Whether the timer of a tag runs.
    pub fn is_pending(&self, tag: &str) -> (r: bool)
        requires
            self.well_formed(),
        ensures
            r == (self.timer(tag@) is Some),
    {
        match self.position(tag) {
            Some(i) => {
                proof {
                    lookup_at(self.pending@, i as int);
                }
                true
            },
            None => {
                proof {
                    lookup_absent(self.pending@, tag@);
                }
                false
            },
        }
    }

    /// How many timers run.
    pub fn pending_count(&self) -> (r: usize)
        ensures
            r == self.count(),
    {
        self.pending.len()
    }
}

impl Default for RevocationTracker {
    fn default() -> (r: Self)
        ensures
            r.well_formed(),
            is_reading(r.started()),
            r.count() == 0,
            forall|tag: Seq<char>| (#[trigger] r.timer(tag)) is None,
    {
        RevocationTracker::new()
    }
}

proof fn push_pending(s: Seq<Pending>, p: Pending)
    requires
        distinct(s),
        lookup(s, p.source@.tag()) is None,
    ensures
        distinct(s.push(p)),
        lookup(s.push(p), p.source@.tag()) == Some(timer_of(p)),
        forall|tag: Seq<char>|
            tag != p.source@.tag() ==> #[trigger] lookup(s.push(p), tag) == lookup(s, tag),
{
    let t = s.push(p);
    assert(t.drop_last() =~= s);
    assert forall|i: int, j: int| 0 <= i < j < t.len() implies (#[trigger] t[i]).source@.tag() != (
    #[trigger] t[j]).source@.tag() by {
        if j == s.len() && s[i].source@.tag() == p.source@.tag() {
            lookup_at(s, i);
        }
    }
}

/// A call of a tracker that changes it.
pub enum TrackerCall {
    Observe(Contradiction),
    Clear(Seq<char>),
    ClearAll,
}

/// A call takes a tracker from `before` to `after`.
pub open spec fn leads(before: RevocationTracker, call: TrackerCall, after: RevocationTracker) -> bool {
    match call {
        TrackerCall::Observe(c) => exists|now: u128| #[trigger] observes(before, c, now, after),
        TrackerCall::Clear(tag) => clears(before, tag, after),
        TrackerCall::ClearAll => clears_all(before, after),
    }
}

/// The trackers come out of the first one by the calls, one after the other, and in the first
/// one no timer runs.
pub open spec fn history(trackers: Seq<RevocationTracker>, calls: Seq<TrackerCall>) -> bool {
    &&& trackers.len() == calls.len() + 1
    &&& forall|tag: Seq<char>| (#[trigger] trackers[0].timer(tag)) is None
    &&& forall|i: int|
        0 <= i < calls.len() ==> leads(trackers[i], #[trigger] calls[i], trackers[i + 1])
}

/// The call observes a source with this tag.
pub open spec fn observes_tag(call: TrackerCall, tag: Seq<char>) -> bool {
    call matches TrackerCall::Observe(c) && c.tag() == tag
}

/// The call clears this tag.
pub open spec fn clears_tag(call: TrackerCall, tag: Seq<char>) -> bool {
    match call {
        TrackerCall::Observe(_) => false,
        TrackerCall::Clear(t) => t == tag,
        TrackerCall::ClearAll => true,
    }
}

/// Some call observed a source with this tag, and none after it cleared the tag.
pub open spec fn observed_since_clear(calls: Seq<TrackerCall>, tag: Seq<char>) -> bool {
    exists|i: int|
        0 <= i < calls.len() && observes_tag(#[trigger] calls[i], tag) && forall|j: int|
            i < j < calls.len() ==> !clears_tag(#[trigger] calls[j], tag)
}

proof fn observed_since_clear_step(calls: Seq<TrackerCall>, tag: Seq<char>)
    requires
        calls.len() > 0,
    ensures
        observed_since_clear(calls, tag) <==> observes_tag(calls.last(), tag) || (!clears_tag(
            calls.last(),
            tag,
        ) && observed_since_clear(calls.drop_last(), tag)),
{
    let before = calls.drop_last();
    let n = calls.len() - 1;
    if observes_tag(calls.last(), tag) {
        assert(observes_tag(calls[n], tag));
    } else if observed_since_clear(calls, tag) {
        let i = choose|i: int|
            0 <= i < calls.len() && observes_tag(#[trigger] calls[i], tag) && forall|j: int|
                i < j < calls.len() ==> !clears_tag(#[trigger] calls[j], tag);
        assert(i < n);
        assert(!clears_tag(calls[n], tag));
        assert(observes_tag(before[i], tag));
        assert forall|j: int| i < j < before.len() implies !clears_tag(
            #[trigger] before[j],
            tag,
        ) by {
            assert(before[j] == calls[j]);
        }
    } else if !clears_tag(calls.last(), tag) && observed_since_clear(before, tag) {
        let i = choose|i: int|
            0 <= i < before.len() && observes_tag(#[trigger] before[i], tag) && forall|j: int|
                i < j < before.len() ==> !clears_tag(#[trigger] before[j], tag);
        assert(observes_tag(calls[i], tag));
        assert forall|j: int| i < j < calls.len() implies !clears_tag(#[trigger] calls[j], tag) by {
            if j < n {
                assert(before[j] == calls[j]);
            }
        }
    }
}

/// Whatever calls a tracker has seen since it was made, a tag is pending exactly when a source
/// with that tag was observed after the tag was last cleared. A text that is no source's tag is
/// never pending.
pub proof fn pending_means_observed_since_clear(
    trackers: Seq<RevocationTracker>,
    calls: Seq<TrackerCall>,
    tag: Seq<char>,
)
    requires
        history(trackers, calls),
    ensures
        trackers.last().timer(tag) is Some <==> observed_since_clear(calls, tag),
        (forall|c: Contradiction| #[trigger] c.tag() != tag) ==> trackers.last().timer(tag) is None,
    decreases calls.len(),
{
    if calls.len() > 0 {
        let n = calls.len() - 1;
        let earlier = trackers.drop_last();
        let before = calls.drop_last();
        assert(history(earlier, before)) by {
            assert(earlier[0] == trackers[0]);
            assert forall|i: int| 0 <= i < before.len() implies leads(
                earlier[i],
                #[trigger] before[i],
                earlier[i + 1],
            ) by {
                assert(before[i] == calls[i]);
            }
        }
        pending_means_observed_since_clear(earlier, before, tag);
        observed_since_clear_step(calls, tag);
        assert(leads(trackers[n], calls[n], trackers[n + 1]));
        assert(earlier.last() == trackers[n]);
        assert(trackers.last() == trackers[n + 1]);
    } else {
        assert(trackers.last() == trackers[0]);
    }
}

/// A source fires on its first observation exactly when it has no debounce.
pub proof fn first_observation_fires_when_immediate(c: Contradiction, now: u128)
    ensures
        fires(None, c, now) <==> c.debounce() == 0,
        fires(None, c, now) <==> c is JvmDied || c is ReloginDialog || c is SessionConflict,
{
}

/// A debounced source that is observed first at `first` and again at `now` fires then exactly
/// when its debounce has passed in between.
pub proof fn debounce_must_pass(c: Contradiction, d: Contradiction, first: u128, now: u128)
    requires
        c.tag() == d.tag(),
        c.debounce() > 0,
    ensures
        fires(Some(observed(None, c, first)), d, now) <==> span(first, now) >= d.debounce_nanos(),
{
}

/// Two dialogs with different titles share one timer: the second observation is measured from
/// the first.
pub proof fn payload_does_not_restart(a: Seq<char>, b: Seq<char>, first: u128, now: u128)
    ensures
        Contradiction::ErrorDialog(a).tag() == Contradiction::ErrorDialog(b).tag(),
        observed(Some(observed(None, Contradiction::ErrorDialog(a), first)), Contradiction::ErrorDialog(b), now).first_seen
            == first,
{
}

/// A source that has fired stays silent until it is cleared.
pub proof fn fires_once(before: Option<Timer>, c: Contradiction, d: Contradiction, now: u128, later: u128)
    requires
        c.tag() == d.tag(),
        fires(before, c, now),
    ensures
        !fires(Some(observed(before, c, now)), d, later),
{
}

/// A contradiction that is observed again and again revokes the proof at the first observation
/// that comes half a second, one second or two seconds after the first one: an error dialog and
/// a changed window class after half a second, the login form after one, the labels after two.
/// A dead process, the re-login dialog and a session conflict revoke it at once.
pub proof fn contradictions_must_last(c: Contradiction, first: u128, now: u128)
    requires
        first <= now,
    ensures
        ({
            let again = fires(Some(observed(None, c, first)), c, now);
            let gone = now - first;
            &&& c is ErrorDialog || c is WindowClassMorphed ==> (again <==> gone >= 500_000_000)
            &&& c is LoginFormVisible ==> (again <==> gone >= 1_000_000_000)
            &&& c is DisconnectedLabelStable ==> (again <==> gone >= 2_000_000_000)
            &&& c is JvmDied || c is ReloginDialog || c is SessionConflict ==> fires(None, c, first)
                && !again
            &&& !(c is JvmDied || c is ReloginDialog || c is SessionConflict) ==> !fires(None, c, first)
        }),
{
}

/// Observations that come too early change nothing: the next one is still measured from the
/// first. The last one observed is the one that is remembered.
pub proof fn early_observations_do_not_restart(
    before: Option<Timer>,
    c: Contradiction,
    now: u128,
    later: u128,
)
    requires
        !fires(before, c, now),
        before matches Some(t) ==> !t.fired,
    ensures
        !observed(before, c, now).fired,
        observed(before, c, now).latest == c,
        before is None ==> observed(before, c, now).first_seen == now,
        before is Some ==> fires(Some(observed(before, c, now)), c, later) == fires(
            before,
            c,
            later,
        ),
{
}

/// Where a revoked session goes: to a restart when the process is gone or an error dialog stands,
/// back to the session when a re-login is asked for, to the conflict when there is one, and else
/// to the login.
pub proof fn revocations_lead_on(c: Contradiction)
    ensures
        c.demotes_to() is Restarting <==> c is JvmDied || c is ErrorDialog,
        c.demotes_to() is ReconnectingSession <==> c is ReloginDialog,
        c.demotes_to() is HandlingSessionConflict <==> c is SessionConflict,
        c.demotes_to() is WaitingForLogin <==> c is LoginFormVisible || c is DisconnectedLabelStable
            || c is WindowClassMorphed,
{
}

/// Contradictions of different kinds are timed apart, and those of one kind together: they have
/// the same tag exactly when they are of the same kind.
pub proof fn kinds_are_timed_apart(c: Contradiction, d: Contradiction)
    ensures
        (c.tag() == d.tag()) <==> ((c is JvmDied && d is JvmDied) || (c is ErrorDialog
            && d is ErrorDialog) || (c is ReloginDialog && d is ReloginDialog) || (
        c is SessionConflict && d is SessionConflict) || (c is LoginFormVisible
            && d is LoginFormVisible) || (c is DisconnectedLabelStable
            && d is DisconnectedLabelStable) || (c is WindowClassMorphed && d is WindowClassMorphed)),
        c is JvmDied ==> c.tag() == "jvm_died"@,
        c is ErrorDialog ==> c.tag() == "error_dialog"@,
        c is ReloginDialog ==> c.tag() == "relogin_dialog"@,
        c is SessionConflict ==> c.tag() == "session_conflict"@,
        c is LoginFormVisible ==> c.tag() == "login_form_visible"@,
        c is DisconnectedLabelStable ==> c.tag() == "disconnected_label"@,
        c is WindowClassMorphed ==> c.tag() == "window_class_morphed"@,
{
    reveal_strlit("jvm_died");
    reveal_strlit("error_dialog");
    reveal_strlit("relogin_dialog");
    reveal_strlit("session_conflict");
    reveal_strlit("login_form_visible");
    reveal_strlit("disconnected_label");
    reveal_strlit("window_class_morphed");
    assert("jvm_died"@.len() == 8 && "error_dialog"@.len() == 12 && "relogin_dialog"@.len() == 14);
    assert("session_conflict"@.len() == 16 && "login_form_visible"@.len() == 18);
    assert("disconnected_label"@.len() == 18 && "window_class_morphed"@.len() == 20);
    assert("login_form_visible"@[0] == 'l' && "disconnected_label"@[0] == 'd');
}

/// A tag stands among those of a set exactly when the bit of its family is set, and none stands
/// there twice.
pub proof fn tags_tell_the_families(e: EvidenceKinds, r: Vec<&'static str>)
    requires
        call_ensures(EvidenceKinds::tags, (e,), r),
    ensures
        ({
            let t = str_texts(r@);
            &&& t.contains("ui_snapshot"@) <==> e.0 & 1 == 1
            &&& t.contains("window_inventory"@) <==> e.0 & 2 == 2
            &&& t.contains("event_stream"@) <==> e.0 & 4 == 4
            &&& t.contains("tcp_probe"@) <==> e.0 & 8 == 8
            &&& t.contains("supervisor_alive"@) <==> e.0 & 16 == 16
            &&& t.contains("forced"@) <==> e.0 & 128 == 128
            &&& t.no_duplicates()
        }),
{
    reveal_strlit("ui_snapshot");
    reveal_strlit("window_inventory");
    reveal_strlit("event_stream");
    reveal_strlit("tcp_probe");
    reveal_strlit("supervisor_alive");
    reveal_strlit("forced");
    assert("ui_snapshot"@.len() == 11 && "window_inventory"@.len() == 16);
    assert("event_stream"@.len() == 12 && "tcp_probe"@.len() == 9);
    assert("supervisor_alive"@.len() == 16 && "forced"@.len() == 6);
    assert("window_inventory"@[0] == 'w' && "supervisor_alive"@[0] == 's');
    let b = e.0;
    tags_stand_by_their_bits(b, 6);
    assert(family_tags()[0].1 == "ui_snapshot"@ && family_tags()[1].1 == "window_inventory"@);
    assert(family_tags()[2].1 == "event_stream"@ && family_tags()[3].1 == "tcp_probe"@);
    assert(family_tags()[4].1 == "supervisor_alive"@ && family_tags()[5].1 == "forced"@);
}

/// The tags of the first families stand in their order: each exactly when its bit is set.
proof fn tags_stand_by_their_bits(bits: u8, n: int)
    requires
        0 <= n <= 6,
        forall|i: int, j: int|
            0 <= i < j < 6 ==> (#[trigger] family_tags()[i]).1 != (#[trigger] family_tags()[j]).1,
    ensures
        forall|i: int|
            0 <= i < n ==> (tags_of(bits, n).contains((#[trigger] family_tags()[i]).1) <==> bits
                & family_tags()[i].0 == family_tags()[i].0),
        forall|t: Seq<char>| #[trigger]
            tags_of(bits, n).contains(t) ==> exists|i: int|
                0 <= i < n && (#[trigger] family_tags()[i]).1 == t,
        tags_of(bits, n).no_duplicates(),
    decreases n,
{
    if n > 0 {
        tags_stand_by_their_bits(bits, n - 1);
        let before = tags_of(bits, n - 1);
        let family = family_tags()[n - 1];
        assert(!before.contains(family.1));
        if bits & family.0 == family.0 {
            let after = before.push(family.1);
            assert(tags_of(bits, n) == after);
            assert forall|t: Seq<char>| #[trigger] after.contains(t) implies before.contains(t) || t
                == family.1 by {
                let k = choose|k: int| 0 <= k < after.len() && after[k] == t;
                if k < before.len() {
                    assert(before[k] == t);
                }
            }
            assert forall|t: Seq<char>| before.contains(t) implies #[trigger] after.contains(t) by {
                let k = choose|k: int| 0 <= k < before.len() && before[k] == t;
                assert(after[k] == t);
            }
            assert(after[before.len() as int] == family.1);
            assert(after.no_duplicates()) by {
                assert forall|i: int, j: int|
                    0 <= i < after.len() && 0 <= j < after.len() && i != j implies after[i]
                    != after[j] by {
                    if i == before.len() {
                        assert(before.contains(before[j]));
                    } else if j == before.len() {
                        assert(before.contains(before[i]));
                    }
                }
            }
        }
    }
}

/// Whatever is done to a tracker, its times keep their zero; an observation adds a timer where
/// none ran for its kind, clearing takes the one away that ran, and clearing all takes every one.
pub proof fn trackers_count_their_timers(
    before: RevocationTracker,
    c: Contradiction,
    tag: Seq<char>,
    now: u128,
    after: RevocationTracker,
)
    ensures
        observes(before, c, now, after) || clears(before, tag, after) || clears_all(before, after)
            ==> after.started() == before.started(),
        observes(before, c, now, after) && before.timer(c.tag()) is Some ==> after.count()
            == before.count(),
        observes(before, c, now, after) && before.timer(c.tag()) is None ==> after.count()
            == before.count() + 1,
        observes(before, c, now, after) ==> after.timer(c.tag()) is Some,
        clears(before, tag, after) && before.timer(tag) is Some ==> after.count() == before.count() - 1,
        clears(before, tag, after) && before.timer(tag) is None ==> after.count() == before.count(),
        clears(before, tag, after) ==> after.timer(tag) is None,
        clears_all(before, after) ==> after.count() == 0,
        observes(before, c, now, after) && tag != c.tag() ==> after.timer(tag) == before.timer(tag),
        clears(before, tag, after) && tag != c.tag() ==> after.timer(c.tag()) == before.timer(
            c.tag(),
        ),
{
}

} // verus!
