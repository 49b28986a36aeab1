//! Events pushed by the agent, and the cache of observed windows that they keep up to date.

use crate::text::{lowercase, lower_case};
use crate::types::WindowId;
use crate::windows::{blocking_phase, classify_lowered, is_kind, title_is, WindowKind};
use crate::state_machine::types::{Phase, State};
use vstd::prelude::*;
use vstd::string::*;

verus! {

/// A window as the events report it.
#[derive(Debug)]
pub struct ReportedWindow {
    pub id: WindowId,
    pub title: String,
    pub class: String,
    pub has_login_button: bool,
}

/// An event of the agent's stream.
#[derive(Debug)]
pub enum AgentEvent {
    /// The stream begins.
    Hello { protocol_version: u32 },
    /// The windows that are open.
    Snapshot { seq: u64, windows: Vec<ReportedWindow> },
    WindowOpened { seq: u64, window: ReportedWindow },
    WindowClosed { seq: u64, window_id: WindowId },
    /// Events were lost.
    Overflow,
    Keepalive,
    /// The login form is ready; for the log only.
    LoginFormReady,
    /// A second factor is asked for; for the log only.
    TwofaPrompt,
    /// An error dialog is shown; for the log only.
    ErrorDialog,
}

/// A window in the cache.
#[derive(Debug)]
pub struct ObservedWindow {
    pub id: WindowId,
    /// The title in lower case.
    pub title: String,
    pub class: String,
    pub has_login_button: bool,
}

/// A window in the cache as a mathematical value.
pub struct ObservedModel {
    pub id: WindowId,
    pub title: Seq<char>,
    pub class: Seq<char>,
    pub has_login_button: bool,
}

impl View for ObservedWindow {
    type V = ObservedModel;

    open spec fn view(&self) -> ObservedModel {
        ObservedModel {
            id: self.id,
            title: self.title@,
            class: self.class@,
            has_login_button: self.has_login_button,
        }
    }
}

/// What the cache holds of a reported window.
pub open spec fn observed_of(w: ReportedWindow) -> ObservedModel {
    ObservedModel {
        id: w.id,
        title: lower_case(w.title@),
        class: w.class@,
        has_login_button: w.has_login_button,
    }
}

pub open spec fn reported_models(s: Seq<ReportedWindow>) -> Seq<ObservedModel> {
    s.map_values(|w: ReportedWindow| observed_of(w))
}

impl ObservedWindow {
    /// A reported window, its title taken to lower case.
    pub fn of(w: &ReportedWindow) -> (r: ObservedWindow)
        ensures
            r@ == observed_of(*w),
    {
        ObservedWindow {
            id: w.id,
            title: lowercase(w.title.as_str()),
            class: w.class.clone(),
            has_login_button: w.has_login_button,
        }
    }
}

/// The cache of observed windows.
#[derive(Debug)]
pub struct AgentObservation {
    pub windows: Vec<ObservedWindow>,
    /// Whether the cache mirrors the Gateway: a snapshot came and no event was lost since.
    pub synced: bool,
    pub last_seq: u64,
    /// When the cache last changed, in nanoseconds on the monotonic scale.
    pub last_updated: u128,
}

/// The cache as a mathematical value.
pub struct ObservationModel {
    pub windows: Seq<ObservedModel>,
    pub synced: bool,
    pub last_seq: u64,
    pub last_updated: u128,
}

impl View for AgentObservation {
    type V = ObservationModel;

    open spec fn view(&self) -> ObservationModel {
        ObservationModel {
            windows: self.windows@.map_values(|w: ObservedWindow| w@),
            synced: self.synced,
            last_seq: self.last_seq,
            last_updated: self.last_updated,
        }
    }
}

impl ObservationModel {
    /// A dialog that calls for a phase is open.
    pub open spec fn calls_for(self, p: Phase) -> bool {
        exists|i: int|
            0 <= i < self.windows.len() && blocking_phase((#[trigger] self.windows[i]).title) == Some(
                p,
            )
    }

    pub open spec fn relogin_dialog(self) -> bool {
        self.calls_for(Phase::ReconnectingSession)
    }

    pub open spec fn twofa_dialog(self) -> bool {
        self.calls_for(Phase::WaitingFor2fa)
    }

    pub open spec fn session_conflict(self) -> bool {
        exists|i: int|
            0 <= i < self.windows.len() && is_kind(
                WindowKind::SessionConflict,
                (#[trigger] self.windows[i]).title,
            )
    }

    /// The first main window of the Gateway.
    pub open spec fn main_window(self) -> Option<ObservedModel> {
        first_gateway(self.windows)
    }

    /// The main window shows a login button.
    pub open spec fn login_form(self) -> bool {
        self.main_window() matches Some(w) && w.has_login_button
    }
}

/// The first main window among observed windows.
pub open spec fn first_gateway(s: Seq<ObservedModel>) -> Option<ObservedModel>
    decreases s.len(),
{
    if s.len() == 0 {
        None
    } else if is_kind(WindowKind::Gateway, s[0].title) {
        Some(s[0])
    } else {
        first_gateway(s.drop_first())
    }
}

/// The windows without those that bear an identifier.
pub open spec fn without(s: Seq<ObservedModel>, id: WindowId) -> Seq<ObservedModel>
    decreases s.len(),
{
    if s.len() == 0 {
        Seq::empty()
    } else if s.last().id == id {
        without(s.drop_last(), id)
    } else {
        without(s.drop_last(), id).push(s.last())
    }
}

/// The window without its login button.
pub open spec fn button_cleared(w: ObservedModel) -> ObservedModel {
    ObservedModel { has_login_button: false, ..w }
}

/// What an event makes of the cache.
pub open spec fn after_event(o: ObservationModel, event: AgentEvent, now: u128) -> ObservationModel {
    match event {
        AgentEvent::Snapshot { seq, windows } => ObservationModel {
            windows: reported_models(windows@),
            synced: true,
            last_seq: seq,
            last_updated: now,
        },
        AgentEvent::WindowOpened { seq, window } => ObservationModel {
            windows: without(o.windows, window.id).push(observed_of(window)),
            last_seq: seq,
            last_updated: now,
            ..o
        },
        AgentEvent::WindowClosed { seq, window_id } => ObservationModel {
            windows: without(o.windows, window_id),
            last_seq: seq,
            last_updated: now,
            ..o
        },
        AgentEvent::Overflow => ObservationModel { synced: false, ..o },
        _ => o,
    }
}

impl AgentObservation {
    /// An empty cache, not in step with the Gateway.
    pub fn new(now: u128) -> (r: Self)
        ensures
            r@ == empty_observation(now),
    {
        let r = AgentObservation {
            windows: Vec::new(),
            synced: false,
            last_seq: 0,
            last_updated: now,
        };
        assert(r@.windows =~= Seq::<ObservedModel>::empty());
        r
    }

    /// Takes over a full list of windows.
    pub fn apply_snapshot(&mut self, windows: &Vec<ReportedWindow>, seq: u64, now: u128)
        ensures
            final(self)@ == (ObservationModel {
                windows: reported_models(windows@),
                synced: true,
                last_seq: seq,
                last_updated: now,
            }),
    {
        let mut list: Vec<ObservedWindow> = Vec::new();
        let mut i: usize = 0;
        while i < windows.len()
            invariant
                i <= windows@.len(),
                list@.len() == i,
                forall|j: int| 0 <= j < i ==> (#[trigger] list@[j])@ == observed_of(windows@[j]),
            decreases windows@.len() - i,
        {
            list.push(ObservedWindow::of(&windows[i]));
            i += 1;
        }
        self.windows = list;
        self.synced = true;
        self.last_seq = seq;
        self.last_updated = now;
        assert(self@.windows =~= reported_models(windows@));
    }

    fn drop_window(&mut self, id: WindowId)
        ensures
            final(self)@ == (ObservationModel { windows: without(old(self)@.windows, id), ..old(self)@ }),
    {
        let ghost models = self@.windows;
        let mut kept: Vec<ObservedWindow> = Vec::new();
        let mut i: usize = 0;
        assert(models.subrange(0, 0) =~= Seq::<ObservedModel>::empty());
        assert(kept@.map_values(|w: ObservedWindow| w@) =~= Seq::<ObservedModel>::empty());
        while i < self.windows.len()
            invariant
                *self == *old(self),
                i <= self.windows@.len(),
                models == self@.windows,
                kept@.map_values(|w: ObservedWindow| w@) == without(
                    models.subrange(0, i as int),
                    id,
                ),
            decreases self.windows@.len() - i,
        {
            let w = &self.windows[i];
            proof {
                assert(models.subrange(0, i + 1).drop_last() =~= models.subrange(0, i as int));
                assert(models.subrange(0, i + 1).last() == w@);
            }
            if w.id.0 != id.0 {
                let ghost before = kept@.map_values(|w: ObservedWindow| w@);
                let copy = ObservedWindow {
                    id: w.id,
                    title: w.title.clone(),
                    class: w.class.clone(),
                    has_login_button: w.has_login_button,
                };
                kept.push(copy);
                assert(kept@.map_values(|w: ObservedWindow| w@) =~= before.push(w@));
            }
            i += 1;
        }
        assert(models.subrange(0, i as int) =~= models);
        self.windows = kept;
    }

    /// Adds a window that was opened; a window with the same identifier makes way for it.
    pub fn window_opened(&mut self, window: &ReportedWindow, seq: u64, now: u128)
        ensures
            final(self)@ == (ObservationModel {
                windows: without(old(self)@.windows, window.id).push(observed_of(*window)),
                last_seq: seq,
                last_updated: now,
                ..old(self)@
            }),
    {
        self.drop_window(window.id);
        let ghost before = self@.windows;
        self.windows.push(ObservedWindow::of(window));
        self.last_seq = seq;
        self.last_updated = now;
        assert(self@.windows =~= before.push(observed_of(*window)));
    }

    /// Takes out a window that was closed.
    pub fn window_closed(&mut self, window_id: WindowId, seq: u64, now: u128)
        ensures
            final(self)@ == (ObservationModel {
                windows: without(old(self)@.windows, window_id),
                last_seq: seq,
                last_updated: now,
                ..old(self)@
            }),
    {
        self.drop_window(window_id);
        self.last_seq = seq;
        self.last_updated = now;
    }

    /// Marks the cache as out of step.
    pub fn mark_desync(&mut self)
        ensures
            final(self)@ == (ObservationModel { synced: false, ..old(self)@ }),
    {
        self.synced = false;
    }

    /// Forgets the login buttons: the Gateway turns its login window into the main window
    /// without closing it, so a button that was seen before may be gone.
    pub fn clear_login_buttons(&mut self)
        ensures
            final(self)@ == (ObservationModel {
                windows: old(self)@.windows.map_values(|w: ObservedModel| button_cleared(w)),
                ..old(self)@
            }),
    {
        let mut list: Vec<ObservedWindow> = Vec::new();
        let mut i: usize = 0;
        while i < self.windows.len()
            invariant
                *self == *old(self),
                i <= self.windows@.len(),
                list@.len() == i,
                forall|j: int|
                    0 <= j < i ==> (#[trigger] list@[j])@ == button_cleared(self.windows@[j]@),
            decreases self.windows@.len() - i,
        {
            let w = &self.windows[i];
            let copy = ObservedWindow {
                id: w.id,
                title: w.title.clone(),
                class: w.class.clone(),
                has_login_button: false,
            };
            list.push(copy);
            i += 1;
        }
        self.windows = list;
        assert(self@.windows =~= old(self)@.windows.map_values(
            |w: ObservedModel| button_cleared(w),
        ));
    }

    /// Brings the cache up to date with an event.
    pub fn apply(&mut self, event: &AgentEvent, now: u128)
        ensures
            final(self)@ == after_event(old(self)@, *event, now),
    {
        match event {
            AgentEvent::Snapshot { seq, windows } => self.apply_snapshot(windows, *seq, now),
            AgentEvent::WindowOpened { seq, window } => self.window_opened(window, *seq, now),
            AgentEvent::WindowClosed { seq, window_id } => self.window_closed(*window_id, *seq, now),
            AgentEvent::Overflow => self.mark_desync(),
            _ => {},
        }
    }

    fn has_blocking(&self, relogin: bool) -> (r: bool)
        ensures
            r == self@.calls_for(
                if relogin {
                    Phase::ReconnectingSession
                } else {
                    Phase::WaitingFor2fa
                },
            ),
    {
        let ghost p = if relogin {
            Phase::ReconnectingSession
        } else {
            Phase::WaitingFor2fa
        };
        let mut i: usize = 0;
        while i < self.windows.len()
            invariant
                i <= self.windows@.len(),
                p == if relogin {
                    Phase::ReconnectingSession
                } else {
                    Phase::WaitingFor2fa
                },
                forall|j: int|
                    0 <= j < i ==> blocking_phase((#[trigger] self@.windows[j]).title) != Some(p),
            decreases self.windows@.len() - i,
        {
            assert(self@.windows[i as int] == self.windows@[i as int]@);
            match classify_lowered(self.windows[i].title.as_str()) {
                Some(State::ReconnectingSession) => {
                    if relogin {
                        return true;
                    }
                },
                Some(State::WaitingFor2fa) => {
                    if !relogin {
                        return true;
                    }
                },
                _ => {},
            }
            i += 1;
        }
        false
    }

    /// Whether a re-login dialog is open.
    pub fn has_relogin_dialog(&self) -> (r: bool)
        ensures
            r == self@.relogin_dialog(),
    {
        self.has_blocking(true)
    }

    /// Whether a second factor dialog is open.
    pub fn has_2fa_dialog(&self) -> (r: bool)
        ensures
            r == self@.twofa_dialog(),
    {
        self.has_blocking(false)
    }

    /// Whether a session conflict dialog is open.
    pub fn has_session_conflict(&self) -> (r: bool)
        ensures
            r == self@.session_conflict(),
    {
        let mut i: usize = 0;
        while i < self.windows.len()
            invariant
                i <= self.windows@.len(),
                forall|j: int|
                    0 <= j < i ==> !is_kind(
                        WindowKind::SessionConflict,
                        (#[trigger] self@.windows[j]).title,
                    ),
            decreases self.windows@.len() - i,
        {
            assert(self@.windows[i as int] == self.windows@[i as int]@);
            if title_is(WindowKind::SessionConflict, self.windows[i].title.as_str()) {
                return true;
            }
            i += 1;
        }
        false
    }

    /// The first main window of the Gateway.
    pub fn main_gateway_window(&self) -> (r: Option<&ObservedWindow>)
        ensures
            match r {
                Some(w) => self@.main_window() == Some(w@),
                None => self@.main_window() is None,
            },
    {
        let ghost models = self@.windows;
        let mut i: usize = 0;
        assert(models.subrange(0, models.len() as int) =~= models);
        while i < self.windows.len()
            invariant
                i <= self.windows@.len(),
                models == self@.windows,
                first_gateway(models.subrange(i as int, models.len() as int)) == first_gateway(
                    models,
                ),
            decreases self.windows@.len() - i,
        {
            proof {
                let rest = models.subrange(i as int, models.len() as int);
                assert(rest[0] == self.windows@[i as int]@);
                assert(rest.drop_first() =~= models.subrange(i + 1, models.len() as int));
            }
            if title_is(WindowKind::Gateway, self.windows[i].title.as_str()) {
                return Some(&self.windows[i]);
            }
            i += 1;
        }
        None
    }

    /// Whether the main window shows a login button.
    pub fn has_login_form(&self) -> (r: bool)
        ensures
            r == self@.login_form(),
    {
        match self.main_gateway_window() {
            Some(w) => w.has_login_button,
            None => false,
        }
    }
}

/// The cache before anything was observed.
pub open spec fn empty_observation(now: u128) -> ObservationModel {
    ObservationModel { windows: Seq::empty(), synced: false, last_seq: 0, last_updated: now }
}

/// Once the login buttons are cleared no login form is observed, and nothing else changes in
/// what the dialogs call for.
pub proof fn cleared_buttons_show_no_login(s: Seq<ObservedModel>)
    ensures
        first_gateway(s.map_values(|w: ObservedModel| button_cleared(w))) == match first_gateway(s) {
            Some(w) => Some(button_cleared(w)),
            None => None,
        },
    decreases s.len(),
{
    let t = s.map_values(|w: ObservedModel| button_cleared(w));
    if s.len() > 0 {
        assert(t[0] == button_cleared(s[0]));
        cleared_buttons_show_no_login(s.drop_first());
        assert(t.drop_first() =~= s.drop_first().map_values(|w: ObservedModel| button_cleared(w)));
    }
}

/// After a window was closed the cache holds no window with its identifier.
pub proof fn closed_window_is_gone(s: Seq<ObservedModel>, id: WindowId)
    ensures
        forall|i: int| 0 <= i < without(s, id).len() ==> (#[trigger] without(s, id)[i]).id != id,
    decreases s.len(),
{
    if s.len() > 0 {
        closed_window_is_gone(s.drop_last(), id);
        let t = without(s.drop_last(), id);
        assert forall|i: int| 0 <= i < without(s, id).len() implies (#[trigger] without(
            s,
            id,
        )[i]).id != id by {
            if i < t.len() {
                assert(without(s, id)[i] == t[i]);
            }
        }
    }
}

/// The cache knows a dialog by the texts in the titles of its windows.
pub proof fn cached_dialogs_are_known_by_their_titles(o: ObservationModel, i: int)
    ensures
        ({
            let t = o.windows[i].title;
            let relogin = crate::text::occurs(t, "re-login"@) || crate::text::occurs(t, "relogin"@)
                || crate::text::occurs(t, "login is required"@);
            let second = crate::text::occurs(t, "second factor"@) || crate::text::occurs(
                t,
                "ib key authenticat"@,
            );
            0 <= i < o.windows.len() ==> {
                &&& relogin ==> o.relogin_dialog()
                &&& !relogin && second ==> o.twofa_dialog()
                &&& crate::text::occurs(t, "existing session"@) ==> o.session_conflict()
            }
        }),
        o.windows.len() == 0 ==> !o.relogin_dialog() && !o.twofa_dialog() && !o.session_conflict()
            && o.main_window() is None && !o.login_form(),
        o.relogin_dialog() ==> exists|k: int|
            0 <= k < o.windows.len() && (crate::text::occurs(
                (#[trigger] o.windows[k]).title,
                "re-login"@,
            ) || crate::text::occurs(o.windows[k].title, "relogin"@) || crate::text::occurs(
                o.windows[k].title,
                "login is required"@,
            )),
        o.twofa_dialog() ==> exists|k: int|
            0 <= k < o.windows.len() && (crate::text::occurs(
                (#[trigger] o.windows[k]).title,
                "second factor"@,
            ) || crate::text::occurs(o.windows[k].title, "ib key authenticat"@)),
        o.session_conflict() ==> exists|k: int|
            0 <= k < o.windows.len() && crate::text::occurs(
                (#[trigger] o.windows[k]).title,
                "existing session"@,
            ),
        o.login_form() <==> (o.main_window() matches Some(w) && w.has_login_button),
{
    if 0 <= i < o.windows.len() {
        let w = o.windows[i];
        assert(blocking_phase(w.title) == blocking_phase(o.windows[i].title));
        assert(is_kind(WindowKind::SessionConflict, w.title) == crate::text::occurs(
            w.title,
            "existing session"@,
        ));
    }
}

/// The main window is the first one with the title of the Gateway.
pub proof fn the_main_window_is_the_first(s: Seq<ObservedModel>, i: int)
    ensures
        0 <= i < s.len() && (crate::text::occurs(s[i].title, "ib gateway"@) || crate::text::occurs(
            s[i].title,
            "ibkr gateway"@,
        )) && (forall|j: int|
            0 <= j < i ==> !crate::text::occurs((#[trigger] s[j]).title, "ib gateway"@)
                && !crate::text::occurs(s[j].title, "ibkr gateway"@)) ==> first_gateway(s) == Some(
            s[i],
        ),
        (forall|j: int|
            0 <= j < s.len() ==> !crate::text::occurs((#[trigger] s[j]).title, "ib gateway"@)
                && !crate::text::occurs(s[j].title, "ibkr gateway"@)) ==> first_gateway(s) is None,
    decreases s.len(),
{
    if s.len() > 0 {
        let rest = s.drop_first();
        assert forall|j: int| 0 <= j < rest.len() implies (#[trigger] rest[j]) == s[j + 1] by {}
        the_main_window_is_the_first(rest, i - 1);
        assert(s[0] == s[0]);
        if 0 < i < s.len() {
            assert(rest[i - 1] == s[i]);
        }
    }
}

/// What events do to the cache: a snapshot replaces it and brings it in step; an opened window
/// stands last and replaces the one with its identifier; a closed one is gone; each of these
/// notes the number of the event and the time. An overflow only puts the cache out of step, and
/// the other events leave it alone.
pub proof fn events_keep_the_cache(o: ObservationModel, e: AgentEvent, now: u128, i: int)
    ensures
        ({
            let after = after_event(o, e, now);
            match e {
                AgentEvent::Snapshot { seq, windows } => {
                    &&& after.synced && after.last_seq == seq && after.last_updated == now
                    &&& after.windows.len() == windows@.len()
                    &&& 0 <= i < windows@.len() ==> after.windows[i] == (ObservedModel {
                        id: windows@[i].id,
                        title: lower_case(windows@[i].title@),
                        class: windows@[i].class@,
                        has_login_button: windows@[i].has_login_button,
                    })
                },
                AgentEvent::WindowOpened { seq, window } => {
                    &&& after.synced == o.synced && after.last_seq == seq && after.last_updated
                        == now
                    &&& after.windows.len() > 0 && after.windows.last() == (ObservedModel {
                        id: window.id,
                        title: lower_case(window.title@),
                        class: window.class@,
                        has_login_button: window.has_login_button,
                    })
                    &&& after.windows.drop_last() == without(o.windows, window.id)
                },
                AgentEvent::WindowClosed { seq, window_id } => {
                    &&& after.synced == o.synced && after.last_seq == seq && after.last_updated
                        == now
                    &&& after.windows == without(o.windows, window_id)
                },
                AgentEvent::Overflow => after == (ObservationModel { synced: false, ..o }),
                _ => after == o,
            }
        }),
{
    if let AgentEvent::WindowOpened { seq, window } = e {
        let w = without(o.windows, window.id);
        assert(w.push(observed_of(window)).drop_last() =~= w);
    }
}

/// Taking a window out keeps the others, in their order.
pub proof fn other_windows_stay(s: Seq<ObservedModel>, w: ObservedModel, id: WindowId)
    ensures
        without(Seq::empty(), id) == Seq::<ObservedModel>::empty(),
        w.id != id ==> without(s.push(w), id) == without(s, id).push(w),
        w.id == id ==> without(s.push(w), id) == without(s, id),
{
    assert(s.push(w).drop_last() =~= s);
}

/// A window that is reported is kept as it is, with its title in lower case.
pub proof fn reports_are_kept_in_lower_case(w: ReportedWindow)
    ensures
        observed_of(w).id == w.id,
        observed_of(w).title == lower_case(w.title@),
        observed_of(w).class == w.class@,
        observed_of(w).has_login_button == w.has_login_button,
{
}

} // verus!
