//! What the controller recognises in the Gateway's windows.
//!
//! Titles and texts are matched in lower case. [`SeenWindow`] and [`SeenComponents`] hold them
//! that way, so that every decision on them is a decision on plain text.

use crate::agent_client::WindowInfo;
use crate::state_machine::types::{Phase, State};
use crate::text::{contains, lowercase, lower_case, occurs, same, texts};
use crate::types::WindowId;
use vstd::prelude::*;
use vstd::string::*;

verus! {

/// The kinds of windows that decisions look for.
#[derive(Debug, Clone, Copy, PartialEq, Eq, Structural)]
pub enum WindowKind {
    /// The main window.
    Gateway,
    /// The "existing session detected" dialog.
    SessionConflict,
    /// The second factor dialog.
    SecondFactor,
    /// The dialog that asks for a new login after a connection loss.
    Relogin,
}

/// A title in lower case belongs to a window of a kind.
pub open spec fn is_kind(kind: WindowKind, title: Seq<char>) -> bool {
    match kind {
        WindowKind::Gateway => occurs(title, "ib gateway"@) || occurs(title, "ibkr gateway"@),
        WindowKind::SessionConflict => occurs(title, "existing session"@),
        WindowKind::SecondFactor => occurs(title, "second factor"@),
        WindowKind::Relogin => occurs(title, "re-login"@) || occurs(title, "login is required"@),
    }
}

/// Whether a title in lower case belongs to a window of a kind.
pub fn title_is(kind: WindowKind, title: &str) -> (r: bool)
    ensures
        r == is_kind(kind, title@),
{
    match kind {
        WindowKind::Gateway => contains(title, "ib gateway") || contains(title, "ibkr gateway"),
        WindowKind::SessionConflict => contains(title, "existing session"),
        WindowKind::SecondFactor => contains(title, "second factor"),
        WindowKind::Relogin => contains(title, "re-login") || contains(title, "login is required"),
    }
}

/// The phase that a dialog with this title, in lower case, calls for.
pub open spec fn blocking_phase(title: Seq<char>) -> Option<Phase> {
    if occurs(title, "re-login"@) || occurs(title, "relogin"@) || occurs(title, "login is required"@) {
        Some(Phase::ReconnectingSession)
    } else if occurs(title, "second factor"@) || occurs(title, "ib key authenticat"@) {
        Some(Phase::WaitingFor2fa)
    } else {
        None
    }
}

/// The state that a dialog with this title, in lower case, calls for.
pub fn classify_lowered(title: &str) -> (r: Option<State>)
    ensures
        match r {
            Some(s) => blocking_phase(title@) == Some(s@),
            None => blocking_phase(title@) is None,
        },
{
    if contains(title, "re-login") || contains(title, "relogin") || contains(
        title,
        "login is required",
    ) {
        Some(State::ReconnectingSession)
    } else if contains(title, "second factor") || contains(title, "ib key authenticat") {
        Some(State::WaitingFor2fa)
    } else {
        None
    }
}

/// A window as decisions see it.
#[derive(Debug)]
pub struct SeenWindow {
    pub id: WindowId,
    /// The title in lower case.
    pub title: String,
    pub class: String,
    pub width: Option<i32>,
}

/// A window as a mathematical value.
pub struct WindowModel {
    pub id: WindowId,
    pub title: Seq<char>,
    pub class: Seq<char>,
    pub width: Option<i32>,
}

impl View for SeenWindow {
    type V = WindowModel;

    open spec fn view(&self) -> WindowModel {
        WindowModel { id: self.id, title: self.title@, class: self.class@, width: self.width }
    }
}

/// Windows as mathematical values.
pub open spec fn window_models(s: Seq<SeenWindow>) -> Seq<WindowModel> {
    s.map_values(|w: SeenWindow| w@)
}

/// Windows that may not have been listed, as mathematical values.
pub open spec fn listed(windows: Option<Vec<SeenWindow>>) -> Option<Seq<WindowModel>> {
    match windows {
        Some(list) => Some(window_models(list@)),
        None => None,
    }
}

impl SeenWindow {
    /// A window of the agent's list, its title taken to lower case.
    pub fn of(w: &WindowInfo) -> (r: SeenWindow)
        ensures
            r@ == (WindowModel {
                id: w.id,
                title: lower_case(w.title@),
                class: w.class@,
                width: match w.bounds {
                    Some(b) => Some(b.width),
                    None => None,
                },
            }),
    {
        SeenWindow {
            id: w.id,
            title: lowercase(w.title.as_str()),
            class: w.class.clone(),
            width: match w.bounds {
                Some(b) => Some(b.width),
                None => None,
            },
        }
    }
}

/// Some window is of a kind.
pub open spec fn any_window(s: Seq<WindowModel>, kind: WindowKind) -> bool {
    exists|i: int| 0 <= i < s.len() && is_kind(kind, (#[trigger] s[i]).title)
}

/// The position of the first window of a kind.
pub open spec fn first_window(s: Seq<WindowModel>, kind: WindowKind) -> Option<int>
    decreases s.len(),
{
    if s.len() == 0 {
        None
    } else {
        match first_window(s.drop_last(), kind) {
            Some(i) => Some(i),
            None => if is_kind(kind, s.last().title) {
                Some(s.len() - 1)
            } else {
                None
            },
        }
    }
}

/// The first window of a kind is of that kind, and none before it is.
pub proof fn first_window_is_first(s: Seq<WindowModel>, kind: WindowKind)
    ensures
        match first_window(s, kind) {
            Some(i) => 0 <= i < s.len() && is_kind(kind, s[i].title) && forall|j: int|
                0 <= j < i ==> !is_kind(kind, (#[trigger] s[j]).title),
            None => forall|j: int| 0 <= j < s.len() ==> !is_kind(kind, (#[trigger] s[j]).title),
        },
        first_window(s, kind) is Some <==> any_window(s, kind),
    decreases s.len(),
{
    if s.len() > 0 {
        let before = s.drop_last();
        first_window_is_first(before, kind);
        match first_window(before, kind) {
            Some(i) => {
                assert(s[i] == before[i]);
                assert forall|j: int| 0 <= j < i implies !is_kind(kind, (#[trigger] s[j]).title) by {
                    assert(s[j] == before[j]);
                }
            },
            None => {
                assert forall|j: int| 0 <= j < s.len() - 1 implies !is_kind(
                    kind,
                    (#[trigger] s[j]).title,
                ) by {
                    assert(s[j] == before[j]);
                }
                if is_kind(kind, s.last().title) {
                    assert(is_kind(kind, s[s.len() - 1].title));
                }
            },
        }
    }
}

/// The position of the first window of a kind.
pub fn find_window(windows: &Vec<SeenWindow>, kind: WindowKind) -> (r: Option<usize>)
    ensures
        match r {
            Some(i) => first_window(window_models(windows@), kind) == Some(i as int) && i
                < windows@.len() && is_kind(kind, windows@[i as int].title@),
            None => first_window(window_models(windows@), kind) is None,
        },
        r is Some <==> any_window(window_models(windows@), kind),
{
    let ghost models = window_models(windows@);
    let mut i: usize = 0;
    assert(models.subrange(0, 0) =~= Seq::<WindowModel>::empty());
    while i < windows.len()
        invariant
            i <= windows@.len(),
            models == window_models(windows@),
            first_window(models.subrange(0, i as int), kind) is None,
        decreases windows@.len() - i,
    {
        proof {
            assert(models.subrange(0, i + 1).drop_last() =~= models.subrange(0, i as int));
            assert(models.subrange(0, i + 1).last() == windows@[i as int]@);
        }
        if title_is(kind, windows[i].title.as_str()) {
            proof {
                first_window_extends(models, i + 1, kind);
                first_window_is_first(models, kind);
            }
            return Some(i);
        }
        i += 1;
    }
    proof {
        assert(models.subrange(0, i as int) =~= models);
        first_window_is_first(models, kind);
    }
    None
}

proof fn first_window_extends(s: Seq<WindowModel>, n: int, kind: WindowKind)
    requires
        0 <= n <= s.len(),
        first_window(s.subrange(0, n), kind) is Some,
    ensures
        first_window(s, kind) == first_window(s.subrange(0, n), kind),
    decreases s.len() - n,
{
    if n < s.len() {
        assert(s.subrange(0, n + 1).drop_last() =~= s.subrange(0, n));
        first_window_extends(s, n + 1, kind);
    } else {
        assert(s.subrange(0, n) =~= s);
    }
}

/// Whether some window is of a kind.
pub fn has_window(windows: &Vec<SeenWindow>, kind: WindowKind) -> (r: bool)
    ensures
        r == any_window(window_models(windows@), kind),
{
    find_window(windows, kind).is_some()
}

/// The identifiers of the windows of a kind, in order.
pub open spec fn ids_of(s: Seq<WindowModel>, kind: WindowKind) -> Seq<WindowId>
    decreases s.len(),
{
    if s.len() == 0 {
        Seq::empty()
    } else if is_kind(kind, s.last().title) {
        ids_of(s.drop_last(), kind).push(s.last().id)
    } else {
        ids_of(s.drop_last(), kind)
    }
}

/// The identifiers of the windows of a kind, in order.
pub fn windows_of(windows: &Vec<SeenWindow>, kind: WindowKind) -> (r: Vec<WindowId>)
    ensures
        r@ == ids_of(window_models(windows@), kind),
{
    let ghost models = window_models(windows@);
    let mut out: Vec<WindowId> = Vec::new();
    let mut i: usize = 0;
    assert(models.subrange(0, 0) =~= Seq::<WindowModel>::empty());
    while i < windows.len()
        invariant
            i <= windows@.len(),
            models == window_models(windows@),
            out@ == ids_of(models.subrange(0, i as int), kind),
        decreases windows@.len() - i,
    {
        proof {
            assert(models.subrange(0, i + 1).drop_last() =~= models.subrange(0, i as int));
            assert(models.subrange(0, i + 1).last() == windows@[i as int]@);
        }
        if title_is(kind, windows[i].title.as_str()) {
            out.push(windows[i].id);
        }
        i += 1;
    }
    assert(models.subrange(0, i as int) =~= models);
    out
}

/// What the first blocking dialog among the windows calls for.
pub open spec fn blocking_of(s: Seq<WindowModel>) -> Option<Phase>
    decreases s.len(),
{
    if s.len() == 0 {
        None
    } else {
        match blocking_phase(s[0].title) {
            Some(p) => Some(p),
            None => blocking_of(s.drop_first()),
        }
    }
}

/// The state that the first blocking dialog among the windows calls for. Where the windows
/// could not be listed, none is seen.
pub fn check_blocking_dialog(windows: &Option<Vec<SeenWindow>>) -> (r: Option<State>)
    ensures
        match r {
            Some(s) => blocking_seen(listed(*windows)) == Some(s@),
            None => blocking_seen(listed(*windows)) is None,
        },
{
    match windows {
        Some(list) => {
            let ghost models = window_models(list@);
            let mut i: usize = 0;
            assert(models.subrange(0, models.len() as int) =~= models);
            while i < list.len()
                invariant
                    i <= list@.len(),
                    models == window_models(list@),
                    blocking_of(models.subrange(i as int, models.len() as int)) == blocking_of(
                        models,
                    ),
                    blocking_seen(listed(*windows)) == blocking_of(models),
                decreases list@.len() - i,
            {
                proof {
                    let rest = models.subrange(i as int, models.len() as int);
                    assert(rest[0] == list@[i as int]@);
                    assert(rest.drop_first() =~= models.subrange(i + 1, models.len() as int));
                }
                match classify_lowered(list[i].title.as_str()) {
                    Some(s) => {
                        return Some(s);
                    },
                    None => {},
                }
                i += 1;
            }
            None
        },
        None => None,
    }
}

/// What the first blocking dialog calls for, among windows that may not have been listed.
pub open spec fn blocking_seen(windows: Option<Seq<WindowModel>>) -> Option<Phase> {
    match windows {
        Some(list) => blocking_of(list),
        None => None,
    }
}

/// A blocking dialog leads to the re-login flow or to the second factor, nowhere else.
pub proof fn blocking_targets(s: Seq<WindowModel>)
    ensures
        blocking_of(s) matches Some(p) ==> p is ReconnectingSession || p is WaitingFor2fa,
    decreases s.len(),
{
    if s.len() > 0 {
        blocking_targets(s.drop_first());
    }
}

/// The components of a window that decisions look at.
#[derive(Debug)]
pub struct SeenComponents {
    /// How many text fields the window has.
    pub textfields: usize,
    /// The labels in lower case.
    pub labels: Vec<String>,
    /// The first two cells of each table row in lower case.
    pub rows: Vec<(String, String)>,
}

/// Components as a mathematical value.
pub struct ComponentsModel {
    pub textfields: nat,
    pub labels: Seq<Seq<char>>,
    pub rows: Seq<(Seq<char>, Seq<char>)>,
}

impl View for SeenComponents {
    type V = ComponentsModel;

    open spec fn view(&self) -> ComponentsModel {
        ComponentsModel {
            textfields: self.textfields as nat,
            labels: texts(self.labels@),
            rows: self.rows@.map_values(|r: (String, String)| (r.0@, r.1@)),
        }
    }
}

impl ComponentsModel {
    /// A window with text fields shows the login form.
    pub open spec fn login_form(self) -> bool {
        self.textfields > 0
    }

    pub open spec fn has_label(self, text: Seq<char>) -> bool {
        exists|i: int| 0 <= i < self.labels.len() && #[trigger] self.labels[i] == text
    }

    pub open spec fn has_label_with(self, text: Seq<char>) -> bool {
        exists|i: int| 0 <= i < self.labels.len() && occurs(#[trigger] self.labels[i], text)
    }

    /// Positive evidence that the API server is connected: a label that says so, or a row of
    /// the status table.
    pub open spec fn connected(self) -> bool {
        self.has_label("connected"@) || exists|i: int|
            0 <= i < self.rows.len() && row_connected(#[trigger] self.rows[i])
    }

    /// Evidence that the API server is disconnected, in the labels or in the status table.
    pub open spec fn disconnected(self) -> bool {
        (self.has_label_with("api server"@) && self.has_label("disconnected"@)) || exists|i: int|
            0 <= i < self.rows.len() && row_disconnected(#[trigger] self.rows[i])
    }
}

/// A row of the status table that says that the API server is connected.
pub open spec fn row_connected(row: (Seq<char>, Seq<char>)) -> bool {
    occurs(row.0, "api server"@) && occurs(row.1, "connected"@) && !occurs(row.1, "disconnected"@)
}

/// A row of the status table that says that the API server is disconnected.
pub open spec fn row_disconnected(row: (Seq<char>, Seq<char>)) -> bool {
    occurs(row.0, "api server"@) && occurs(row.1, "disconnected"@)
}

/// No row of the status table counts both ways.
pub proof fn rows_are_unambiguous(row: (Seq<char>, Seq<char>))
    ensures
        !(row_connected(row) && row_disconnected(row)),
{
}

/// Components as the agent reports them, with what is no text left out and missing cells empty.
#[derive(Debug)]
pub struct Components {
    pub textfields: usize,
    pub labels: Vec<String>,
    pub rows: Vec<(String, String)>,
}

impl SeenComponents {
    /// The components with their texts taken to lower case.
    pub fn of(c: &Components) -> (r: SeenComponents)
        ensures
            r@ == (ComponentsModel {
                textfields: c.textfields as nat,
                labels: texts(c.labels@).map_values(|t: Seq<char>| lower_case(t)),
                rows: c.rows@.map_values(
                    |row: (String, String)| (lower_case(row.0@), lower_case(row.1@)),
                ),
            }),
    {
        let mut labels: Vec<String> = Vec::new();
        let mut i: usize = 0;
        while i < c.labels.len()
            invariant
                i <= c.labels@.len(),
                labels@.len() == i,
                forall|j: int|
                    0 <= j < i ==> (#[trigger] labels@[j])@ == lower_case(c.labels@[j]@),
            decreases c.labels@.len() - i,
        {
            labels.push(lowercase(c.labels[i].as_str()));
            i += 1;
        }
        let mut rows: Vec<(String, String)> = Vec::new();
        let mut k: usize = 0;
        while k < c.rows.len()
            invariant
                k <= c.rows@.len(),
                rows@.len() == k,
                forall|j: int|
                    0 <= j < k ==> (#[trigger] rows@[j]).0@ == lower_case(c.rows@[j].0@) && rows@[j].1@
                        == lower_case(c.rows@[j].1@),
            decreases c.rows@.len() - k,
        {
            rows.push((lowercase(c.rows[k].0.as_str()), lowercase(c.rows[k].1.as_str())));
            k += 1;
        }
        let r = SeenComponents { textfields: c.textfields, labels, rows };
        assert(r@.labels =~= texts(c.labels@).map_values(|t: Seq<char>| lower_case(t)));
        assert(r@.rows =~= c.rows@.map_values(
            |row: (String, String)| (lower_case(row.0@), lower_case(row.1@)),
        ));
        r
    }

    /// Whether the window shows the login form.
    pub fn shows_login_form(&self) -> (r: bool)
        ensures
            r == self@.login_form(),
    {
        self.textfields > 0
    }

    fn labelled(&self, text: &str) -> (r: bool)
        ensures
            r == self@.has_label(text@),
    {
        let mut i: usize = 0;
        while i < self.labels.len()
            invariant
                i <= self.labels@.len(),
                forall|j: int| 0 <= j < i ==> (#[trigger] self@.labels[j]) != text@,
            decreases self.labels@.len() - i,
        {
            assert(self@.labels[i as int] == self.labels@[i as int]@);
            if same(self.labels[i].as_str(), text) {
                return true;
            }
            i += 1;
        }
        false
    }

    fn labelled_with(&self, text: &str) -> (r: bool)
        ensures
            r == self@.has_label_with(text@),
    {
        let mut i: usize = 0;
        while i < self.labels.len()
            invariant
                i <= self.labels@.len(),
                forall|j: int| 0 <= j < i ==> !occurs(#[trigger] self@.labels[j], text@),
            decreases self.labels@.len() - i,
        {
            assert(self@.labels[i as int] == self.labels@[i as int]@);
            if contains(self.labels[i].as_str(), text) {
                return true;
            }
            i += 1;
        }
        false
    }

    /// Whether the components give positive evidence that the API server is connected.
    pub fn indicate_connected(&self) -> (r: bool)
        ensures
            r == self@.connected(),
    {
        if self.labelled("connected") {
            return true;
        }
        let mut i: usize = 0;
        while i < self.rows.len()
            invariant
                i <= self.rows@.len(),
                !self@.has_label("connected"@),
                forall|j: int| 0 <= j < i ==> !row_connected(#[trigger] self@.rows[j]),
            decreases self.rows@.len() - i,
        {
            assert(self@.rows[i as int] == (self.rows@[i as int].0@, self.rows@[i as int].1@));
            if contains(self.rows[i].0.as_str(), "api server") && contains(
                self.rows[i].1.as_str(),
                "connected",
            ) && !contains(self.rows[i].1.as_str(), "disconnected") {
                return true;
            }
            i += 1;
        }
        false
    }

    /// Whether the components say that the API server is disconnected.
    pub fn indicate_disconnected(&self) -> (r: bool)
        ensures
            r == self@.disconnected(),
    {
        if self.labelled_with("api server") && self.labelled("disconnected") {
            return true;
        }
        let mut i: usize = 0;
        while i < self.rows.len()
            invariant
                i <= self.rows@.len(),
                !(self@.has_label_with("api server"@) && self@.has_label("disconnected"@)),
                forall|j: int| 0 <= j < i ==> !row_disconnected(#[trigger] self@.rows[j]),
            decreases self.rows@.len() - i,
        {
            assert(self@.rows[i as int] == (self.rows@[i as int].0@, self.rows@[i as int].1@));
            if contains(self.rows[i].0.as_str(), "api server") && contains(
                self.rows[i].1.as_str(),
                "disconnected",
            ) {
                return true;
            }
            i += 1;
        }
        false
    }
}

/// The inspections of several windows, as mathematical values; nothing where one failed.
pub open spec fn dump_models(dumps: Seq<Option<SeenComponents>>) -> Seq<Option<ComponentsModel>> {
    dumps.map_values(
        |d: Option<SeenComponents>|
            match d {
                Some(c) => Some(c@),
                None => None,
            },
    )
}

/// Some inspected window shows the login form.
pub open spec fn login_form_seen(dumps: Seq<Option<ComponentsModel>>) -> bool {
    exists|i: int| 0 <= i < dumps.len() && (#[trigger] dumps[i] matches Some(c) && c.login_form())
}

/// Some inspected window shows no login form: positive confirmation of authentication.
pub open spec fn authenticated_seen(dumps: Seq<Option<ComponentsModel>>) -> bool {
    exists|i: int| 0 <= i < dumps.len() && (#[trigger] dumps[i] matches Some(c) && !c.login_form())
}

/// Some inspected window says that the API server is connected, and neither it nor one before
/// it shows the login form.
pub open spec fn api_confirmed(dumps: Seq<Option<ComponentsModel>>) -> bool {
    exists|i: int|
        0 <= i < dumps.len() && (#[trigger] dumps[i] matches Some(c) && c.connected())
            && !login_form_seen(dumps.subrange(0, i + 1))
}

/// Some inspected window shows the login form or says that the API server is disconnected.
pub open spec fn session_loss_seen(dumps: Seq<Option<ComponentsModel>>) -> bool {
    exists|i: int|
        0 <= i < dumps.len() && (#[trigger] dumps[i] matches Some(c) && (c.login_form()
            || c.disconnected()))
}

/// Whether some inspected window shows the login form.
pub fn any_login_form(dumps: &Vec<Option<SeenComponents>>) -> (r: bool)
    ensures
        r == login_form_seen(dump_models(dumps@)),
{
    let mut i: usize = 0;
    let ghost m = dump_models(dumps@);
    while i < dumps.len()
        invariant
            i <= dumps@.len(),
            m == dump_models(dumps@),
            forall|j: int| 0 <= j < i ==> !(#[trigger] m[j] matches Some(c) && c.login_form()),
        decreases dumps@.len() - i,
    {
        if let Some(c) = &dumps[i] {
            assert(m[i as int] == Some(c@));
            if c.shows_login_form() {
                return true;
            }
        }
        i += 1;
    }
    false
}

/// Whether some inspected window shows no login form.
pub fn any_authenticated(dumps: &Vec<Option<SeenComponents>>) -> (r: bool)
    ensures
        r == authenticated_seen(dump_models(dumps@)),
{
    let mut i: usize = 0;
    let ghost m = dump_models(dumps@);
    while i < dumps.len()
        invariant
            i <= dumps@.len(),
            m == dump_models(dumps@),
            forall|j: int| 0 <= j < i ==> !(#[trigger] m[j] matches Some(c) && !c.login_form()),
        decreases dumps@.len() - i,
    {
        if let Some(c) = &dumps[i] {
            assert(m[i as int] == Some(c@));
            if !c.shows_login_form() {
                return true;
            }
        }
        i += 1;
    }
    false
}

/// Whether the inspected windows confirm that the API server is connected.
pub fn confirms_api(dumps: &Vec<Option<SeenComponents>>) -> (r: bool)
    ensures
        r == api_confirmed(dump_models(dumps@)),
{
    let mut i: usize = 0;
    let ghost m = dump_models(dumps@);
    while i < dumps.len()
        invariant
            i <= dumps@.len(),
            m == dump_models(dumps@),
            forall|j: int|
                0 <= j < i ==> !(#[trigger] m[j] matches Some(c) && (c.login_form() || c.connected())),
        decreases dumps@.len() - i,
    {
        if let Some(c) = &dumps[i] {
            assert(m[i as int] == Some(c@));
            if c.shows_login_form() {
                proof {
                    assert forall|k: int|
                        0 <= k < m.len() && (#[trigger] m[k] matches Some(d)
                            && d.connected()) implies login_form_seen(m.subrange(0, k + 1)) by {
                        assert(k >= i);
                        assert(m.subrange(0, k + 1)[i as int] == m[i as int]);
                    }
                }
                return false;
            }
            if c.indicate_connected() {
                proof {
                    assert forall|k: int| 0 <= k < i + 1 implies !(#[trigger] m.subrange(0, i + 1)[k]
                        matches Some(d) && d.login_form()) by {
                        assert(m.subrange(0, i + 1)[k] == m[k]);
                    }
                    assert(m[i as int] matches Some(d) && d.connected());
                }
                return true;
            }
        }
        i += 1;
    }
    false
}

/// Whether some inspected window shows that the session is lost.
pub fn any_session_loss(dumps: &Vec<Option<SeenComponents>>) -> (r: bool)
    ensures
        r == session_loss_seen(dump_models(dumps@)),
{
    let mut i: usize = 0;
    let ghost m = dump_models(dumps@);
    while i < dumps.len()
        invariant
            i <= dumps@.len(),
            m == dump_models(dumps@),
            forall|j: int|
                0 <= j < i ==> !(#[trigger] m[j] matches Some(c) && (c.login_form()
                    || c.disconnected())),
        decreases dumps@.len() - i,
    {
        if let Some(c) = &dumps[i] {
            assert(m[i as int] == Some(c@));
            if c.shows_login_form() || c.indicate_disconnected() {
                return true;
            }
        }
        i += 1;
    }
    false
}

/// Dialogs are known by texts in their titles: a re-login by any of three, which outweigh, and
/// else a second factor by any of two; every other title blocks nothing.
pub proof fn dialogs_are_known_by_their_titles(title: Seq<char>)
    ensures
        ({
            let relogin = occurs(title, "re-login"@) || occurs(title, "relogin"@) || occurs(
                title,
                "login is required"@,
            );
            let second = occurs(title, "second factor"@) || occurs(title, "ib key authenticat"@);
            &&& relogin ==> blocking_phase(title) == Some(Phase::ReconnectingSession)
            &&& !relogin && second ==> blocking_phase(title) == Some(Phase::WaitingFor2fa)
            &&& !relogin && !second ==> blocking_phase(title) is None
        }),
        is_kind(WindowKind::Gateway, title) <==> occurs(title, "ib gateway"@) || occurs(
            title,
            "ibkr gateway"@,
        ),
        is_kind(WindowKind::SessionConflict, title) <==> occurs(title, "existing session"@),
        is_kind(WindowKind::SecondFactor, title) <==> occurs(title, "second factor"@),
        is_kind(WindowKind::Relogin, title) <==> occurs(title, "re-login"@) || occurs(
            title,
            "login is required"@,
        ),
{
}

/// The first blocking dialog among the windows decides, and without one nothing blocks; windows
/// that could not be listed block nothing.
pub proof fn the_first_dialog_decides(s: Seq<WindowModel>, i: int)
    ensures
        0 <= i < s.len() && blocking_phase(s[i].title) is Some && (forall|j: int|
            0 <= j < i ==> blocking_phase((#[trigger] s[j]).title) is None) ==> blocking_of(s)
            == blocking_phase(s[i].title),
        (forall|j: int| 0 <= j < s.len() ==> blocking_phase((#[trigger] s[j]).title) is None)
            ==> blocking_of(s) is None,
        blocking_seen(Some(s)) == blocking_of(s),
        blocking_seen(None) is None,
    decreases s.len(),
{
    if s.len() > 0 {
        let rest = s.drop_first();
        assert forall|j: int| 0 <= j < rest.len() implies (#[trigger] rest[j]) == s[j + 1] by {}
        the_first_dialog_decides(rest, i - 1);
        if blocking_phase(s[0].title) is None && 0 < i < s.len() {
            assert(rest[i - 1] == s[i]);
        }
        if 0 <= i < s.len() && blocking_phase(s[i].title) is Some && (forall|j: int|
            0 <= j < i ==> blocking_phase((#[trigger] s[j]).title) is None) {
            if i > 0 {
                assert(blocking_phase(s[0].title) is None);
            }
        }
        if forall|j: int| 0 <= j < s.len() ==> blocking_phase((#[trigger] s[j]).title) is None {
            assert(blocking_phase(s[0].title) is None);
        }
    }
}

/// A window is seen as it is, with its title in lower case; a component dump, with its labels and
/// rows in lower case and in their order.
pub proof fn windows_are_seen_in_lower_case(w: WindowInfo, s: SeenWindow, c: Components, d: SeenComponents)
    requires
        call_ensures(SeenWindow::of, (&w,), s),
        call_ensures(SeenComponents::of, (&c,), d),
    ensures
        s@.id == w.id && s@.title == lower_case(w.title@) && s@.class == w.class@,
        w.bounds is None <==> s@.width is None,
        w.bounds matches Some(b) ==> s@.width == Some(b.width),
        d@.textfields == c.textfields,
        d@.labels.len() == c.labels@.len() && d@.rows.len() == c.rows@.len(),
        forall|i: int|
            0 <= i < c.labels@.len() ==> #[trigger] d@.labels[i] == lower_case(c.labels@[i]@),
        forall|i: int|
            0 <= i < c.rows@.len() ==> (#[trigger] d@.rows[i]).0 == lower_case(c.rows@[i].0@)
                && d@.rows[i].1 == lower_case(c.rows@[i].1@),
{
    assert forall|i: int| 0 <= i < c.labels@.len() implies #[trigger] d@.labels[i] == lower_case(
        c.labels@[i]@,
    ) by {
        assert(texts(c.labels@)[i] == c.labels@[i]@);
    }
}

} // verus!
