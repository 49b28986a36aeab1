//! How the Gateway's JVM is launched: where its files are, its class path, its options and
//! its command line.
//!
//! Looking at the file system and running the process are left to the caller.

use crate::config::GatewayConfig;
use crate::text::{
    begins, chars_of, copy_of, decimal, ends, ends_with, join, joined, pieces, push_decimal, same, split, starts_with,
    texts, trim, trimmed,
};
use vstd::prelude::*;
use vstd::string::*;

verus! {

/// What can go wrong with the JVM.
#[derive(Debug)]
pub enum SupervisorError {
    SpawnFailed(String),
    NotRunning,
    /// No jars were found: where they were looked for.
    NoJars(String),
    VmOptionsFailed { path: String, source: String },
    JavaNotFound(String),
    VersionDetectionFailed(String),
}

impl SupervisorError {
    /// The error in words.
    pub open spec fn words(&self) -> Seq<char> {
        match self {
            SupervisorError::SpawnFailed(e) => "failed to spawn JVM process: "@ + e@,
            SupervisorError::NotRunning => "JVM process not running"@,
            SupervisorError::NoJars(d) => "no jars found in "@ + d@,
            SupervisorError::VmOptionsFailed { path, source } => "failed to read vmoptions file '"@
                + path@ + "': "@ + source@,
            SupervisorError::JavaNotFound(d) => "Java not found at "@ + d@,
            SupervisorError::VersionDetectionFailed(d) => "failed to detect gateway version from "@
                + d@,
        }
    }

    /// The error in words.
    pub fn message(&self) -> (r: String)
        ensures
            r@ == self.words(),
    {
        match self {
            SupervisorError::SpawnFailed(e) => two_texts("failed to spawn JVM process: ", e.as_str()),
            SupervisorError::NotRunning => copy_of("JVM process not running"),
            SupervisorError::NoJars(d) => two_texts("no jars found in ", d.as_str()),
            SupervisorError::VmOptionsFailed { path, source } => {
                let mut s = copy_of("failed to read vmoptions file '");
                s.append(path.as_str());
                s.append("': ");
                s.append(source.as_str());
                s
            },
            SupervisorError::JavaNotFound(d) => two_texts("Java not found at ", d.as_str()),
            SupervisorError::VersionDetectionFailed(d) => two_texts(
                "failed to detect gateway version from ",
                d.as_str(),
            ),
        }
    }
}

fn two_texts(a: &str, b: &str) -> (r: String)
    ensures
        r@ == a@ + b@,
{
    let mut s = copy_of(a);
    s.append(b);
    s
}

/// The flags that let the agent reach into Swing on a current JVM.
pub open spec fn module_access() -> Seq<Seq<char>> {
    seq![
        "--add-opens=java.base/java.util=ALL-UNNAMED"@,
        "--add-opens=java.base/java.util.concurrent=ALL-UNNAMED"@,
        "--add-exports=java.base/sun.util=ALL-UNNAMED"@,
        "--add-exports=java.desktop/com.sun.java.swing.plaf.motif=ALL-UNNAMED"@,
        "--add-opens=java.desktop/java.awt=ALL-UNNAMED"@,
        "--add-opens=java.desktop/java.awt.dnd=ALL-UNNAMED"@,
        "--add-opens=java.desktop/javax.swing=ALL-UNNAMED"@,
        "--add-opens=java.desktop/javax.swing.event=ALL-UNNAMED"@,
        "--add-opens=java.desktop/javax.swing.plaf.basic=ALL-UNNAMED"@,
        "--add-opens=java.desktop/javax.swing.table=ALL-UNNAMED"@,
        "--add-opens=java.desktop/sun.awt=ALL-UNNAMED"@,
        "--add-exports=java.desktop/sun.awt.X11=ALL-UNNAMED"@,
        "--add-exports=java.desktop/sun.swing=ALL-UNNAMED"@,
        "--add-opens=jdk.management/com.sun.management.internal=ALL-UNNAMED"@,
    ]
}

/// The flags that let the agent reach into Swing on a current JVM.
pub fn module_access_flags() -> (r: Vec<String>)
    ensures
        texts(r@) == module_access(),
{
    let mut v: Vec<String> = Vec::new();
    v.push(copy_of("--add-opens=java.base/java.util=ALL-UNNAMED"));
    v.push(copy_of("--add-opens=java.base/java.util.concurrent=ALL-UNNAMED"));
    v.push(copy_of("--add-exports=java.base/sun.util=ALL-UNNAMED"));
    v.push(copy_of("--add-exports=java.desktop/com.sun.java.swing.plaf.motif=ALL-UNNAMED"));
    v.push(copy_of("--add-opens=java.desktop/java.awt=ALL-UNNAMED"));
    v.push(copy_of("--add-opens=java.desktop/java.awt.dnd=ALL-UNNAMED"));
    v.push(copy_of("--add-opens=java.desktop/javax.swing=ALL-UNNAMED"));
    v.push(copy_of("--add-opens=java.desktop/javax.swing.event=ALL-UNNAMED"));
    v.push(copy_of("--add-opens=java.desktop/javax.swing.plaf.basic=ALL-UNNAMED"));
    v.push(copy_of("--add-opens=java.desktop/javax.swing.table=ALL-UNNAMED"));
    v.push(copy_of("--add-opens=java.desktop/sun.awt=ALL-UNNAMED"));
    v.push(copy_of("--add-exports=java.desktop/sun.awt.X11=ALL-UNNAMED"));
    v.push(copy_of("--add-exports=java.desktop/sun.swing=ALL-UNNAMED"));
    v.push(copy_of("--add-opens=jdk.management/com.sun.management.internal=ALL-UNNAMED"));
    assert(texts(v@) =~= module_access());
    v
}

/// The main class of the program that is launched.
pub open spec fn main_class_of(program: Seq<char>) -> Seq<char> {
    if program == "tws"@ {
        "jclient.LoginFrame"@
    } else {
        "ibgateway.GWClient"@
    }
}

/// The main class of the program that is launched.
pub fn main_class(program: &str) -> (r: String)
    ensures
        r@ == main_class_of(program@),
{
    if same(program, "tws") {
        copy_of("jclient.LoginFrame")
    } else {
        copy_of("ibgateway.GWClient")
    }
}

/// A path below another: an absolute one stands for itself.
pub open spec fn below(base: Seq<char>, path: Seq<char>) -> Seq<char> {
    if begins(path, "/"@) {
        path
    } else if base.len() == 0 || ends(base, "/"@) {
        base + path
    } else {
        base + "/"@ + path
    }
}

/// A path below another: an absolute one stands for itself.
pub fn join_path(base: &str, path: &str) -> (r: String)
    ensures
        r@ == below(base@, path@),
{
    if starts_with(path, "/") {
        return copy_of(path);
    }
    let mut s = copy_of(base);
    if !(base.is_empty() || ends_with(base, "/")) {
        s.append("/");
    }
    s.append(path);
    s
}

/// Where a file or directory of a version may be: directly below the TWS directory, or below
/// its `ibgateway` directory.
pub open spec fn candidates(tws_path: Seq<char>, version: Seq<char>, name: Seq<char>) -> Seq<
    Seq<char>,
> {
    seq![
        below(below(tws_path, version), name),
        below(below(below(tws_path, "ibgateway"@), version), name),
    ]
}

/// Where a file or directory of a version may be, in the order in which it is looked for.
pub fn version_candidates(tws_path: &str, version: &str, name: &str) -> (r: Vec<String>)
    ensures
        texts(r@) == candidates(tws_path@, version@, name@),
{
    let direct = join_path(tws_path, version);
    let gateway = join_path(tws_path, "ibgateway");
    let nested = join_path(gateway.as_str(), version);
    let mut v: Vec<String> = Vec::new();
    v.push(join_path(direct.as_str(), name));
    v.push(join_path(nested.as_str(), name));
    assert(texts(v@) =~= candidates(tws_path@, version@, name@));
    v
}

/// A file name with the extension `jar`.
pub open spec fn jar_name(name: Seq<char>) -> bool {
    name.len() > 4 && ends(name, ".jar"@)
}

/// Whether a file name has the extension `jar`. A name that is nothing but `.jar` has none.
pub fn is_jar(name: &str) -> (r: bool)
    ensures
        r == jar_name(name@),
{
    name.unicode_len() > 4 && ends_with(name, ".jar")
}

/// Text `a` comes no later than text `b` in the order of their characters.
pub open spec fn text_le(a: Seq<char>, b: Seq<char>) -> bool
    decreases a.len(),
{
    if a.len() == 0 {
        true
    } else if b.len() == 0 {
        false
    } else if a[0] == b[0] {
        text_le(a.drop_first(), b.drop_first())
    } else {
        (a[0] as int) < (b[0] as int)
    }
}

/// The texts are in order.
pub open spec fn in_order(s: Seq<Seq<char>>) -> bool {
    forall|i: int, j: int| 0 <= i < j < s.len() ==> text_le(#[trigger] s[i], #[trigger] s[j])
}

/// `t` holds the texts of `s`, in order.
pub open spec fn sorts(s: Seq<Seq<char>>, t: Seq<Seq<char>>) -> bool {
    in_order(t) && t.to_multiset() == s.to_multiset()
}

proof fn text_le_total(a: Seq<char>, b: Seq<char>)
    ensures
        text_le(a, b) || text_le(b, a),
    decreases a.len(),
{
    if a.len() > 0 && b.len() > 0 && a[0] == b[0] {
        text_le_total(a.drop_first(), b.drop_first());
    }
}

proof fn text_le_transitive(a: Seq<char>, b: Seq<char>, c: Seq<char>)
    requires
        text_le(a, b),
        text_le(b, c),
    ensures
        text_le(a, c),
    decreases a.len(),
{
    if a.len() > 0 && b.len() > 0 && c.len() > 0 && a[0] == b[0] && b[0] == c[0] {
        text_le_transitive(a.drop_first(), b.drop_first(), c.drop_first());
    }
}

proof fn text_le_antisymmetric(a: Seq<char>, b: Seq<char>)
    requires
        text_le(a, b),
        text_le(b, a),
    ensures
        a == b,
    decreases a.len(),
{
    if a.len() > 0 && b.len() > 0 {
        text_le_antisymmetric(a.drop_first(), b.drop_first());
        assert(a =~= seq![a[0]] + a.drop_first());
        assert(b =~= seq![b[0]] + b.drop_first());
    } else {
        assert(a =~= b);
    }
}

/// There is one way only to put texts in order.
pub proof fn order_is_unique(s: Seq<Seq<char>>, t: Seq<Seq<char>>, u: Seq<Seq<char>>)
    requires
        sorts(s, t),
        sorts(s, u),
    ensures
        t == u,
    decreases t.len(),
{
    broadcast use vstd::seq_lib::group_to_multiset_ensures;

    vstd::seq_lib::to_multiset_len(t);
    vstd::seq_lib::to_multiset_len(u);
    assert(t.len() == u.len());
    if t.len() > 0 {
        let x = t.last();
        let y = u.last();
        assert(u.contains(x)) by {
            assert(t.contains(x));
            assert(t.to_multiset().count(x) > 0);
            assert(u.to_multiset().count(x) > 0);
        }
        assert(t.contains(y)) by {
            assert(u.contains(y));
            assert(u.to_multiset().count(y) > 0);
            assert(t.to_multiset().count(y) > 0);
        }
        let i = choose|i: int| 0 <= i < u.len() && u[i] == x;
        let j = choose|j: int| 0 <= j < t.len() && t[j] == y;
        text_le_total(x, x);
        text_le_total(y, y);
        assert(text_le(x, y)) by {
            if i < u.len() - 1 {
                assert(text_le(u[i], u[u.len() - 1]));
            }
        }
        assert(text_le(y, x)) by {
            if j < t.len() - 1 {
                assert(text_le(t[j], t[t.len() - 1]));
            }
        }
        text_le_antisymmetric(x, y);
        let t0 = t.drop_last();
        let u0 = u.drop_last();
        assert(t0.push(x) =~= t);
        assert(u0.push(x) =~= u);
        assert(t0.to_multiset().insert(x) =~= u0.to_multiset().insert(x));
        assert(t0.to_multiset() =~= t0.to_multiset().insert(x).remove(x));
        assert(u0.to_multiset() =~= u0.to_multiset().insert(x).remove(x));
        assert(in_order(t0)) by {
            assert forall|a: int, b: int| 0 <= a < b < t0.len() implies text_le(
                #[trigger] t0[a],
                #[trigger] t0[b],
            ) by {
                assert(text_le(t[a], t[b]));
            }
        }
        assert(in_order(u0)) by {
            assert forall|a: int, b: int| 0 <= a < b < u0.len() implies text_le(
                #[trigger] u0[a],
                #[trigger] u0[b],
            ) by {
                assert(text_le(u[a], u[b]));
            }
        }
        order_is_unique(t0, t0, u0);
    } else {
        assert(t =~= u);
    }
}

fn code_of(c: char) -> (r: u32)
    ensures
        r as int == c as int,
{
    c as u32
}

fn text_at_most(a: &str, b: &str) -> (r: bool)
    ensures
        r == text_le(a@, b@),
{
    let x = chars_of(a);
    let y = chars_of(b);
    let mut i: usize = 0;
    assert(x@.subrange(0, x@.len() as int) =~= a@);
    assert(y@.subrange(0, y@.len() as int) =~= b@);
    while i < x.len() && i < y.len()
        invariant
            i <= x@.len(),
            i <= y@.len(),
            text_le(a@, b@) == text_le(
                x@.subrange(i as int, x@.len() as int),
                y@.subrange(i as int, y@.len() as int),
            ),
        decreases x@.len() - i,
    {
        proof {
            assert(x@.subrange(i as int, x@.len() as int).drop_first() =~= x@.subrange(
                i + 1,
                x@.len() as int,
            ));
            assert(y@.subrange(i as int, y@.len() as int).drop_first() =~= y@.subrange(
                i + 1,
                y@.len() as int,
            ));
        }
        let c: u32 = code_of(x[i]);
        let d: u32 = code_of(y[i]);
        if c != d {
            return c < d;
        }
        i += 1;
    }
    i == x.len()
}

/// Puts a text in its place among texts that are in order.
fn insert_in_order(v: &mut Vec<String>, s: String)
    requires
        in_order(texts(old(v)@)),
    ensures
        in_order(texts(final(v)@)),
        texts(final(v)@).to_multiset() == texts(old(v)@).to_multiset().insert(s@),
{
    let mut i: usize = 0;
    let ghost before = texts(v@);
    while i < v.len() && text_at_most(v[i].as_str(), s.as_str())
        invariant
            v@ == old(v)@,
            before == texts(v@),
            i <= v@.len(),
            forall|j: int| 0 <= j < i ==> text_le(#[trigger] before[j], s@),
        decreases v@.len() - i,
    {
        assert(before[i as int] == v@[i as int]@);
        i += 1;
    }
    let ghost x = s@;
    let ghost k = i as int;
    proof {
        if k < before.len() {
            assert(before[k] == v@[k]@);
            text_le_total(before[k], x);
        }
    }
    v.insert(i, s);
    proof {
        assert(texts(v@) =~= before.insert(k, x));
        broadcast use vstd::seq_lib::group_to_multiset_ensures;

        let t = texts(v@);
        insert_multiset(before, k, x);
        assert forall|a: int, b: int| 0 <= a < b < t.len() implies text_le(
            #[trigger] t[a],
            #[trigger] t[b],
        ) by {
            if b < k {
                assert(text_le(before[a], before[b]));
            } else if b == k {
                assert(text_le(before[a], x));
            } else if a == k {
                if b - 1 > k {
                    assert(text_le(before[k], before[b - 1]));
                    text_le_transitive(x, before[k], before[b - 1]);
                }
            } else {
                let a0 = if a < k {
                    a
                } else {
                    a - 1
                };
                assert(text_le(before[a0], before[b - 1]));
            }
        }
    }
}

proof fn insert_multiset(s: Seq<Seq<char>>, k: int, x: Seq<char>)
    requires
        0 <= k <= s.len(),
    ensures
        s.insert(k, x).to_multiset() == s.to_multiset().insert(x),
{
    broadcast use vstd::seq_lib::group_to_multiset_ensures;

    let a = s.subrange(0, k);
    let b = s.subrange(k, s.len() as int);
    assert(s =~= a + b);
    assert(s.insert(k, x) =~= a.push(x) + b);
    vstd::seq_lib::lemma_multiset_commutative(a, b);
    vstd::seq_lib::lemma_multiset_commutative(a.push(x), b);
    assert(s.insert(k, x).to_multiset() =~= s.to_multiset().insert(x));
}

/// The texts of `v`, in order.
pub fn sorted(v: Vec<String>) -> (r: Vec<String>)
    ensures
        sorts(texts(v@), texts(r@)),
{
    let ghost all = texts(v@);
    let mut out: Vec<String> = Vec::new();
    let mut i: usize = 0;
    proof {
        broadcast use vstd::seq_lib::group_to_multiset_ensures;

        assert(all.subrange(0, 0) =~= Seq::<Seq<char>>::empty());
        assert(texts(out@) =~= Seq::<Seq<char>>::empty());
    }
    while i < v.len()
        invariant
            i <= v@.len(),
            all == texts(v@),
            in_order(texts(out@)),
            texts(out@).to_multiset() == all.subrange(0, i as int).to_multiset(),
        decreases v@.len() - i,
    {
        proof {
            broadcast use vstd::seq_lib::group_to_multiset_ensures;

            assert(all.subrange(0, i + 1) =~= all.subrange(0, i as int).push(v@[i as int]@));
        }
        insert_in_order(&mut out, v[i].clone());
        i += 1;
    }
    assert(all.subrange(0, i as int) =~= all);
    out
}

/// The jars of the class path, before they are put in order.
pub open spec fn all_jars(jars: Seq<Seq<char>>, installer_runtime: Option<String>) -> Seq<Seq<char>> {
    match installer_runtime {
        Some(i) => jars.push(i@),
        None => jars,
    }
}

/// The error for a jars directory that is in none of the places where it may be.
pub fn no_jars_directory(tws_path: &str, version: &str) -> (r: SupervisorError)
    ensures
        r matches SupervisorError::NoJars(d) && d@ == join(
            candidates(tws_path@, version@, "jars"@),
            ", "@,
        ),
{
    let tried = version_candidates(tws_path, version, "jars");
    SupervisorError::NoJars(joined(&tried, ", "))
}

/// A line of an options file that is handed to the JVM: no comment, and no property, since
/// those are set here.
pub open spec fn is_option(line: Seq<char>) -> bool {
    line.len() > 0 && !begins(line, "#"@) && !begins(line, "-D"@)
}

/// The options among lines, each without the space round it.
pub open spec fn options_of(lines: Seq<Seq<char>>) -> Seq<Seq<char>>
    decreases lines.len(),
{
    if lines.len() == 0 {
        Seq::empty()
    } else {
        let line = trimmed(lines.last());
        if is_option(line) {
            options_of(lines.drop_last()).push(line)
        } else {
            options_of(lines.drop_last())
        }
    }
}

/// No property of an options file reaches the JVM, and no comment.
pub proof fn options_are_filtered(lines: Seq<Seq<char>>)
    ensures
        forall|i: int| 0 <= i < options_of(lines).len() ==> is_option(#[trigger] options_of(lines)[i]),
    decreases lines.len(),
{
    if lines.len() > 0 {
        options_are_filtered(lines.drop_last());
        let before = options_of(lines.drop_last());
        assert forall|i: int| 0 <= i < options_of(lines).len() implies is_option(
            #[trigger] options_of(lines)[i],
        ) by {
            if i < before.len() {
                assert(options_of(lines)[i] == before[i]);
            }
        }
    }
}

/// The first of these names that is not `ibgateway`.
pub open spec fn first_other(names: Seq<Seq<char>>) -> Option<Seq<char>>
    decreases names.len(),
{
    if names.len() == 0 {
        None
    } else if names[0] != "ibgateway"@ {
        Some(names[0])
    } else {
        first_other(names.drop_first())
    }
}

/// The version that is launched: the configured one, else the first below the `ibgateway`
/// directory, else the first directly below the TWS directory.
pub open spec fn version_of(
    configured: Seq<char>,
    below_gateway: Seq<Seq<char>>,
    below_tws: Seq<Seq<char>>,
) -> Option<Seq<char>> {
    if configured.len() > 0 {
        Some(configured)
    } else if below_gateway.len() > 0 {
        Some("ibgateway/"@ + below_gateway[0])
    } else {
        first_other(below_tws)
    }
}

/// What was found of Java on the system.
#[derive(Debug)]
pub struct JavaSearch {
    /// The variable `JAVA_PATH`.
    pub java_path: Option<String>,
    /// Whether `bin/java` is below it.
    pub bin_exists: bool,
    /// Whether it is a file itself.
    pub is_file: bool,
    /// The first `java` among the installer's runtimes.
    pub bundled: Option<String>,
    /// Whether `/usr/bin/java` is there.
    pub in_usr: bool,
    /// Whether `/usr/local/bin/java` is there.
    pub in_usr_local: bool,
}

/// Which Java is launched: that of `JAVA_PATH` first, then one that came with the installer,
/// then one of the system.
pub open spec fn java_of(s: JavaSearch) -> Option<Seq<char>> {
    if s.java_path is Some && s.bin_exists {
        Some(s.java_path->0@ + "/bin/java"@)
    } else if s.java_path is Some && s.is_file {
        Some(s.java_path->0@)
    } else if s.bundled is Some {
        Some(s.bundled->0@)
    } else if s.in_usr {
        Some("/usr/bin/java"@)
    } else if s.in_usr_local {
        Some("/usr/local/bin/java"@)
    } else {
        None
    }
}

/// What a launch is made of.
pub struct Launch {
    pub classpath: Seq<char>,
    pub agent_jar: Seq<char>,
    pub agent_socket: Seq<char>,
    pub vm_options: Seq<Seq<char>>,
    pub java_heap_mb: u32,
    pub settings_path: Seq<char>,
    /// "gateway" or "tws".
    pub program: Seq<char>,
    /// The session token of a warm restart.
    pub restart_token: Option<Seq<char>>,
}

/// The arguments that follow the options of the JVM.
pub open spec fn property_arguments(l: Launch) -> Seq<Seq<char>> {
    seq![
        "-Xmx"@ + decimal(l.java_heap_mb as nat) + "m"@,
        "-DjtsConfigDir="@ + l.settings_path,
        "-Dtwslaunch.autoupdate.serviceImpl=com.ib.tws.twslaunch.install4j.Install4jAutoUpdateService"@,
        "-Dchannel=latest"@,
        "-Dexe4j.isInstall4j=true"@,
        "-DinstallType=standalone"@,
    ]
}

/// The arguments that resume a session, where there is one to resume.
pub open spec fn restart_arguments(l: Launch) -> Seq<Seq<char>> {
    match l.restart_token {
        Some(t) => seq!["-Drestart="@ + t],
        None => Seq::empty(),
    }
}

/// The arguments of the JVM: the module flags before the class path, the agent, the options of
/// the file, the heap, the properties, and the main class last.
pub open spec fn launch_arguments(l: Launch) -> Seq<Seq<char>> {
    module_access() + seq![
        "-cp"@,
        l.classpath,
        "-javaagent:"@ + l.agent_jar + "="@ + l.agent_socket,
    ] + l.vm_options + property_arguments(l) + restart_arguments(l) + seq![
        main_class_of(l.program),
    ]
}

fn push_text(v: &mut Vec<String>, s: String)
    ensures
        texts(final(v)@) == texts(old(v)@).push(s@),
{
    let ghost before = texts(v@);
    let ghost x = s@;
    v.push(s);
    assert(texts(v@) =~= before.push(x));
}

/// What is known of the JVM before it is launched.
#[derive(Debug)]
pub struct Supervisor {
    config: GatewayConfig,
    agent_jar_path: String,
    agent_socket_path: String,
    shutdown_timeout_secs: u64,
}

impl Supervisor {
    /// The configuration of the Gateway.
    pub closed spec fn gateway(&self) -> GatewayConfig {
        self.config
    }

    /// The path of the agent's jar.
    pub closed spec fn agent_jar(&self) -> Seq<char> {
        self.agent_jar_path@
    }

    /// The path of the agent's socket.
    pub closed spec fn agent_socket(&self) -> Seq<char> {
        self.agent_socket_path@
    }

    /// The seconds that the JVM gets to end on its own.
    pub closed spec fn shutdown_timeout(&self) -> u64 {
        self.shutdown_timeout_secs
    }

    /// A launch with a class path, options and perhaps a session to resume.
    pub open spec fn launch_with(
        &self,
        classpath: Seq<char>,
        vm_options: Seq<Seq<char>>,
        restart_token: Option<&str>,
    ) -> Launch {
        Launch {
            classpath,
            agent_jar: self.agent_jar(),
            agent_socket: self.agent_socket(),
            vm_options,
            java_heap_mb: self.gateway().java_heap_mb,
            settings_path: if self.gateway().settings_path@.len() == 0 {
                self.gateway().tws_path@
            } else {
                self.gateway().settings_path@
            },
            program: self.gateway().program@,
            restart_token: match restart_token {
                Some(t) => Some(t@),
                None => None,
            },
        }
    }

    pub fn new(
        config: GatewayConfig,
        agent_jar_path: &str,
        agent_socket_path: String,
        shutdown_timeout_secs: u64,
    ) -> (r: Self)
        ensures
            r.gateway() == config,
            r.agent_jar() == agent_jar_path@,
            r.agent_socket() == agent_socket_path@,
            r.shutdown_timeout() == shutdown_timeout_secs,
    {
        Self {
            config,
            agent_jar_path: copy_of(agent_jar_path),
            agent_socket_path,
            shutdown_timeout_secs,
        }
    }

    /// The class path from the jars of the directory and the runtime of the installer, where that
    /// was found: all of them in order, with colons between. Without jars there is none.
    pub fn build_classpath(jars_dir: &str, jars: Vec<String>, installer_runtime: Option<String>) -> (r:
        Result<String, SupervisorError>)
        ensures
            match r {
                Ok(path) => jars@.len() > 0 && exists|t: Seq<Seq<char>>|
                    #[trigger] sorts(all_jars(texts(jars@), installer_runtime), t) && path@ == join(
                        t,
                        ":"@,
                    ),
                Err(SupervisorError::NoJars(d)) => jars@.len() == 0 && d@ == jars_dir@,
                Err(_) => false,
            },
    {
        if jars.len() == 0 {
            return Err(SupervisorError::NoJars(copy_of(jars_dir)));
        }
        let mut all: Vec<String> = jars;
        let ghost before = texts(all@);
        if let Some(i) = &installer_runtime {
            all.push(i.clone());
            assert(texts(all@) =~= before.push(i@));
        }
        assert(texts(all@) =~= all_jars(texts(jars@), installer_runtime));
        let ordered = sorted(all);
        let path = joined(&ordered, ":");
        assert(sorts(all_jars(texts(jars@), installer_runtime), texts(ordered@)));
        Ok(path)
    }

    /// The options in what an options file holds.
    pub fn read_vmoptions(contents: &str) -> (r: Vec<String>)
        ensures
            texts(r@) == options_of(pieces(contents@, '\n')),
    {
        let lines = split(contents, '\n');
        let ghost all = texts(lines@);
        let mut out: Vec<String> = Vec::new();
        let mut i: usize = 0;
        assert(all.subrange(0, 0) =~= Seq::<Seq<char>>::empty());
        assert(texts(out@) =~= Seq::<Seq<char>>::empty());
        while i < lines.len()
            invariant
                i <= lines@.len(),
                all == texts(lines@),
                texts(out@) == options_of(all.subrange(0, i as int)),
            decreases lines@.len() - i,
        {
            proof {
                assert(all.subrange(0, i + 1).drop_last() =~= all.subrange(0, i as int));
                assert(all.subrange(0, i + 1).last() == lines@[i as int]@);
            }
            let line = trim(lines[i].as_str());
            if !line.as_str().is_empty() && !starts_with(line.as_str(), "#") && !starts_with(
                line.as_str(),
                "-D",
            ) {
                let ghost before = texts(out@);
                let ghost x = line@;
                out.push(line);
                assert(texts(out@) =~= before.push(x));
            }
            i += 1;
        }
        assert(all.subrange(0, i as int) =~= all);
        out
    }

    /// The version that is launched. The lists name the directories with a `jars` directory, in
    /// the order in which the file system gives them.
    pub fn detect_version(
        &self,
        below_gateway: &Vec<String>,
        below_tws: &Vec<String>,
    ) -> (r: Result<String, SupervisorError>)
        ensures
            match r {
                Ok(v) => version_of(self.gateway().version@, texts(below_gateway@), texts(below_tws@)) == Some(v@),
                Err(SupervisorError::VersionDetectionFailed(d)) => d@ == self.gateway().tws_path@ && version_of(
                    self.gateway().version@,
                    texts(below_gateway@),
                    texts(below_tws@),
                ) is None,
                Err(_) => false,
            },
    {
        if !self.config.version.as_str().is_empty() {
            return Ok(self.config.version.clone());
        }
        if below_gateway.len() > 0 {
            assert(texts(below_gateway@)[0] == below_gateway@[0]@);
            return Ok(two_texts("ibgateway/", below_gateway[0].as_str()));
        }
        let ghost names = texts(below_tws@);
        let mut i: usize = 0;
        assert(names.subrange(0, names.len() as int) =~= names);
        while i < below_tws.len()
            invariant
                i <= below_tws@.len(),
                names == texts(below_tws@),
                self.gateway().version@.len() == 0,
                below_gateway@.len() == 0,
                first_other(names.subrange(i as int, names.len() as int)) == first_other(names),
            decreases below_tws@.len() - i,
        {
            proof {
                let rest = names.subrange(i as int, names.len() as int);
                assert(rest[0] == below_tws@[i as int]@);
                assert(rest.drop_first() =~= names.subrange(i + 1, names.len() as int));
            }
            if !same(below_tws[i].as_str(), "ibgateway") {
                return Ok(below_tws[i].clone());
            }
            i += 1;
        }
        Err(SupervisorError::VersionDetectionFailed(self.config.tws_path.clone()))
    }

    /// Which Java is launched.
    pub fn find_java(s: &JavaSearch) -> (r: Result<String, SupervisorError>)
        ensures
            match r {
                Ok(j) => java_of(*s) == Some(j@),
                Err(SupervisorError::JavaNotFound(m)) => java_of(*s) is None && m@
                    == "no java binary found in JAVA_PATH, i4j_jres, or PATH"@,
                Err(_) => false,
            },
    {
        if let Some(p) = &s.java_path {
            if s.bin_exists {
                return Ok(two_texts(p.as_str(), "/bin/java"));
            }
            if s.is_file {
                return Ok(p.clone());
            }
        }
        if let Some(b) = &s.bundled {
            return Ok(b.clone());
        }
        if s.in_usr {
            return Ok(copy_of("/usr/bin/java"));
        }
        if s.in_usr_local {
            return Ok(copy_of("/usr/local/bin/java"));
        }
        Err(
            SupervisorError::JavaNotFound(
                copy_of("no java binary found in JAVA_PATH, i4j_jres, or PATH"),
            ),
        )
    }

    /// The arguments of the JVM.
    ///
    /// The settings directory is the TWS directory where none is configured.
    pub fn launch(
        &self,
        classpath: &str,
        vm_options: &Vec<String>,
        restart_token: Option<&str>,
    ) -> (r: Vec<String>)
        ensures
            texts(r@) == launch_arguments(self.launch_with(classpath@, texts(vm_options@), restart_token)),
    {
        let settings: &str = if self.config.settings_path.as_str().is_empty() {
            self.config.tws_path.as_str()
        } else {
            self.config.settings_path.as_str()
        };
        let mut args = module_access_flags();
        push_text(&mut args, copy_of("-cp"));
        push_text(&mut args, copy_of(classpath));
        let mut agent = copy_of("-javaagent:");
        agent.append(self.agent_jar_path.as_str());
        agent.append("=");
        agent.append(self.agent_socket_path.as_str());
        push_text(&mut args, agent);
        let ghost head = texts(args@);
        let mut i: usize = 0;
        assert(texts(vm_options@).subrange(0, 0) =~= Seq::<Seq<char>>::empty());
        assert(head + Seq::<Seq<char>>::empty() =~= head);
        while i < vm_options.len()
            invariant
                i <= vm_options@.len(),
                texts(args@) == head + texts(vm_options@).subrange(0, i as int),
            decreases vm_options@.len() - i,
        {
            push_text(&mut args, vm_options[i].clone());
            assert(texts(vm_options@).subrange(0, i + 1) =~= texts(vm_options@).subrange(
                0,
                i as int,
            ).push(vm_options@[i as int]@));
            assert(texts(args@) =~= head + texts(vm_options@).subrange(0, i + 1));
            i += 1;
        }
        assert(texts(vm_options@).subrange(0, i as int) =~= texts(vm_options@));
        let mut heap = copy_of("-Xmx");
        push_decimal(&mut heap, self.config.java_heap_mb as u64);
        heap.append("m");
        push_text(&mut args, heap);
        push_text(&mut args, two_texts("-DjtsConfigDir=", settings));
        push_text(
            &mut args,
            copy_of(
                "-Dtwslaunch.autoupdate.serviceImpl=com.ib.tws.twslaunch.install4j.Install4jAutoUpdateService",
            ),
        );
        push_text(&mut args, copy_of("-Dchannel=latest"));
        push_text(&mut args, copy_of("-Dexe4j.isInstall4j=true"));
        push_text(&mut args, copy_of("-DinstallType=standalone"));
        if let Some(t) = restart_token {
            push_text(&mut args, two_texts("-Drestart=", t));
        }
        push_text(&mut args, main_class(self.config.program.as_str()));
        assert(texts(args@) =~= launch_arguments(
            self.launch_with(classpath@, texts(vm_options@), restart_token),
        ));
        args
    }

    /// How often the JVM is looked at, a tenth of a second apart, before it is killed.
    pub fn shutdown_polls(&self) -> (r: u64)
        ensures
            r == if self.shutdown_timeout() * 10 <= u64::MAX {
                self.shutdown_timeout() * 10
            } else {
                u64::MAX as int
            },
    {
        if self.shutdown_timeout_secs <= u64::MAX / 10 {
            self.shutdown_timeout_secs * 10
        } else {
            u64::MAX
        }
    }
}

/// The command line of the JVM has its parts in their places: the module flags first, then the
/// class path and the agent, then the options of the file, then the heap and the properties,
/// then the session to resume where there is one, and the main class last.
pub proof fn command_lines_have_their_parts(l: Launch, i: int)
    ensures
        ({
            let a = launch_arguments(l);
            let n = l.vm_options.len() as int;
            &&& a.len() == 24 + n + if l.restart_token is Some {
                1int
            } else {
                0
            }
            &&& 0 <= i < 14 ==> a[i] == module_access()[i]
            &&& a[14] == "-cp"@
            &&& a[15] == l.classpath
            &&& a[16] == "-javaagent:"@ + l.agent_jar + "="@ + l.agent_socket
            &&& 0 <= i < n ==> a[17 + i] == l.vm_options[i]
            &&& a[17 + n] == "-Xmx"@ + decimal(l.java_heap_mb as nat) + "m"@
            &&& a[18 + n] == "-DjtsConfigDir="@ + l.settings_path
            &&& a[19 + n]
                == "-Dtwslaunch.autoupdate.serviceImpl=com.ib.tws.twslaunch.install4j.Install4jAutoUpdateService"@
            &&& a[20 + n] == "-Dchannel=latest"@
            &&& a[21 + n] == "-Dexe4j.isInstall4j=true"@
            &&& a[22 + n] == "-DinstallType=standalone"@
            &&& l.restart_token matches Some(t) ==> a[23 + n] == "-Drestart="@ + t
            &&& a.last() == if l.program == "tws"@ {
                "jclient.LoginFrame"@
            } else {
                "ibgateway.GWClient"@
            }
        }),
        module_access() == seq![
            "--add-opens=java.base/java.util=ALL-UNNAMED"@,
            "--add-opens=java.base/java.util.concurrent=ALL-UNNAMED"@,
            "--add-exports=java.base/sun.util=ALL-UNNAMED"@,
            "--add-exports=java.desktop/com.sun.java.swing.plaf.motif=ALL-UNNAMED"@,
            "--add-opens=java.desktop/java.awt=ALL-UNNAMED"@,
            "--add-opens=java.desktop/java.awt.dnd=ALL-UNNAMED"@,
            "--add-opens=java.desktop/javax.swing=ALL-UNNAMED"@,
            "--add-opens=java.desktop/javax.swing.event=ALL-UNNAMED"@,
            "--add-opens=java.desktop/javax.swing.plaf.basic=ALL-UNNAMED"@,
            "--add-opens=java.desktop/javax.swing.table=ALL-UNNAMED"@,
            "--add-opens=java.desktop/sun.awt=ALL-UNNAMED"@,
            "--add-exports=java.desktop/sun.awt.X11=ALL-UNNAMED"@,
            "--add-exports=java.desktop/sun.swing=ALL-UNNAMED"@,
            "--add-opens=jdk.management/com.sun.management.internal=ALL-UNNAMED"@,
        ],
{
}

/// A launch takes its parts from the supervisor: the directory of the settings is the configured
/// one, and that of TWS where none is.
pub proof fn launches_take_their_parts(
    s: Supervisor,
    classpath: Seq<char>,
    options: Seq<Seq<char>>,
    token: Option<&str>,
)
    ensures
        ({
            let l = s.launch_with(classpath, options, token);
            &&& l.classpath == classpath && l.vm_options == options
            &&& l.agent_jar == s.agent_jar() && l.agent_socket == s.agent_socket()
            &&& l.java_heap_mb == s.gateway().java_heap_mb && l.program == s.gateway().program@
            &&& s.gateway().settings_path@.len() > 0 ==> l.settings_path
                == s.gateway().settings_path@
            &&& s.gateway().settings_path@.len() == 0 ==> l.settings_path == s.gateway().tws_path@
            &&& token matches Some(t) ==> l.restart_token == Some(t@)
            &&& token is None ==> l.restart_token is None
        }),
{
}

/// A line of an options file becomes an option without the white space round it, in its place,
/// unless it is empty, a comment or a property.
pub proof fn options_are_lines(lines: Seq<Seq<char>>, line: Seq<char>)
    ensures
        ({
            let t = trimmed(line);
            let kept = t.len() > 0 && !begins(t, "#"@) && !begins(t, "-D"@);
            options_of(lines.push(line)) == if kept {
                options_of(lines).push(t)
            } else {
                options_of(lines)
            }
        }),
        options_of(Seq::empty()) == Seq::<Seq<char>>::empty(),
{
    assert(lines.push(line).drop_last() =~= lines);
}

/// The version is the configured one; without it the first below the `ibgateway` directory, with
/// that directory in front; without that the first below the TWS directory that is not the
/// `ibgateway` directory itself.
pub proof fn versions_are_looked_for(
    configured: Seq<char>,
    below_gateway: Seq<Seq<char>>,
    below_tws: Seq<Seq<char>>,
    i: int,
)
    ensures
        configured.len() > 0 ==> version_of(configured, below_gateway, below_tws) == Some(configured),
        configured.len() == 0 && below_gateway.len() > 0 ==> version_of(
            configured,
            below_gateway,
            below_tws,
        ) == Some("ibgateway/"@ + below_gateway[0]),
        configured.len() == 0 && below_gateway.len() == 0 && 0 <= i < below_tws.len()
            && below_tws[i] != "ibgateway"@ && (forall|j: int|
            0 <= j < i ==> #[trigger] below_tws[j] == "ibgateway"@) ==> version_of(
            configured,
            below_gateway,
            below_tws,
        ) == Some(below_tws[i]),
        configured.len() == 0 && below_gateway.len() == 0 && (forall|j: int|
            0 <= j < below_tws.len() ==> #[trigger] below_tws[j] == "ibgateway"@) ==> version_of(
            configured,
            below_gateway,
            below_tws,
        ) is None,
{
    first_other_is_first(below_tws, i);
}

proof fn first_other_is_first(s: Seq<Seq<char>>, i: int)
    ensures
        0 <= i < s.len() && s[i] != "ibgateway"@ && (forall|j: int|
            0 <= j < i ==> #[trigger] s[j] == "ibgateway"@) ==> first_other(s) == Some(s[i]),
        (forall|j: int| 0 <= j < s.len() ==> #[trigger] s[j] == "ibgateway"@) ==> first_other(s)
            is None,
    decreases s.len(),
{
    if s.len() > 0 {
        let rest = s.drop_first();
        assert forall|j: int| 0 <= j < rest.len() implies (#[trigger] rest[j]) == s[j + 1] by {}
        first_other_is_first(rest, i - 1);
        assert(s[0] == s[0]);
        if 0 < i < s.len() {
            assert(rest[i - 1] == s[i]);
        }
    }
}

/// Java is taken from where `JAVA_PATH` says, as a directory before a file, then from the
/// installer, then from the system, and is missing only where none of them has it.
pub proof fn java_is_looked_for(s: JavaSearch)
    ensures
        s.java_path matches Some(p) ==> {
            &&& s.bin_exists ==> java_of(s) == Some(p@ + "/bin/java"@)
            &&& !s.bin_exists && s.is_file ==> java_of(s) == Some(p@)
        },
        s.java_path is None || (!s.bin_exists && !s.is_file) ==> {
            &&& s.bundled matches Some(b) ==> java_of(s) == Some(b@)
            &&& s.bundled is None && s.in_usr ==> java_of(s) == Some("/usr/bin/java"@)
            &&& s.bundled is None && !s.in_usr && s.in_usr_local ==> java_of(s) == Some(
                "/usr/local/bin/java"@,
            )
            &&& s.bundled is None && !s.in_usr && !s.in_usr_local ==> java_of(s) is None
        },
{
}

/// A path below another stands behind it with one slash between; an absolute one stands alone.
/// Files of a version are looked for below the TWS directory first, and then below its
/// `ibgateway` directory.
pub proof fn paths_are_joined(a: Seq<char>, b: Seq<char>, tws: Seq<char>, version: Seq<char>, name: Seq<char>)
    ensures
        begins(b, "/"@) ==> below(a, b) == b,
        !begins(b, "/"@) && a.len() > 0 && !ends(a, "/"@) ==> below(a, b) == a + "/"@ + b,
        !begins(b, "/"@) && ends(a, "/"@) ==> below(a, b) == a + b,
        candidates(tws, version, name).len() == 2,
        candidates(tws, version, name)[0] == below(below(tws, version), name),
        candidates(tws, version, name)[1] == below(
            below(below(tws, "ibgateway"@), version),
            name,
        ),
        forall|stem: Seq<char>| stem.len() > 0 ==> jar_name(#[trigger] (stem + ".jar"@)),
        !jar_name(".jar"@),
{
    reveal_strlit(".jar");
    assert forall|stem: Seq<char>| stem.len() > 0 implies jar_name(#[trigger] (stem + ".jar"@)) by {
        let s = stem + ".jar"@;
        assert(s.subrange(s.len() - 4, s.len() as int) =~= ".jar"@);
    }
}

/// The class path holds every jar once and nothing else: with the runtime of the installer it has
/// one part more.
pub proof fn class_paths_hold_every_jar(
    jars_dir: &str,
    jars: Vec<String>,
    runtime: Option<String>,
    r: Result<String, SupervisorError>,
)
    requires
        call_ensures(Supervisor::build_classpath, (jars_dir, jars, runtime), r),
    ensures
        r is Ok <==> jars@.len() > 0,
        r is Err ==> (r matches Err(SupervisorError::NoJars(d)) && d@ == jars_dir@),
        r matches Ok(path) ==> exists|t: Seq<Seq<char>>|
            #[trigger] in_order(t) && path@ == join(t, ":"@) && t.to_multiset() == match runtime {
                Some(i) => texts(jars@).to_multiset().insert(i@),
                None => texts(jars@).to_multiset(),
            },
{
    broadcast use vstd::seq_lib::group_to_multiset_ensures;

    if r is Ok {
        let t = choose|t: Seq<Seq<char>>|
            #[trigger] sorts(all_jars(texts(jars@), runtime), t) && r->Ok_0@ == join(t, ":"@);
        assert(in_order(t));
    }
}

/// The order of texts goes by their first characters that differ, and a beginning comes first.
pub proof fn texts_are_ordered(p: Seq<char>, a: char, b: char, x: Seq<char>, y: Seq<char>)
    ensures
        text_le(p, p + x),
        (a as int) < (b as int) ==> text_le(p + seq![a] + x, p + seq![b] + y) && !text_le(
            p + seq![b] + y,
            p + seq![a] + x,
        ),
    decreases p.len(),
{
    if p.len() > 0 {
        let q = p.drop_first();
        texts_are_ordered(q, a, b, x, y);
        assert((p + x).drop_first() =~= q + x);
        assert((p + seq![a] + x).drop_first() =~= q + seq![a] + x);
        assert((p + seq![b] + y).drop_first() =~= q + seq![b] + y);
    } else {
        assert((p + seq![a] + x)[0] == a);
        assert((p + seq![b] + y)[0] == b);
    }
}

/// An error on the way to the JVM tells what was done and what came of it.
pub proof fn errors_tell_what_failed(e: SupervisorError, r: String)
    requires
        call_ensures(SupervisorError::message, (&e,), r),
    ensures
        e matches SupervisorError::SpawnFailed(x) ==> {
            &&& crate::text::begins(r@, "failed to spawn JVM process: "@)
            &&& crate::text::ends(r@, x@)
            &&& r@.len() == "failed to spawn JVM process: "@.len() + x@.len()
        },
        e matches SupervisorError::NoJars(x) ==> {
            &&& crate::text::begins(r@, "no jars found in "@)
            &&& crate::text::ends(r@, x@)
            &&& r@.len() == "no jars found in "@.len() + x@.len()
        },
        e matches SupervisorError::JavaNotFound(x) ==> {
            &&& crate::text::begins(r@, "Java not found at "@)
            &&& crate::text::ends(r@, x@)
            &&& r@.len() == "Java not found at "@.len() + x@.len()
        },
        e matches SupervisorError::VersionDetectionFailed(x) ==> {
            &&& crate::text::begins(r@, "failed to detect gateway version from "@)
            &&& crate::text::ends(r@, x@)
            &&& r@.len() == "failed to detect gateway version from "@.len() + x@.len()
        },
        e matches SupervisorError::VmOptionsFailed { path, source } ==> {
            &&& crate::text::begins(r@, "failed to read vmoptions file '"@ + path@)
            &&& crate::text::ends(r@, "': "@ + source@)
        },
        e is NotRunning ==> r@ == "JVM process not running"@,
{
    match e {
        SupervisorError::SpawnFailed(x) => {
            crate::text::parts_begin_and_end("failed to spawn JVM process: "@, x@);
        },
        SupervisorError::NoJars(x) => {
            crate::text::parts_begin_and_end("no jars found in "@, x@);
        },
        SupervisorError::JavaNotFound(x) => {
            crate::text::parts_begin_and_end("Java not found at "@, x@);
        },
        SupervisorError::VersionDetectionFailed(x) => {
            crate::text::parts_begin_and_end("failed to detect gateway version from "@, x@);
        },
        SupervisorError::VmOptionsFailed { path, source } => {
            crate::text::parts_begin_and_end("failed to read vmoptions file '"@ + path@, "': "@ + source@);
            assert("failed to read vmoptions file '"@ + path@ + "': "@ + source@
                =~= ("failed to read vmoptions file '"@ + path@) + ("': "@ + source@));
        },
        SupervisorError::NotRunning => {},
    }
}

/// The end of the JVM is looked for ten times in every second that it is given.
pub proof fn ends_are_looked_for_often(s: Supervisor, r: u64)
    requires
        call_ensures(Supervisor::shutdown_polls, (&s,), r),
    ensures
        s.shutdown_timeout() * 10 <= u64::MAX ==> r == 10 * s.shutdown_timeout(),
        s.shutdown_timeout() * 10 > u64::MAX ==> r == u64::MAX,
{
}

} // verus!
