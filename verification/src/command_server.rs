//! The line protocol of the command server: a client sends one command and gets one line
//! back, `OK ...` or `ERROR ...`.
//!
//! Listening, reading and writing are left to the caller.

use crate::config::CommandServerConfig;
use crate::text::{
    chars_of, copy_of, decimal, parse_number, parsed, pieces, push_decimal, same, split, split_words, text_of, texts, trim, trimmed,
    uppercase, upper_case, words,
};
use crate::types::{Command, CommandModel};
use vstd::prelude::*;
use vstd::string::*;

verus! {

/// What can go wrong in the command server.
#[derive(Debug)]
pub enum CommandServerError {
    BindFailed { addr: String, source: String },
    ConnectionError(String),
}

impl CommandServerError {
    /// The error in words.
    pub open spec fn words(&self) -> Seq<char> {
        match self {
            CommandServerError::BindFailed { addr, source } => "failed to bind TCP listener on "@
                + addr@ + ": "@ + source@,
            CommandServerError::ConnectionError(e) => "connection error: "@ + e@,
        }
    }

    /// The error in words.
    pub fn message(&self) -> (r: String)
        ensures
            r@ == self.words(),
    {
        match self {
            CommandServerError::BindFailed { addr, source } => {
                let mut s = copy_of("failed to bind TCP listener on ");
                s.append(addr.as_str());
                s.append(": ");
                s.append(source.as_str());
                s
            },
            CommandServerError::ConnectionError(e) => {
                let mut s = copy_of("connection error: ");
                s.append(e.as_str());
                s
            },
        }
    }
}

/// A question that is answered in JSON.
#[derive(Debug, Clone, Copy, PartialEq, Eq, Structural)]
pub enum QueryType {
    /// The full status with the advice for clients.
    Status,
    /// The state and the history of transitions.
    State,
    /// The configuration with its passwords masked.
    Config,
    /// The last lines of the log.
    Logs(usize),
    /// The windows and their tabs.
    Windows,
}

/// A line of the protocol.
#[derive(Debug)]
pub enum ParsedCommand {
    Action(Command),
    Query(QueryType),
}

/// A line of the protocol as a mathematical value.
pub enum ParsedModel {
    Action(CommandModel),
    Query(QueryType),
}

impl View for ParsedCommand {
    type V = ParsedModel;

    open spec fn view(&self) -> ParsedModel {
        match self {
            ParsedCommand::Action(c) => ParsedModel::Action(c@),
            ParsedCommand::Query(q) => ParsedModel::Query(*q),
        }
    }
}

/// How many lines a question for the log asks for: the number behind it, else a hundred.
pub open spec fn log_limit(upper: Seq<Seq<char>>) -> usize {
    if upper.len() > 1 {
        match parsed(upper[1], usize::MAX as nat) {
            Some(n) => n as usize,
            None => 100,
        }
    } else {
        100
    }
}

/// What the words of a line mean. The command is read from the words in upper case, the name
/// of a state as it was written.
pub open spec fn meaning(upper: Seq<Seq<char>>, written: Seq<Seq<char>>) -> Option<ParsedModel> {
    if upper.len() == 0 {
        None
    } else if upper[0] == "STOP"@ {
        Some(ParsedModel::Action(CommandModel::Stop))
    } else if upper[0] == "RESTART"@ {
        Some(ParsedModel::Action(CommandModel::Restart))
    } else if upper[0] == "RECONNECTDATA"@ {
        Some(ParsedModel::Action(CommandModel::ReconnectData))
    } else if upper[0] == "RECONNECTACCOUNT"@ {
        Some(ParsedModel::Action(CommandModel::ReconnectAccount))
    } else if upper[0] == "ENABLEAPI"@ {
        Some(ParsedModel::Action(CommandModel::EnableApi))
    } else if upper[0] == "EXIT"@ {
        Some(ParsedModel::Action(CommandModel::Exit))
    } else if upper[0] == "START"@ {
        Some(ParsedModel::Action(CommandModel::Start))
    } else if upper[0] == "PAUSE"@ {
        if written.len() > 1 {
            Some(ParsedModel::Action(CommandModel::PauseAt(written[1])))
        } else {
            Some(ParsedModel::Action(CommandModel::Pause))
        }
    } else if upper[0] == "RESUME"@ {
        Some(ParsedModel::Action(CommandModel::Resume))
    } else if upper[0] == "SETSTATE"@ {
        if written.len() > 1 {
            Some(ParsedModel::Action(CommandModel::SetState(written[1])))
        } else {
            None
        }
    } else if upper[0] == "HITL_RESUME"@ {
        Some(ParsedModel::Action(CommandModel::HitlResume))
    } else if upper[0] == "STATUS"@ {
        Some(ParsedModel::Query(QueryType::Status))
    } else if upper[0] == "STATE"@ {
        Some(ParsedModel::Query(QueryType::State))
    } else if upper[0] == "CONFIG"@ {
        Some(ParsedModel::Query(QueryType::Config))
    } else if upper[0] == "LOGS"@ {
        Some(ParsedModel::Query(QueryType::Logs(log_limit(upper))))
    } else if upper[0] == "WINDOWS"@ {
        Some(ParsedModel::Query(QueryType::Windows))
    } else {
        None
    }
}

/// The view of a line that may not be understood.
pub open spec fn parsed_view(p: Option<ParsedCommand>) -> Option<ParsedModel> {
    match p {
        Some(c) => Some(c@),
        None => None,
    }
}

/// The texts in upper case.
pub open spec fn upper_words(written: Seq<Seq<char>>) -> Seq<Seq<char>> {
    written.map_values(|w: Seq<char>| upper_case(w))
}

/// What a line of the protocol means, by its words.
pub open spec fn line_meaning(line: Seq<char>) -> Option<ParsedModel> {
    meaning(upper_words(words(line)), words(line))
}

/// What the words of a line mean, given in upper case and as they were written.
pub fn interpret(upper: &Vec<String>, written: &Vec<String>) -> (r: Option<ParsedCommand>)
    ensures
        parsed_view(r) == meaning(texts(upper@), texts(written@)),
{
    if upper.len() == 0 {
        return None;
    }
    let first = upper[0].as_str();
    assert(texts(upper@)[0] == first@);
    if same(first, "STOP") {
        Some(ParsedCommand::Action(Command::Stop))
    } else if same(first, "RESTART") {
        Some(ParsedCommand::Action(Command::Restart))
    } else if same(first, "RECONNECTDATA") {
        Some(ParsedCommand::Action(Command::ReconnectData))
    } else if same(first, "RECONNECTACCOUNT") {
        Some(ParsedCommand::Action(Command::ReconnectAccount))
    } else if same(first, "ENABLEAPI") {
        Some(ParsedCommand::Action(Command::EnableApi))
    } else if same(first, "EXIT") {
        Some(ParsedCommand::Action(Command::Exit))
    } else if same(first, "START") {
        Some(ParsedCommand::Action(Command::Start))
    } else if same(first, "PAUSE") {
        if written.len() > 1 {
            Some(ParsedCommand::Action(Command::PauseAt(written[1].clone())))
        } else {
            Some(ParsedCommand::Action(Command::Pause))
        }
    } else if same(first, "RESUME") {
        Some(ParsedCommand::Action(Command::Resume))
    } else if same(first, "SETSTATE") {
        if written.len() > 1 {
            Some(ParsedCommand::Action(Command::SetState(written[1].clone())))
        } else {
            None
        }
    } else if same(first, "HITL_RESUME") {
        Some(ParsedCommand::Action(Command::HitlResume))
    } else if same(first, "STATUS") {
        Some(ParsedCommand::Query(QueryType::Status))
    } else if same(first, "STATE") {
        Some(ParsedCommand::Query(QueryType::State))
    } else if same(first, "CONFIG") {
        Some(ParsedCommand::Query(QueryType::Config))
    } else if same(first, "LOGS") {
        let limit: usize = if upper.len() > 1 {
            assert(texts(upper@)[1] == upper@[1]@);
            match parse_number(upper[1].as_str(), usize::MAX as u64) {
                Some(n) => n as usize,
                None => 100,
            }
        } else {
            100
        };
        Some(ParsedCommand::Query(QueryType::Logs(limit)))
    } else if same(first, "WINDOWS") {
        Some(ParsedCommand::Query(QueryType::Windows))
    } else {
        None
    }
}

/// Reads a line of the protocol; its case does not matter.
pub fn parse_command(input: &str) -> (r: Option<ParsedCommand>)
    ensures
        parsed_view(r) == line_meaning(input@),
{
    let written = split_words(input);
    let mut upper: Vec<String> = Vec::new();
    let mut i: usize = 0;
    while i < written.len()
        invariant
            i <= written@.len(),
            upper@.len() == i,
            forall|j: int| 0 <= j < i ==> (#[trigger] upper@[j])@ == upper_case(written@[j]@),
        decreases written@.len() - i,
    {
        upper.push(uppercase(written[i].as_str()));
        i += 1;
    }
    assert(texts(upper@) =~= upper_words(texts(written@)));
    interpret(&upper, &written)
}

/// Two to the power of `n`.
pub open spec fn two_to(n: nat) -> nat
    decreases n,
{
    if n == 0 {
        1
    } else {
        2 * two_to((n - 1) as nat)
    }
}

/// A part of an address or the length of a network prefix: one to three digits, at most `max`.
pub open spec fn short_number(s: Seq<char>, max: nat) -> Option<nat> {
    if s.len() <= 3 && s.len() > 0 && s[0] != '+' {
        parsed(s, max)
    } else {
        None
    }
}

/// One part of a dotted address.
pub open spec fn octet(s: Seq<char>) -> Option<nat> {
    short_number(s, 255)
}

/// The value of a dotted IPv4 address.
pub open spec fn ipv4(s: Seq<char>) -> Option<nat> {
    let p = pieces(s, '.');
    if p.len() == 4 {
        match (octet(p[0]), octet(p[1]), octet(p[2]), octet(p[3])) {
            (Some(a), Some(b), Some(c), Some(d)) => Some(
                a * 16_777_216 + b * 65_536 + c * 256 + d,
            ),
            _ => None,
        }
    } else {
        None
    }
}

/// The value of a hexadecimal digit.
pub open spec fn hex_digit(c: char) -> Option<nat> {
    if '0' <= c <= '9' {
        Some((c as int - '0' as int) as nat)
    } else if 'a' <= c <= 'f' {
        Some((c as int - 'a' as int + 10) as nat)
    } else if 'A' <= c <= 'F' {
        Some((c as int - 'A' as int + 10) as nat)
    } else {
        None
    }
}

/// The value of a run of hexadecimal digits.
pub open spec fn hex_value(s: Seq<char>) -> Option<nat>
    decreases s.len(),
{
    if s.len() == 0 {
        Some(0)
    } else {
        match (hex_value(s.drop_last()), hex_digit(s.last())) {
            (Some(v), Some(d)) => Some(v * 16 + d),
            _ => None,
        }
    }
}

/// One group of an IPv6 address: one to four hexadecimal digits.
pub open spec fn hex_group(s: Seq<char>) -> Option<nat> {
    if 1 <= s.len() <= 4 {
        hex_value(s)
    } else {
        None
    }
}

/// The value of a run of groups.
pub open spec fn groups_value(parts: Seq<Seq<char>>) -> Option<nat>
    decreases parts.len(),
{
    if parts.len() == 0 {
        Some(0)
    } else {
        match (groups_value(parts.drop_last()), hex_group(parts.last())) {
            (Some(v), Some(g)) => Some(v * 65_536 + g),
            _ => None,
        }
    }
}

/// The groups of one side of an IPv6 address.
pub open spec fn side_groups(s: Seq<char>) -> Seq<Seq<char>> {
    if s.len() == 0 {
        Seq::empty()
    } else {
        pieces(s, ':')
    }
}

/// The value of the parts at the end of an IPv6 address, and how many groups they make. The last
/// part may be a dotted IPv4 address, which makes two.
pub open spec fn tail_value(parts: Seq<Seq<char>>) -> Option<(nat, nat)> {
    if parts.len() > 0 && ipv4(parts.last()) is Some {
        match groups_value(parts.drop_last()) {
            Some(v) => Some((v * 4_294_967_296 + ipv4(parts.last())->0, parts.len() + 1)),
            None => None,
        }
    } else {
        match groups_value(parts) {
            Some(v) => Some((v, parts.len())),
            None => None,
        }
    }
}

/// The value of an IPv6 address whose parts before and behind the gap are these.
pub open spec fn with_gap(before: Seq<Seq<char>>, behind: Seq<Seq<char>>) -> Option<nat> {
    match (groups_value(before), tail_value(behind)) {
        (Some(a), Some(b)) => if before.len() + b.1 <= 7 {
            Some(a * two_to((16 * (8 - before.len())) as nat) + b.0)
        } else {
            None
        },
        _ => None,
    }
}

/// Where two colons follow each other for the first time, from `i` on.
pub open spec fn gap_at(s: Seq<char>, i: int) -> Option<int>
    decreases s.len() - i,
{
    if i < 0 || i + 1 >= s.len() {
        None
    } else if s[i] == ':' && s[i + 1] == ':' {
        Some(i)
    } else {
        gap_at(s, i + 1)
    }
}

/// The value of an IPv6 address: eight groups, or fewer with one gap of zeros.
pub open spec fn ipv6(s: Seq<char>) -> Option<nat> {
    match gap_at(s, 0) {
        Some(i) => with_gap(
            side_groups(s.subrange(0, i)),
            side_groups(s.subrange(i + 2, s.len() as int)),
        ),
        None => match tail_value(pieces(s, ':')) {
            Some(v) => if v.1 == 8 {
                Some(v.0)
            } else {
                None
            },
            None => None,
        },
    }
}

/// Two values of `width` bits agree in their first `prefix` bits.
pub open spec fn same_network(a: nat, b: nat, width: nat, prefix: nat) -> bool {
    a / two_to((width - prefix) as nat) == b / two_to((width - prefix) as nat)
}

/// `entry` is a network, such as `172.0.0.0/8` or `fd00::/8`, and `addr` lies in it: the two
/// agree in the bits of the prefix.
pub open spec fn in_network(addr: Seq<char>, entry: Seq<char>) -> bool {
    let p = pieces(entry, '/');
    &&& p.len() == 2
    &&& {
        ||| match (ipv4(addr), ipv4(p[0]), short_number(p[1], 32)) {
            (Some(a), Some(n), Some(bits)) => same_network(a, n, 32, bits),
            _ => false,
        }
        ||| match (ipv6(addr), ipv6(p[0]), short_number(p[1], 128)) {
            (Some(a), Some(n), Some(bits)) => same_network(a, n, 128, bits),
            _ => false,
        }
    }
}

/// An entry of the allow-list admits an address: by name, as a wildcard, as the other form of
/// the loopback address, or as a network.
pub open spec fn admits(entry: Seq<char>, addr: Seq<char>) -> bool {
    let e = trimmed(entry);
    ||| e == "*"@
    ||| e == addr
    ||| e == "127.0.0.1"@ && addr == "::1"@
    ||| e == "::1"@ && addr == "127.0.0.1"@
    ||| in_network(addr, e)
}

/// Some entry of the allow-list admits an address.
pub open spec fn allowed(addr: Seq<char>, control_from: Seq<Seq<char>>) -> bool {
    exists|i: int| 0 <= i < control_from.len() && admits(#[trigger] control_from[i], addr)
}

fn read_short(s: &str, max: u64) -> (r: Option<u64>)
    ensures
        match r {
            Some(n) => short_number(s@, max as nat) == Some(n as nat) && n <= max,
            None => short_number(s@, max as nat) is None,
        },
{
    let n: usize = s.unicode_len();
    if n == 0 || n > 3 || s.get_char(0) == '+' {
        return None;
    }
    parse_number(s, max)
}

fn read_ipv4(s: &str) -> (r: Option<u64>)
    ensures
        match r {
            Some(n) => ipv4(s@) == Some(n as nat) && n < 4_294_967_296,
            None => ipv4(s@) is None,
        },
{
    let parts = split(s, '.');
    if parts.len() != 4 {
        return None;
    }
    proof {
        let p = texts(parts@);
        assert(p[0] == parts@[0]@ && p[1] == parts@[1]@ && p[2] == parts@[2]@ && p[3]
            == parts@[3]@);
    }
    match (
        read_short(parts[0].as_str(), 255),
        read_short(parts[1].as_str(), 255),
        read_short(parts[2].as_str(), 255),
        read_short(parts[3].as_str(), 255),
    ) {
        (Some(a), Some(b), Some(c), Some(d)) => Some(a * 16_777_216 + b * 65_536 + c * 256 + d),
        _ => None,
    }
}

proof fn two_to_127()
    ensures
        two_to(127) == 0x8000_0000_0000_0000_0000_0000_0000_0000,
{
    assert(two_to(32) == 0x1_0000_0000 && two_to(31) == 0x8000_0000) by {
        reveal_with_fuel(two_to, 33);
    }
    two_to_product(32, 32);
    two_to_product(64, 63);
    two_to_product(32, 31);
    assert(two_to(64) == 0x1_0000_0000_0000_0000) by (nonlinear_arith)
        requires
            two_to(64) == two_to(32) * two_to(32),
            two_to(32) == 0x1_0000_0000,
    ;
    assert(two_to(63) == 0x8000_0000_0000_0000) by (nonlinear_arith)
        requires
            two_to(63) == two_to(32) * two_to(31),
            two_to(32) == 0x1_0000_0000,
            two_to(31) == 0x8000_0000,
    ;
    assert(two_to(127) == 0x8000_0000_0000_0000_0000_0000_0000_0000) by (nonlinear_arith)
        requires
            two_to(127) == two_to(64) * two_to(63),
            two_to(64) == 0x1_0000_0000_0000_0000,
            two_to(63) == 0x8000_0000_0000_0000,
    ;
}

proof fn two_to_product(a: nat, b: nat)
    ensures
        two_to(a + b) == two_to(a) * two_to(b),
    decreases a,
{
    if a > 0 {
        two_to_product((a - 1) as nat, b);
        let (x, y) = (two_to((a - 1) as nat), two_to(b));
        assert(two_to(a + b) == 2 * two_to((a + b - 1) as nat));
        assert((a + b - 1) as nat == (a - 1) as nat + b);
        assert(2 * (x * y) == (2 * x) * y) by (nonlinear_arith);
    } else {
        assert(two_to(0) == 1);
    }
}

proof fn two_to_grows(a: nat, b: nat)
    requires
        a <= b,
    ensures
        0 < two_to(a) <= two_to(b),
    decreases b,
{
    if a < b {
        two_to_grows(a, (b - 1) as nat);
    } else if a > 0 {
        two_to_grows((a - 1) as nat, (b - 1) as nat);
    }
}

fn power_of_two(n: u64) -> (r: u128)
    requires
        n <= 127,
    ensures
        r == two_to(n as nat),
        0 < r,
{
    let mut p: u128 = 1;
    let mut i: u64 = 0;
    while i < n
        invariant
            i <= n <= 127,
            p == two_to(i as nat),
        decreases n - i,
    {
        proof {
            two_to_127();
            two_to_grows((i + 1) as nat, 127);
        }
        p = p * 2;
        i += 1;
    }
    proof {
        two_to_grows(n as nat, n as nat);
    }
    p
}

fn read_hex_digit(c: char) -> (r: Option<u128>)
    ensures
        match r {
            Some(n) => hex_digit(c) == Some(n as nat) && n < 16,
            None => hex_digit(c) is None,
        },
{
    let n: u32 = c as u32;
    if 48 <= n && n <= 57 {
        Some((n - 48) as u128)
    } else if 97 <= n && n <= 102 {
        Some((n - 87) as u128)
    } else if 65 <= n && n <= 70 {
        Some((n - 55) as u128)
    } else {
        None
    }
}

proof fn hex_value_fails(s: Seq<char>, n: int)
    requires
        0 <= n <= s.len(),
        hex_value(s.subrange(0, n)) is None,
    ensures
        hex_value(s) is None,
    decreases s.len() - n,
{
    if n < s.len() {
        assert(s.subrange(0, n + 1).drop_last() =~= s.subrange(0, n));
        hex_value_fails(s, n + 1);
    } else {
        assert(s.subrange(0, n) =~= s);
    }
}

fn read_group(s: &str) -> (r: Option<u128>)
    ensures
        match r {
            Some(n) => hex_group(s@) == Some(n as nat) && n < 65_536,
            None => hex_group(s@) is None,
        },
{
    let v = chars_of(s);
    let n: usize = v.len();
    if n == 0 || n > 4 {
        return None;
    }
    let mut value: u128 = 0;
    let mut limit: u128 = 1;
    let mut i: usize = 0;
    assert(v@.subrange(0, 0) =~= Seq::<char>::empty());
    while i < n
        invariant
            i <= n <= 4,
            n == v@.len(),
            v@ == s@,
            hex_value(v@.subrange(0, i as int)) == Some(value as nat),
            value < limit,
            limit == if i == 0 {
                1u128
            } else if i == 1 {
                16
            } else if i == 2 {
                256
            } else if i == 3 {
                4096
            } else {
                65_536
            },
        decreases n - i,
    {
        proof {
            assert(v@.subrange(0, i + 1).drop_last() =~= v@.subrange(0, i as int));
            assert(v@.subrange(0, i + 1).last() == v@[i as int]);
        }
        match read_hex_digit(v[i]) {
            Some(d) => {
                value = value * 16 + d;
                limit = limit * 16;
            },
            None => {
                proof {
                    hex_value_fails(v@, i + 1);
                }
                return None;
            },
        }
        i += 1;
    }
    assert(v@.subrange(0, i as int) =~= s@);
    Some(value)
}

proof fn groups_value_fails(parts: Seq<Seq<char>>, n: int)
    requires
        0 <= n <= parts.len(),
        groups_value(parts.subrange(0, n)) is None,
    ensures
        groups_value(parts) is None,
    decreases parts.len() - n,
{
    if n < parts.len() {
        assert(parts.subrange(0, n + 1).drop_last() =~= parts.subrange(0, n));
        groups_value_fails(parts, n + 1);
    } else {
        assert(parts.subrange(0, n) =~= parts);
    }
}

/// Another group fits behind `n` groups.
proof fn shift_fits(value: nat, group: nat, n: nat)
    requires
        value < two_to(16 * n),
        group < 65_536,
        n < 8,
    ensures
        value * 65_536 + group < two_to(16 * (n + 1)),
        two_to(16 * (n + 1)) <= u128::MAX + 1,
{
    assert(two_to(16) == 65_536) by {
        reveal_with_fuel(two_to, 17);
    }
    two_to_product(16 * n, 16);
    assert(two_to(16 * (n + 1)) == two_to(16 * n) * 65_536);
    let t = two_to(16 * n);
    assert(value * 65_536 + group < t * 65_536) by (nonlinear_arith)
        requires
            value < t,
            group < 65_536,
    ;
    two_to_127();
    two_to_grows(16 * (n + 1), 128);
    assert(two_to(128) == 2 * two_to(127));
}

/// Reads the first `n` parts as groups.
fn read_groups(parts: &Vec<String>, n: usize) -> (r: Option<u128>)
    requires
        n <= parts@.len(),
        n <= 8,
    ensures
        match r {
            Some(v) => groups_value(texts(parts@).subrange(0, n as int)) == Some(v as nat) && v
                < two_to((16 * n) as nat),
            None => groups_value(texts(parts@).subrange(0, n as int)) is None,
        },
{
    let ghost all = texts(parts@).subrange(0, n as int);
    let mut value: u128 = 0;
    let mut i: usize = 0;
    assert(all.subrange(0, 0) =~= Seq::<Seq<char>>::empty());
    while i < n
        invariant
            i <= n <= 8,
            n <= parts@.len(),
            all == texts(parts@).subrange(0, n as int),
            groups_value(all.subrange(0, i as int)) == Some(value as nat),
            value < two_to((16 * i) as nat),
        decreases n - i,
    {
        proof {
            assert(all.subrange(0, i + 1).drop_last() =~= all.subrange(0, i as int));
            assert(all.subrange(0, i + 1).last() == parts@[i as int]@);
        }
        match read_group(parts[i].as_str()) {
            Some(g) => {
                proof {
                    shift_fits(value as nat, g as nat, i as nat);
                }
                value = value * 65_536 + g;
            },
            None => {
                proof {
                    groups_value_fails(all, i + 1);
                }
                return None;
            },
        }
        i += 1;
    }
    assert(all.subrange(0, i as int) =~= all);
    Some(value)
}

/// A dotted tail fits behind `n` groups.
proof fn dotted_tail_fits(value: nat, tail: nat, n: nat)
    requires
        value < two_to(16 * n),
        tail < 4_294_967_296,
        n <= 6,
    ensures
        value * 4_294_967_296 + tail < two_to(16 * (n + 2)),
        two_to(16 * (n + 2)) <= u128::MAX + 1,
{
    assert(two_to(32) == 4_294_967_296) by {
        reveal_with_fuel(two_to, 33);
    }
    two_to_product(16 * n, 32);
    let t = two_to(16 * n);
    assert(two_to(16 * (n + 2)) == t * 4_294_967_296);
    assert(value * 4_294_967_296 + tail < t * 4_294_967_296) by (nonlinear_arith)
        requires
            value < t,
            tail < 4_294_967_296,
    ;
    two_to_127();
    two_to_grows(16 * (n + 2), 128);
    assert(two_to(128) == 2 * two_to(127));
}

/// Reads the parts at the end of an address, where they make eight groups at most.
fn read_tail(parts: &Vec<String>) -> (r: Option<(u128, usize)>)
    ensures
        match r {
            Some(v) => tail_value(texts(parts@)) == Some((v.0 as nat, v.1 as nat)) && v.1 <= 8 && v.0
                < two_to((16 * v.1) as nat),
            None => tail_value(texts(parts@)) matches Some(v) ==> v.1 > 8,
        },
{
    let n: usize = parts.len();
    if n > 8 {
        return None;
    }
    let ghost all = texts(parts@);
    assert(all.subrange(0, n as int) =~= all);
    if n > 0 {
        assert(all.last() == parts@[n - 1]@);
        assert(all.subrange(0, n - 1) =~= all.drop_last());
        if let Some(tail) = read_ipv4(parts[n - 1].as_str()) {
            if n > 7 {
                return None;
            }
            return match read_groups(parts, n - 1) {
                Some(v) => {
                    proof {
                        dotted_tail_fits(v as nat, tail as nat, (n - 1) as nat);
                    }
                    Some((v * 4_294_967_296 + tail as u128, n + 1))
                },
                None => None,
            };
        }
    }
    match read_groups(parts, n) {
        Some(v) => Some((v, n)),
        None => None,
    }
}

fn find_gap(v: &Vec<char>) -> (r: Option<usize>)
    ensures
        match r {
            Some(i) => gap_at(v@, 0) == Some(i as int) && i + 1 < v@.len(),
            None => gap_at(v@, 0) is None,
        },
{
    let n: usize = v.len();
    let mut i: usize = 0;
    while i < n && i + 1 < n
        invariant
            i <= n,
            n == v@.len(),
            gap_at(v@, i as int) == gap_at(v@, 0),
        decreases n - i,
    {
        if v[i] == ':' && v[i + 1] == ':' {
            return Some(i);
        }
        i += 1;
    }
    None
}

fn read_side(v: &Vec<char>, from: usize, to: usize) -> (r: Vec<String>)
    requires
        from <= to <= v@.len(),
    ensures
        texts(r@) == side_groups(v@.subrange(from as int, to as int)),
{
    if from == to {
        let r: Vec<String> = Vec::new();
        assert(texts(r@) =~= Seq::<Seq<char>>::empty());
        r
    } else {
        let s = text_of(v, from, to);
        split(s.as_str(), ':')
    }
}

fn read_ipv6(s: &str) -> (r: Option<u128>)
    ensures
        match r {
            Some(n) => ipv6(s@) == Some(n as nat),
            None => ipv6(s@) is None,
        },
{
    let v = chars_of(s);
    let total: usize = v.len();
    match find_gap(&v) {
        Some(i) => {
            let before = read_side(&v, 0, i);
            let behind = read_side(&v, i + 2, total);
            let n: usize = before.len();
            if n > 7 {
                return None;
            }
            assert(texts(before@).subrange(0, n as int) =~= texts(before@));
            match (read_groups(&before, n), read_tail(&behind)) {
                (Some(a), Some((b, k))) => {
                    if n + k > 7 {
                        return None;
                    }
                    proof {
                        gap_fits(a as nat, b as nat, n as nat, k as nat);
                    }
                    if n == 0 {
                        assert(a == 0);
                        assert(a * two_to(128) == 0) by (nonlinear_arith)
                            requires
                                a == 0,
                        ;
                        Some(b)
                    } else {
                        let shift: u128 = power_of_two(16 * (8 - n as u64));
                        Some(a * shift + b)
                    }
                },
                _ => None,
            }
        },
        None => {
            let parts = split(s, ':');
            match read_tail(&parts) {
                Some((v, k)) => if k == 8 {
                    Some(v)
                } else {
                    None
                },
                None => None,
            }
        },
    }
}

proof fn gap_fits(a: nat, b: nat, n: nat, k: nat)
    requires
        n + k <= 7,
        a < two_to(16 * n),
        b < two_to(16 * k),
    ensures
        n == 0 ==> a == 0,
        a * two_to((16 * (8 - n)) as nat) + b <= u128::MAX,
        a * two_to((16 * (8 - n)) as nat) <= u128::MAX,
{
    let shift = two_to((16 * (8 - n)) as nat);
    let top = two_to(16 * n);
    two_to_product(16 * n, (16 * (8 - n)) as nat);
    two_to_127();
    assert(two_to(128) == 2 * two_to(127));
    assert(two_to(128) == top * shift);
    two_to_grows(16 * k, (16 * (8 - n)) as nat);
    assert(a * shift + b < top * shift) by (nonlinear_arith)
        requires
            a + 1 <= top,
            b < shift,
    ;
    assert(two_to(0) == 1);
    assert(a * shift >= 0) by (nonlinear_arith)
        requires
            a >= 0,
            shift >= 0,
    ;
}

fn agree(a: u128, b: u128, drop: u64) -> (r: bool)
    requires
        drop <= 127,
    ensures
        r == (a as nat / two_to(drop as nat) == b as nat / two_to(drop as nat)),
{
    let size: u128 = power_of_two(drop);
    a / size == b / size
}

/// Any two addresses agree in no bits at all.
proof fn whole_range(a: u128, b: u128)
    ensures
        same_network(a as nat, b as nat, 128, 0),
{
    two_to_127();
    assert(two_to(128) == 2 * two_to(127));
    assert(a as nat / two_to(128) == 0) by (nonlinear_arith)
        requires
            (a as nat) < two_to(128),
    ;
    assert(b as nat / two_to(128) == 0) by (nonlinear_arith)
        requires
            (b as nat) < two_to(128),
    ;
}

fn network_holds(addr: &str, entry: &str) -> (r: bool)
    ensures
        r == in_network(addr@, entry@),
{
    let parts = split(entry, '/');
    if parts.len() != 2 {
        return false;
    }
    proof {
        assert(texts(parts@)[0] == parts@[0]@ && texts(parts@)[1] == parts@[1]@);
    }
    let four: bool = match (
        read_ipv4(addr),
        read_ipv4(parts[0].as_str()),
        read_short(parts[1].as_str(), 32),
    ) {
        (Some(a), Some(n), Some(bits)) => agree(a as u128, n as u128, 32 - bits),
        _ => false,
    };
    let six: bool = match (
        read_ipv6(addr),
        read_ipv6(parts[0].as_str()),
        read_short(parts[1].as_str(), 128),
    ) {
        (Some(a), Some(n), Some(bits)) => {
            if bits == 0 {
                proof {
                    whole_range(a, n);
                }
                true
            } else {
                agree(a, n, 128 - bits)
            }
        },
        _ => false,
    };
    four || six
}

fn entry_admits(entry: &str, addr: &str) -> (r: bool)
    ensures
        r == admits(entry@, addr@),
{
    let e = trim(entry);
    let e = e.as_str();
    same(e, "*") || same(e, addr) || (same(e, "127.0.0.1") && same(addr, "::1")) || (same(e, "::1")
        && same(addr, "127.0.0.1")) || network_holds(addr, e)
}

/// Whether the allow-list admits an address. An empty list admits none.
pub fn is_allowed(addr: &str, control_from: &Vec<String>) -> (r: bool)
    ensures
        r == allowed(addr@, texts(control_from@)),
{
    let mut i: usize = 0;
    let ghost list = texts(control_from@);
    while i < control_from.len()
        invariant
            i <= control_from@.len(),
            list == texts(control_from@),
            forall|j: int| 0 <= j < i ==> !admits(#[trigger] list[j], addr@),
        decreases control_from@.len() - i,
    {
        assert(list[i as int] == control_from@[i as int]@);
        if entry_admits(control_from[i].as_str(), addr) {
            return true;
        }
        i += 1;
    }
    false
}

/// An address of this host.
pub open spec fn is_local(addr: Seq<char>) -> bool {
    addr == "127.0.0.1"@ || addr == "::1"@
}

/// A command that only this host may give.
pub open spec fn is_privileged(p: ParsedModel) -> bool {
    match p {
        ParsedModel::Action(CommandModel::SetState(_)) => true,
        ParsedModel::Action(CommandModel::HitlResume) => true,
        _ => false,
    }
}

/// Whether a command may only come from this host.
pub fn is_privileged_command(p: &ParsedCommand) -> (r: bool)
    ensures
        r == is_privileged(p@),
{
    matches!(p, ParsedCommand::Action(Command::SetState(_) | Command::HitlResume))
}

/// What is done about a connection.
#[derive(Debug)]
pub enum Verdict {
    /// Answer with this line and do nothing else.
    Refuse(String),
    /// Hand the command to the machine, and answer with this line once it was taken.
    Execute(Command, String),
    /// Answer the question.
    Answer(QueryType),
}

/// What is done about a connection, as a mathematical value.
pub enum VerdictModel {
    Refuse(Seq<char>),
    Execute(CommandModel, Seq<char>),
    Answer(QueryType),
}

impl View for Verdict {
    type V = VerdictModel;

    open spec fn view(&self) -> VerdictModel {
        match self {
            Verdict::Refuse(t) => VerdictModel::Refuse(t@),
            Verdict::Execute(c, t) => VerdictModel::Execute(c@, t@),
            Verdict::Answer(q) => VerdictModel::Answer(*q),
        }
    }
}

/// The answer to a command that was taken.
pub open spec fn accepted_text(line: Seq<char>) -> Seq<char> {
    "OK "@ + upper_case(trimmed(line)) + "\n"@
}

/// The answer to a line that is not understood.
pub open spec fn unknown_text(line: Seq<char>) -> Seq<char> {
    "ERROR unknown command: "@ + trimmed(line) + "\n"@
}

/// What is done about a line that means `p`, from an address that is admitted.
pub open spec fn verdict_on(p: Option<ParsedModel>, addr: Seq<char>, line: Seq<char>) -> VerdictModel {
    match p {
        None => VerdictModel::Refuse(unknown_text(line)),
        Some(x) => if is_privileged(x) && !is_local(addr) {
            VerdictModel::Refuse("ERROR not authorized\n"@)
        } else {
            match x {
                ParsedModel::Action(c) => VerdictModel::Execute(c, accepted_text(line)),
                ParsedModel::Query(q) => VerdictModel::Answer(q),
            }
        },
    }
}

/// What is done about a line from an address.
pub open spec fn connection_verdict(
    addr: Seq<char>,
    control_from: Seq<Seq<char>>,
    line: Seq<char>,
) -> VerdictModel {
    if allowed(addr, control_from) {
        verdict_on(line_meaning(line), addr, line)
    } else {
        VerdictModel::Refuse("ERROR not authorized\n"@)
    }
}

/// The answer to an address that the allow-list does not admit.
pub fn not_authorized() -> (r: String)
    ensures
        r@ == "ERROR not authorized\n"@,
{
    copy_of("ERROR not authorized\n")
}

/// What is done about a line that was understood as `parsed`, from an address that is
/// admitted.
pub fn judge(parsed: Option<ParsedCommand>, addr: &str, line: &str) -> (r: Verdict)
    ensures
        r@ == verdict_on(parsed_view(parsed), addr@, line@),
{
    let trimmed_line = trim(line);
    match parsed {
        None => {
            let mut s = copy_of("ERROR unknown command: ");
            s.append(trimmed_line.as_str());
            s.append("\n");
            Verdict::Refuse(s)
        },
        Some(p) => {
            if is_privileged_command(&p) && !(same(addr, "127.0.0.1") || same(addr, "::1")) {
                return Verdict::Refuse(not_authorized());
            }
            match p {
                ParsedCommand::Action(c) => {
                    let mut s = copy_of("OK ");
                    s.append(uppercase(trimmed_line.as_str()).as_str());
                    s.append("\n");
                    Verdict::Execute(c, s)
                },
                ParsedCommand::Query(q) => Verdict::Answer(q),
            }
        },
    }
}

/// What is done about a line from an address.
pub fn handle_connection(addr: &str, control_from: &Vec<String>, line: &str) -> (r: Verdict)
    ensures
        r@ == connection_verdict(addr@, texts(control_from@), line@),
{
    if !is_allowed(addr, control_from) {
        return Verdict::Refuse(not_authorized());
    }
    judge(parse_command(line), addr, line)
}

/// How a question or a command ended that was handed to the machine.
#[derive(Debug)]
pub enum Delivery {
    /// The answer of the machine.
    Answered(String),
    /// The machine dropped the question.
    Dropped,
    TimedOut,
    /// The machine takes no more questions.
    QueriesClosed,
    /// The machine takes no more commands.
    CommandsClosed,
}

/// The line that tells a client how its question or command ended.
pub fn delivery_text(d: &Delivery) -> (r: String)
    ensures
        r@ == match *d {
            Delivery::Answered(json) => "OK "@ + json@ + "\n"@,
            Delivery::Dropped => "ERROR query response channel dropped\n"@,
            Delivery::TimedOut => "ERROR query timeout\n"@,
            Delivery::QueriesClosed => "ERROR query channel closed\n"@,
            Delivery::CommandsClosed => "ERROR command channel closed\n"@,
        },
{
    match d {
        Delivery::Answered(json) => {
            let mut s = copy_of("OK ");
            s.append(json.as_str());
            s.append("\n");
            s
        },
        Delivery::Dropped => copy_of("ERROR query response channel dropped\n"),
        Delivery::TimedOut => copy_of("ERROR query timeout\n"),
        Delivery::QueriesClosed => copy_of("ERROR query channel closed\n"),
        Delivery::CommandsClosed => copy_of("ERROR command channel closed\n"),
    }
}

/// The command server's side of the protocol.
#[derive(Debug)]
pub struct CommandServer {
    config: CommandServerConfig,
}

impl CommandServer {
    /// The configuration of the server.
    pub closed spec fn settings(&self) -> CommandServerConfig {
        self.config
    }

    pub fn new(config: CommandServerConfig) -> (r: Self)
        ensures
            r.settings() == config,
    {
        Self { config }
    }

    /// The address to listen on.
    pub fn address(&self) -> (r: String)
        ensures
            r@ == self.settings().bind_address@ + ":"@ + decimal(self.settings().port as nat),
    {
        let mut s = self.config.bind_address.clone();
        s.append(":");
        push_decimal(&mut s, self.config.port as u64);
        s
    }

    /// Whether an address may talk to the server.
    pub fn admits(&self, addr: &str) -> (r: bool)
        ensures
            r == allowed(addr@, texts(self.settings().control_from@)),
    {
        is_allowed(addr, &self.config.control_from)
    }

    /// What is done about a line from an address.
    pub fn respond(&self, addr: &str, line: &str) -> (r: Verdict)
        ensures
            r@ == connection_verdict(addr@, texts(self.settings().control_from@), line@),
    {
        handle_connection(addr, &self.config.control_from, line)
    }
}

/// The commands whose names alone decide what they mean.
pub open spec fn stands_alone(name: Seq<char>) -> bool {
    ||| name == "STOP"@
    ||| name == "RESTART"@
    ||| name == "RECONNECTDATA"@
    ||| name == "RECONNECTACCOUNT"@
    ||| name == "ENABLEAPI"@
    ||| name == "EXIT"@
    ||| name == "START"@
    ||| name == "RESUME"@
    ||| name == "HITL_RESUME"@
    ||| name == "STATUS"@
    ||| name == "STATE"@
    ||| name == "CONFIG"@
    ||| name == "WINDOWS"@
}

/// The words of two lines are the same up to their case.
pub open spec fn same_words(x: Seq<char>, y: Seq<char>) -> bool {
    &&& words(x).len() == words(y).len()
    &&& forall|i: int|
        0 <= i < words(x).len() ==> upper_case(#[trigger] words(x)[i]) == upper_case(words(y)[i])
}

/// A command whose name alone decides is understood, and neither the case of its name nor what
/// stands behind it makes a difference.
pub proof fn further_words_do_not_matter(x: Seq<char>, y: Seq<char>)
    requires
        words(x).len() > 0,
        words(y).len() > 0,
        upper_case(words(x)[0]) == upper_case(words(y)[0]),
        stands_alone(upper_case(words(x)[0])),
    ensures
        line_meaning(x) is Some,
        line_meaning(x) == line_meaning(y),
{
    assert(upper_words(words(x))[0] == upper_words(words(y))[0]);
    logs_stands_not_alone();
}

/// Two lines with the same words up to case mean the same, for every command that does not
/// carry the name of a state; neither case nor white space makes a difference.
pub proof fn case_does_not_matter(x: Seq<char>, y: Seq<char>)
    requires
        same_words(x, y),
        words(x).len() > 0,
        stands_alone(upper_case(words(x)[0])) || upper_case(words(x)[0]) == "LOGS"@,
    ensures
        line_meaning(x) is Some,
        line_meaning(x) == line_meaning(y),
{
    assert(upper_words(words(x)) =~= upper_words(words(y))) by {
        assert forall|i: int| 0 <= i < words(x).len() implies upper_words(words(x))[i]
            == upper_words(words(y))[i] by {
            assert(upper_case(words(x)[i]) == upper_case(words(y)[i]));
        }
    }
    assert(upper_words(words(x))[0] == upper_case(words(x)[0]));
    logs_stands_not_alone();
}

proof fn logs_stands_not_alone()
    ensures
        "PAUSE"@ != "LOGS"@,
        "SETSTATE"@ != "LOGS"@,
        !stands_alone("LOGS"@),
        !stands_alone("PAUSE"@),
        !stands_alone("SETSTATE"@),
{
    reveal_strlit("STOP");
    reveal_strlit("RESTART");
    reveal_strlit("RECONNECTDATA");
    reveal_strlit("RECONNECTACCOUNT");
    reveal_strlit("ENABLEAPI");
    reveal_strlit("EXIT");
    reveal_strlit("START");
    reveal_strlit("PAUSE");
    reveal_strlit("RESUME");
    reveal_strlit("SETSTATE");
    reveal_strlit("HITL_RESUME");
    reveal_strlit("STATUS");
    reveal_strlit("STATE");
    reveal_strlit("CONFIG");
    reveal_strlit("LOGS");
    reveal_strlit("WINDOWS");
    // Texts of the same length differ in one of these characters.
    assert("LOGS"@[0] == 'L');
    assert("PAUSE"@[0] == 'P');
    assert("SETSTATE"@[1] == 'E' && "SETSTATE"@[2] == 'T');
}

/// Nobody is admitted by an empty allow-list, and everybody by a wildcard.
pub proof fn empty_list_rejects_all(addr: Seq<char>)
    ensures
        !allowed(addr, Seq::empty()),
        allowed(addr, seq!["*"@]),
{
    reveal_strlit("*");
    assert(trimmed("*"@) =~= "*"@) by {
        reveal_with_fuel(crate::text::skip_leading, 2);
        reveal_with_fuel(crate::text::skip_trailing, 2);
    }
    assert(admits(seq!["*"@][0], addr));
}

/// An address that is not admitted gets no command through, whatever it sends.
pub proof fn rejected_addresses_command_nothing(
    addr: Seq<char>,
    control_from: Seq<Seq<char>>,
    line: Seq<char>,
)
    requires
        !allowed(addr, control_from),
    ensures
        connection_verdict(addr, control_from, line) == VerdictModel::Refuse(
            "ERROR not authorized\n"@,
        ),
{
}

/// Only this host can force a state or end the wait for the operator.
pub proof fn privileged_commands_are_local(
    addr: Seq<char>,
    control_from: Seq<Seq<char>>,
    line: Seq<char>,
)
    ensures
        connection_verdict(addr, control_from, line) matches VerdictModel::Execute(c, t) ==> (
        (c is SetState || c is HitlResume) ==> is_local(addr)),
{
}

/// The commands of the protocol mean what they say.
pub proof fn commands_mean_what_they_say(upper: Seq<Seq<char>>, written: Seq<Seq<char>>)
    requires
        upper.len() > 0,
    ensures
        ({
            let m = meaning(upper, written);
            let w = upper[0];
            &&& w == "STOP"@ ==> m == Some(ParsedModel::Action(CommandModel::Stop))
            &&& w == "RESTART"@ ==> m == Some(ParsedModel::Action(CommandModel::Restart))
            &&& w == "RECONNECTDATA"@ ==> m == Some(ParsedModel::Action(CommandModel::ReconnectData))
            &&& w == "RECONNECTACCOUNT"@ ==> m == Some(
                ParsedModel::Action(CommandModel::ReconnectAccount),
            )
            &&& w == "ENABLEAPI"@ ==> m == Some(ParsedModel::Action(CommandModel::EnableApi))
            &&& w == "EXIT"@ ==> m == Some(ParsedModel::Action(CommandModel::Exit))
            &&& w == "START"@ ==> m == Some(ParsedModel::Action(CommandModel::Start))
            &&& w == "RESUME"@ ==> m == Some(ParsedModel::Action(CommandModel::Resume))
            &&& w == "HITL_RESUME"@ ==> m == Some(ParsedModel::Action(CommandModel::HitlResume))
            &&& w == "STATUS"@ ==> m == Some(ParsedModel::Query(QueryType::Status))
            &&& w == "STATE"@ ==> m == Some(ParsedModel::Query(QueryType::State))
            &&& w == "CONFIG"@ ==> m == Some(ParsedModel::Query(QueryType::Config))
            &&& w == "WINDOWS"@ ==> m == Some(ParsedModel::Query(QueryType::Windows))
            &&& w == "PAUSE"@ && written.len() <= 1 ==> m == Some(
                ParsedModel::Action(CommandModel::Pause),
            )
            &&& w == "PAUSE"@ && written.len() > 1 ==> m == Some(
                ParsedModel::Action(CommandModel::PauseAt(written[1])),
            )
            &&& w == "SETSTATE"@ && written.len() > 1 ==> m == Some(
                ParsedModel::Action(CommandModel::SetState(written[1])),
            )
            &&& w == "SETSTATE"@ && written.len() <= 1 ==> m is None
            &&& w == "LOGS"@ ==> m == Some(
                ParsedModel::Query(
                    QueryType::Logs(
                        if upper.len() > 1 && parsed(upper[1], usize::MAX as nat) is Some {
                            parsed(upper[1], usize::MAX as nat)->0 as usize
                        } else {
                            100
                        },
                    ),
                ),
            )
            &&& !stands_alone(w) && w != "PAUSE"@ && w != "SETSTATE"@ && w != "LOGS"@ ==> m is None
        }),
        meaning(Seq::empty(), written) is None,
{
    command_names_differ();
}

proof fn command_names_differ()
    ensures
        "STOP"@.len() == 4 && "EXIT"@.len() == 4 && "LOGS"@.len() == 4,
        "START"@.len() == 5 && "PAUSE"@.len() == 5 && "STATE"@.len() == 5,
        "RESUME"@.len() == 6 && "STATUS"@.len() == 6 && "CONFIG"@.len() == 6,
        "RESTART"@.len() == 7 && "WINDOWS"@.len() == 7 && "SETSTATE"@.len() == 8,
        "ENABLEAPI"@.len() == 9 && "HITL_RESUME"@.len() == 11,
        "RECONNECTDATA"@.len() == 13 && "RECONNECTACCOUNT"@.len() == 16,
        "STOP"@ != "EXIT"@ && "STOP"@ != "LOGS"@ && "EXIT"@ != "LOGS"@,
        "START"@ != "PAUSE"@ && "START"@ != "STATE"@ && "PAUSE"@ != "STATE"@,
        "RESUME"@ != "STATUS"@ && "RESUME"@ != "CONFIG"@ && "STATUS"@ != "CONFIG"@,
        "RESTART"@ != "WINDOWS"@,
{
    reveal_strlit("STOP");
    reveal_strlit("RESTART");
    reveal_strlit("RECONNECTDATA");
    reveal_strlit("RECONNECTACCOUNT");
    reveal_strlit("ENABLEAPI");
    reveal_strlit("EXIT");
    reveal_strlit("START");
    reveal_strlit("PAUSE");
    reveal_strlit("RESUME");
    reveal_strlit("SETSTATE");
    reveal_strlit("HITL_RESUME");
    reveal_strlit("STATUS");
    reveal_strlit("STATE");
    reveal_strlit("CONFIG");
    reveal_strlit("LOGS");
    reveal_strlit("WINDOWS");
    assert("STOP"@[0] == 'S' && "EXIT"@[0] == 'E' && "LOGS"@[0] == 'L');
    assert("START"@[0] == 'S' && "PAUSE"@[0] == 'P' && "STATE"@[0] == 'S');
    assert("START"@[3] == 'R' && "STATE"@[3] == 'T');
    assert("RESUME"@[0] == 'R' && "STATUS"@[0] == 'S' && "CONFIG"@[0] == 'C');
    assert("RESTART"@[0] == 'R' && "WINDOWS"@[0] == 'W');
}

/// Who is admitted: everybody by a wildcard, an address by itself, each form of the loopback
/// address by the other, and an address by a network that holds it; white space round an entry
/// does not matter, and one entry that admits is enough.
pub proof fn entries_admit(entry: Seq<char>, addr: Seq<char>, list: Seq<Seq<char>>, i: int)
    ensures
        trimmed(entry) == "*"@ ==> admits(entry, addr),
        trimmed(entry) == addr ==> admits(entry, addr),
        trimmed(entry) == "127.0.0.1"@ ==> admits(entry, "::1"@),
        trimmed(entry) == "::1"@ ==> admits(entry, "127.0.0.1"@),
        in_network(addr, trimmed(entry)) ==> admits(entry, addr),
        admits(entry, addr) ==> trimmed(entry) == "*"@ || trimmed(entry) == addr || in_network(
            addr,
            trimmed(entry),
        ) || (trimmed(entry) == "127.0.0.1"@ && addr == "::1"@) || (trimmed(entry) == "::1"@ && addr
            == "127.0.0.1"@),
        0 <= i < list.len() && admits(list[i], addr) ==> allowed(addr, list),
        (forall|k: int| 0 <= k < list.len() ==> !admits(#[trigger] list[k], addr)) ==> !allowed(
            addr,
            list,
        ),
{
}

/// A dotted address is the number that its four parts make to the base 256.
pub proof fn dotted_addresses_are_numbers(a: u8, b: u8, c: u8, d: u8)
    ensures
        ipv4(
            decimal(a as nat).push('.') + (decimal(b as nat).push('.') + (decimal(c as nat).push('.')
                + decimal(d as nat))),
        ) == Some((((a * 256 + b) * 256 + c) * 256 + d) as nat),
{
    let (pa, pb, pc, pd) = (
        decimal(a as nat),
        decimal(b as nat),
        decimal(c as nat),
        decimal(d as nat),
    );
    short_decimal(a as nat);
    short_decimal(b as nat);
    short_decimal(c as nat);
    short_decimal(d as nat);
    crate::text::pieces_of_one(pa, '.');
    crate::text::pieces_of_one(pb, '.');
    crate::text::pieces_of_one(pc, '.');
    crate::text::pieces_of_one(pd, '.');
    crate::text::pieces_of_joined(pc, pd, '.');
    crate::text::pieces_of_joined(pb, pc.push('.') + pd, '.');
    crate::text::pieces_of_joined(pa, pb.push('.') + (pc.push('.') + pd), '.');
    let s = pa.push('.') + (pb.push('.') + (pc.push('.') + pd));
    assert(pieces(s, '.') =~= seq![pa, pb, pc, pd]);
}

proof fn short_decimal(n: nat)
    requires
        n <= 255,
    ensures
        octet(decimal(n)) == Some(n),
        forall|i: int| 0 <= i < decimal(n).len() ==> #[trigger] decimal(n)[i] != '.',
{
    crate::text::decimal_reads_back(n);
    crate::text::parsed_decimal(n, 255);
    reveal_with_fuel(decimal, 4);
    assert(crate::text::is_digit(decimal(n)[0]));
    assert forall|i: int| 0 <= i < decimal(n).len() implies #[trigger] decimal(n)[i] != '.' by {
        assert(crate::text::is_digit(decimal(n)[i]));
    }
}

/// Two addresses lie in the same network of a width exactly when cutting the bits behind the
/// prefix off leaves the same: with no prefix all do, with a full one only the same, and those
/// that share a longer prefix share the shorter.
pub proof fn networks_nest(a: nat, b: nat, width: nat, prefix: nat)
    requires
        prefix < width,
        a < two_to(width),
        b < two_to(width),
    ensures
        same_network(a, b, width, 0),
        same_network(a, b, width, width) <==> a == b,
        same_network(a, b, width, prefix + 1) ==> same_network(a, b, width, prefix),
{
    assert(two_to(0) == 1 && two_to((width - width) as nat) == 1);
    assert(a / 1 == a && b / 1 == b);
    assert(a / two_to(width) == 0) by (nonlinear_arith)
        requires
            a < two_to(width),
    ;
    assert(b / two_to(width) == 0) by (nonlinear_arith)
        requires
            b < two_to(width),
    ;
    let small = two_to((width - prefix - 1) as nat);
    let big = two_to((width - prefix) as nat);
    two_to_grows(0, (width - prefix - 1) as nat);
    assert(big == small * 2);
    vstd::arithmetic::div_mod::lemma_div_denominator(a as int, small as int, 2);
    vstd::arithmetic::div_mod::lemma_div_denominator(b as int, small as int, 2);
}

/// Powers of two double.
pub proof fn powers_double(n: nat)
    ensures
        two_to(0) == 1,
        two_to(n + 1) == 2 * two_to(n),
{
}

/// What is done about a line: an address that is not admitted is refused; a line that is not
/// understood is refused with its text; a privileged command is refused from elsewhere; every
/// other command is handed on and answered with its name in upper case, and every question is
/// answered.
pub proof fn lines_are_judged(addr: Seq<char>, list: Seq<Seq<char>>, line: Seq<char>)
    ensures
        ({
            let v = connection_verdict(addr, list, line);
            let local = addr == "127.0.0.1"@ || addr == "::1"@;
            let refused = VerdictModel::Refuse("ERROR not authorized\n"@);
            &&& !allowed(addr, list) ==> v == refused
            &&& allowed(addr, list) ==> match line_meaning(line) {
                None => v == VerdictModel::Refuse(
                    "ERROR unknown command: "@ + trimmed(line) + "\n"@,
                ),
                Some(ParsedModel::Query(q)) => v == VerdictModel::Answer(q),
                Some(ParsedModel::Action(c)) => if (c is SetState || c is HitlResume) && !local {
                    v == refused
                } else {
                    v == VerdictModel::Execute(c, "OK "@ + upper_case(trimmed(line)) + "\n"@)
                },
            }
        }),
{
}

/// The answers to clients, and the address that is listened on.
pub proof fn answers_have_their_words(d: Delivery, r: String, s: CommandServer, a: String)
    requires
        call_ensures(delivery_text, (&d,), r),
        call_ensures(CommandServer::address, (&s,), a),
    ensures
        d matches Delivery::Answered(j) ==> r@ == "OK "@ + j@ + "\n"@,
        d is Dropped ==> r@ == "ERROR query response channel dropped\n"@,
        d is TimedOut ==> r@ == "ERROR query timeout\n"@,
        d is QueriesClosed ==> r@ == "ERROR query channel closed\n"@,
        d is CommandsClosed ==> r@ == "ERROR command channel closed\n"@,
        a@ == s.settings().bind_address@ + ":"@ + decimal(s.settings().port as nat),
{
}

/// A hexadecimal digit counts as far as it stands behind `0`, and a letter ten more than it
/// stands behind `a`, in either case. Nothing else is a digit.
pub proof fn hex_digits_have_their_values(c: char)
    ensures
        48 <= c as int <= 57 ==> hex_digit(c) == Some((c as int - 48) as nat),
        97 <= c as int <= 102 ==> hex_digit(c) == Some((c as int - 87) as nat),
        65 <= c as int <= 70 ==> hex_digit(c) == Some((c as int - 55) as nat),
        hex_digit(c) is Some <==> (48 <= c as int <= 57 || 97 <= c as int <= 102 || 65 <= c as int
            <= 70),
{
}

/// A group of an address is read digit by digit: each further one counts the others sixteenfold.
/// It has one to four of them.
pub proof fn groups_are_read_by_their_digits(s: Seq<char>, c: char)
    ensures
        hex_group(Seq::empty()) is None,
        s.len() > 4 ==> hex_group(s) is None,
        hex_group(seq![c]) == hex_digit(c),
        1 <= s.len() <= 3 && hex_group(s) is Some && hex_digit(c) is Some ==> hex_group(s.push(c))
            == Some(16 * hex_group(s)->0 + hex_digit(c)->0),
        hex_digit(c) is None ==> hex_group(s.push(c)) is None,
        1 <= s.len() && hex_group(s) is None ==> hex_group(s.push(c)) is None,
{
    assert(seq![c].drop_last() =~= Seq::empty());
    assert(hex_value(seq![c].drop_last()) == Some(0nat));
    assert(s.push(c).drop_last() =~= s);
}

/// Groups in a row are read one by one: each further one counts the others 65536-fold, and a
/// dotted address at the end counts for two.
pub proof fn rows_of_groups_are_read_in_order(parts: Seq<Seq<char>>, last: Seq<char>)
    ensures
        groups_value(Seq::empty()) == Some(0nat),
        groups_value(parts) is Some && hex_group(last) is Some ==> groups_value(parts.push(last))
            == Some(65_536 * groups_value(parts)->0 + hex_group(last)->0),
        groups_value(parts) is None || hex_group(last) is None ==> groups_value(parts.push(last))
            is None,
        tail_value(Seq::empty()) == Some((0nat, 0nat)),
        groups_value(parts) is Some && ipv4(last) is Some ==> tail_value(parts.push(last)) == Some(
            (4_294_967_296 * groups_value(parts)->0 + ipv4(last)->0, parts.len() + 2),
        ),
        groups_value(parts) is Some && hex_group(last) is Some ==> tail_value(parts.push(last))
            == Some((65_536 * groups_value(parts)->0 + hex_group(last)->0, parts.len() + 1)),
{
    assert(parts.push(last).drop_last() =~= parts);
    if hex_group(last) is Some {
        hex_groups_are_not_dotted(last);
    }
}

/// A group of hexadecimal digits is no dotted address.
proof fn hex_groups_are_not_dotted(s: Seq<char>)
    requires
        hex_group(s) is Some,
    ensures
        ipv4(s) is None,
{
    hex_values_are_digits(s);
    assert forall|i: int| 0 <= i < s.len() implies #[trigger] s[i] != '.' by {
        assert(hex_digit(s[i]) is Some);
    }
    crate::text::pieces_of_one(s, '.');
}

proof fn hex_values_are_digits(s: Seq<char>)
    requires
        hex_value(s) is Some,
    ensures
        forall|i: int| 0 <= i < s.len() ==> hex_digit(#[trigger] s[i]) is Some,
    decreases s.len(),
{
    if s.len() > 0 {
        hex_values_are_digits(s.drop_last());
        assert forall|i: int| 0 <= i < s.len() implies hex_digit(#[trigger] s[i]) is Some by {
            if i < s.len() - 1 {
                assert(s.drop_last()[i] == s[i]);
            }
        }
    }
}

/// No two colons follow each other before `end`.
pub open spec fn no_gap_before(s: Seq<char>, end: int) -> bool {
    forall|i: int| 0 <= i < end ==> !(s[i] == ':' && #[trigger] s[i + 1] == ':')
}

proof fn gap_is_passed(s: Seq<char>, from: int, end: int)
    requires
        0 <= from <= end < s.len(),
        no_gap_before(s, end),
        end + 1 == s.len() || (s[end] == ':' && s[end + 1] == ':'),
    ensures
        gap_at(s, from) == if end + 1 == s.len() {
            None::<int>
        } else {
            Some(end)
        },
    decreases end - from,
{
    if from < end {
        assert(!(s[from] == ':' && s[from + 1] == ':'));
        gap_is_passed(s, from + 1, end);
    }
}

/// An address without a gap has eight groups, where a dotted address at its end makes two, and
/// its value is theirs in a row.
pub proof fn addresses_have_eight_groups(s: Seq<char>)
    requires
        s.len() > 0,
        no_gap_before(s, s.len() - 1),
    ensures
        match tail_value(pieces(s, ':')) {
            Some((v, n)) => ipv6(s) == if n == 8 {
                Some(v)
            } else {
                None
            },
            None => ipv6(s) is None,
        },
{
    gap_is_passed(s, 0, s.len() - 1);
}

/// Two colons stand for the groups of zeros that are missing, one at least: what stands before
/// them fills the address from the front, and what stands behind from the end.
pub proof fn gaps_are_filled_with_zeros(before: Seq<char>, behind: Seq<char>)
    requires
        no_gap_before(before + "::"@ + behind, before.len() as int),
    ensures
        ({
            let x = if before.len() == 0 {
                Seq::empty()
            } else {
                pieces(before, ':')
            };
            let y = if behind.len() == 0 {
                Seq::empty()
            } else {
                pieces(behind, ':')
            };
            let r = ipv6(before + "::"@ + behind);
            match (groups_value(x), tail_value(y)) {
                (Some(v), Some((w, n))) => if x.len() + n <= 7 {
                    r == Some(v * two_to((128 - 16 * x.len()) as nat) + w)
                } else {
                    r is None
                },
                _ => r is None,
            }
        }),
{
    reveal_strlit("::");
    let s = before + "::"@ + behind;
    assert(s[before.len() as int] == ':' && s[before.len() as int + 1] == ':');
    gap_is_passed(s, 0, before.len() as int);
    assert(s.subrange(0, before.len() as int) =~= before);
    assert(s.subrange(before.len() as int + 2, s.len() as int) =~= behind);
}

/// A network of dotted addresses holds another exactly when the bits that its prefix counts, from
/// the front, are the same: a longer prefix than the address has bits holds nothing.
pub proof fn networks_hold_addresses(addr: Seq<char>, net: Seq<char>, prefix: nat)
    requires
        ipv4(addr) is Some,
        ipv4(net) is Some,
        forall|i: int| 0 <= i < addr.len() ==> #[trigger] addr[i] != ':',
        forall|i: int| 0 <= i < net.len() ==> #[trigger] net[i] != '/',
        prefix < 1000,
    ensures
        in_network(addr, net.push('/') + decimal(prefix)) <==> prefix <= 32 && ipv4(addr)->0 / two_to(
            (32 - prefix) as nat,
        ) == ipv4(net)->0 / two_to((32 - prefix) as nat),
{
    let d = decimal(prefix);
    crate::text::decimal_reads_back(prefix);
    if prefix <= 32 {
        crate::text::parsed_decimal(prefix, 32);
    }
    reveal_with_fuel(decimal, 4);
    assert(crate::text::is_digit(d[0]));
    assert forall|i: int| 0 <= i < d.len() implies #[trigger] d[i] != '/' by {
        assert(crate::text::is_digit(d[i]));
    }
    crate::text::pieces_of_one(d, '/');
    crate::text::pieces_of_one(net, '/');
    crate::text::pieces_of_joined(net, d, '/');
    assert(pieces(net.push('/') + d, '/') =~= seq![net, d]);
    if addr.len() == 0 {
        crate::text::pieces_of_one(addr, '.');
    }
    assert(no_gap_before(addr, addr.len() - 1));
    addresses_have_eight_groups(addr);
    crate::text::pieces_of_one(addr, ':');
}

/// The same of the longer addresses, which have four times as many bits.
pub proof fn long_networks_hold_addresses(addr: Seq<char>, net: Seq<char>, prefix: nat)
    requires
        ipv6(addr) is Some,
        ipv6(net) is Some,
        ipv4(addr) is None,
        forall|i: int| 0 <= i < net.len() ==> #[trigger] net[i] != '/',
        prefix < 1000,
    ensures
        in_network(addr, net.push('/') + decimal(prefix)) <==> prefix <= 128 && ipv6(addr)->0
            / two_to((128 - prefix) as nat) == ipv6(net)->0 / two_to((128 - prefix) as nat),
{
    let d = decimal(prefix);
    crate::text::decimal_reads_back(prefix);
    if prefix <= 128 {
        crate::text::parsed_decimal(prefix, 128);
    }
    reveal_with_fuel(decimal, 4);
    assert(crate::text::is_digit(d[0]));
    assert forall|i: int| 0 <= i < d.len() implies #[trigger] d[i] != '/' by {
        assert(crate::text::is_digit(d[i]));
    }
    crate::text::pieces_of_one(d, '/');
    crate::text::pieces_of_one(net, '/');
    crate::text::pieces_of_joined(net, d, '/');
    assert(pieces(net.push('/') + d, '/') =~= seq![net, d]);
}

/// An error of the server tells what was done and what came of it.
pub proof fn errors_tell_what_failed(e: CommandServerError, r: String)
    requires
        call_ensures(CommandServerError::message, (&e,), r),
    ensures
        e matches CommandServerError::ConnectionError(x) ==> {
            &&& crate::text::begins(r@, "connection error: "@)
            &&& crate::text::ends(r@, x@)
            &&& r@.len() == "connection error: "@.len() + x@.len()
        },
        e matches CommandServerError::BindFailed { addr, source } ==> {
            &&& crate::text::begins(r@, "failed to bind TCP listener on "@ + addr@)
            &&& crate::text::ends(r@, ": "@ + source@)
        },
{
    match e {
        CommandServerError::ConnectionError(x) => {
            crate::text::parts_begin_and_end("connection error: "@, x@);
        },
        CommandServerError::BindFailed { addr, source } => {
            crate::text::parts_begin_and_end("failed to bind TCP listener on "@ + addr@, ": "@ + source@);
            assert("failed to bind TCP listener on "@ + addr@ + ": "@ + source@
                =~= ("failed to bind TCP listener on "@ + addr@) + (": "@ + source@));
        },
    }
}

} // verus!
