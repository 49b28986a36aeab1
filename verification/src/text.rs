//! Text primitives: what the protocol, the configuration and the window matching need of
//! strings, stated over sequences of characters.

use vstd::prelude::*;
use vstd::string::*;

verus! {

/// The characters that count as white space (the Unicode `White_Space` property).
pub open spec fn is_space(c: char) -> bool {
    let n = c as int;
    9 <= n <= 13 || n == 32 || n == 0x85 || n == 0xA0 || n == 0x1680 || 0x2000 <= n <= 0x200A || n
        == 0x2028 || n == 0x2029 || n == 0x202F || n == 0x205F || n == 0x3000
}

/// `s` without the white space at its beginning.
pub open spec fn skip_leading(s: Seq<char>) -> Seq<char>
    decreases s.len(),
{
    if s.len() > 0 && is_space(s[0]) {
        skip_leading(s.drop_first())
    } else {
        s
    }
}

/// `s` without the white space at its end.
pub open spec fn skip_trailing(s: Seq<char>) -> Seq<char>
    decreases s.len(),
{
    if s.len() > 0 && is_space(s.last()) {
        skip_trailing(s.drop_last())
    } else {
        s
    }
}

/// `s` without the white space at both ends.
pub open spec fn trimmed(s: Seq<char>) -> Seq<char> {
    skip_trailing(skip_leading(s))
}

/// `p` stands in `s` at position `i`.
pub open spec fn occurs_at(s: Seq<char>, p: Seq<char>, i: int) -> bool {
    0 <= i && i + p.len() <= s.len() && s.subrange(i, i + p.len()) == p
}

/// `p` stands somewhere in `s`.
pub open spec fn occurs(s: Seq<char>, p: Seq<char>) -> bool {
    exists|i: int| occurs_at(s, p, i)
}

/// `s` begins with `p`.
pub open spec fn begins(s: Seq<char>, p: Seq<char>) -> bool {
    occurs_at(s, p, 0)
}

/// `s` ends with `p`.
pub open spec fn ends(s: Seq<char>, p: Seq<char>) -> bool {
    occurs_at(s, p, s.len() - p.len())
}

/// The pieces of `s` between the occurrences of `sep`: one more than there are occurrences.
pub open spec fn pieces(s: Seq<char>, sep: char) -> Seq<Seq<char>>
    decreases s.len(),
{
    if s.len() == 0 {
        seq![Seq::<char>::empty()]
    } else {
        let before = pieces(s.drop_last(), sep);
        if s.last() == sep {
            before.push(Seq::<char>::empty())
        } else {
            before.drop_last().push(before.last().push(s.last()))
        }
    }
}

/// How many characters stand in `s` before the first white space.
pub open spec fn word_length(s: Seq<char>) -> nat
    decreases s.len(),
{
    if s.len() == 0 || is_space(s[0]) {
        0
    } else {
        1 + word_length(s.drop_first())
    }
}

/// The words of `s`: the runs of characters between white space.
pub open spec fn words(s: Seq<char>) -> Seq<Seq<char>>
    decreases s.len(),
{
    if s.len() == 0 {
        Seq::empty()
    } else if is_space(s[0]) {
        words(s.drop_first())
    } else {
        let n = word_length(s);
        if 0 < n <= s.len() {
            seq![s.subrange(0, n as int)] + words(s.subrange(n as int, s.len() as int))
        } else {
            Seq::empty()
        }
    }
}

/// The texts of `parts` with `sep` between each two.
pub open spec fn join(parts: Seq<Seq<char>>, sep: Seq<char>) -> Seq<char>
    decreases parts.len(),
{
    if parts.len() == 0 {
        Seq::empty()
    } else if parts.len() == 1 {
        parts[0]
    } else {
        join(parts.drop_last(), sep) + sep + parts.last()
    }
}

/// The character sequences that a vector of strings holds.
pub open spec fn texts(v: Seq<String>) -> Seq<Seq<char>> {
    v.map_values(|s: String| s@)
}

pub open spec fn is_digit(c: char) -> bool {
    '0' <= c <= '9'
}

pub open spec fn all_digits(s: Seq<char>) -> bool {
    forall|i: int| 0 <= i < s.len() ==> is_digit(#[trigger] s[i])
}

/// The value of a sequence of decimal digits.
pub open spec fn digits_value(s: Seq<char>) -> nat
    decreases s.len(),
{
    if s.len() == 0 {
        0
    } else {
        digits_value(s.drop_last()) * 10 + ((s.last() as int - '0' as int) as nat)
    }
}

/// `s` without one leading plus sign.
pub open spec fn unsigned_part(s: Seq<char>) -> Seq<char> {
    if s.len() > 0 && s[0] == '+' {
        s.drop_first()
    } else {
        s
    }
}

/// What `s` reads as, as a decimal number of at most `max`: an optional plus sign and then
/// one digit or more.
pub open spec fn parsed(s: Seq<char>, max: nat) -> Option<nat> {
    let d = unsigned_part(s);
    if d.len() > 0 && all_digits(d) && digits_value(d) <= max {
        Some(digits_value(d))
    } else {
        None
    }
}

/// The character for a digit.
pub open spec fn digit_char(d: int) -> char {
    if d == 0 { '0' }
    else if d == 1 { '1' }
    else if d == 2 { '2' }
    else if d == 3 { '3' }
    else if d == 4 { '4' }
    else if d == 5 { '5' }
    else if d == 6 { '6' }
    else if d == 7 { '7' }
    else if d == 8 { '8' }
    else { '9' }
}

/// `n` in decimal, without leading zeros.
pub open spec fn decimal(n: nat) -> Seq<char>
    decreases n,
{
    if n < 10 {
        seq![digit_char(n as int)]
    } else {
        decimal(n / 10).push(digit_char((n % 10) as int))
    }
}

/// `n` in decimal, with a minus sign where it is negative.
pub open spec fn signed_decimal(n: int) -> Seq<char> {
    if n < 0 {
        seq!['-'] + decimal((-n) as nat)
    } else {
        decimal(n as nat)
    }
}

/// `n` in decimal, with zeros in front up to `width` digits.
pub open spec fn padded(n: nat, width: nat) -> Seq<char> {
    let d = decimal(n);
    if d.len() >= width {
        d
    } else {
        Seq::new((width - d.len()) as nat, |i: int| '0') + d
    }
}

pub open spec fn ascii_lower(c: char) -> char {
    if 'A' <= c <= 'Z' {
        (c as int + 32) as char
    } else {
        c
    }
}

pub open spec fn ascii_upper(c: char) -> char {
    if 'a' <= c <= 'z' {
        (c as int - 32) as char
    } else {
        c
    }
}

pub open spec fn all_ascii(s: Seq<char>) -> bool {
    forall|i: int| 0 <= i < s.len() ==> (#[trigger] s[i]) as int <= 127
}

/// What `str::to_lowercase` gives for a text.
pub uninterp spec fn lowercased(s: Seq<char>) -> Seq<char>;

/// What `str::to_uppercase` gives for a text.
pub uninterp spec fn uppercased(s: Seq<char>) -> Seq<char>;

/// The lower case of a text: of a text in ASCII the letters `A` to `Z` are replaced and nothing
/// else changes.
pub open spec fn lower_case(s: Seq<char>) -> Seq<char> {
    if all_ascii(s) {
        s.map_values(|c: char| ascii_lower(c))
    } else {
        lowercased(s)
    }
}

/// The upper case of a text: of a text in ASCII the letters `a` to `z` are replaced and nothing
/// else changes.
pub open spec fn upper_case(s: Seq<char>) -> Seq<char> {
    if all_ascii(s) {
        s.map_values(|c: char| ascii_upper(c))
    } else {
        uppercased(s)
    }
}

/// `str::to_lowercase`. The result depends on the text alone and has a name; of a text in
/// ASCII the letters `A` to `Z` are replaced and nothing else changes.
#[verifier::external_body]
fn std_lowercase(s: &str) -> (r: String)
    ensures
        r@ == lowercased(s@),
        all_ascii(s@) ==> r@ == s@.map_values(|c: char| ascii_lower(c)),
{
    s.to_lowercase()
}

/// `str::to_uppercase`. The result depends on the text alone and has a name; of a text in
/// ASCII the letters `a` to `z` are replaced and nothing else changes.
#[verifier::external_body]
fn std_uppercase(s: &str) -> (r: String)
    ensures
        r@ == uppercased(s@),
        all_ascii(s@) ==> r@ == s@.map_values(|c: char| ascii_upper(c)),
{
    s.to_uppercase()
}

/// The lower case of a text.
pub fn lowercase(s: &str) -> (r: String)
    ensures
        r@ == lower_case(s@),
{
    std_lowercase(s)
}

/// The upper case of a text.
pub fn uppercase(s: &str) -> (r: String)
    ensures
        r@ == upper_case(s@),
{
    std_uppercase(s)
}

/// `String::push`: the character is appended.
pub assume_specification[ String::push ](s: &mut String, ch: char)
    ensures
        final(s)@ == old(s)@.push(ch),
;

/// The characters of a text.
pub fn chars_of(s: &str) -> (r: Vec<char>)
    ensures
        r@ == s@,
{
    let mut v: Vec<char> = Vec::new();
    for c in it: s.chars()
        invariant
            v@ == it.seq().subrange(0, it.index() as int),
            it.seq() == s@,
    {
        v.push(c);
    }
    assert(v@ =~= s@);
    v
}

/// The text of a run of characters.
pub fn text_of(v: &Vec<char>, from: usize, to: usize) -> (r: String)
    requires
        from <= to <= v@.len(),
    ensures
        r@ == v@.subrange(from as int, to as int),
{
    let mut s = String::new();
    let mut i: usize = from;
    while i < to
        invariant
            from <= i <= to <= v@.len(),
            s@ == v@.subrange(from as int, i as int),
        decreases to - i,
    {
        s.push(v[i]);
        i += 1;
        assert(v@.subrange(from as int, i as int) =~= v@.subrange(from as int, i - 1).push(v@[i - 1]));
    }
    s
}

/// A copy of a text.
pub fn copy_of(s: &str) -> (r: String)
    ensures
        r@ == s@,
{
    s.to_owned()
}

/// Whether two texts are the same.
pub fn same(a: &str, b: &str) -> (r: bool)
    ensures
        r == (a@ == b@),
{
    let x = chars_of(a);
    let y = chars_of(b);
    if x.len() != y.len() {
        return false;
    }
    let mut i: usize = 0;
    while i < x.len()
        invariant
            i <= x@.len(),
            x@.len() == y@.len(),
            x@ == a@,
            y@ == b@,
            forall|j: int| 0 <= j < i ==> x@[j] == y@[j],
        decreases x@.len() - i,
    {
        if x[i] != y[i] {
            return false;
        }
        i += 1;
    }
    assert(a@ =~= b@);
    true
}

fn matches_at(s: &Vec<char>, p: &Vec<char>, at: usize) -> (r: bool)
    requires
        at + p@.len() <= s@.len(),
    ensures
        r == occurs_at(s@, p@, at as int),
{
    let total: usize = s.len();
    let mut i: usize = 0;
    while i < p.len()
        invariant
            i <= p@.len(),
            total == s@.len(),
            at + p@.len() <= s@.len(),
            forall|j: int| 0 <= j < i ==> s@[at + j] == p@[j],
        decreases p@.len() - i,
    {
        if s[at + i] != p[i] {
            assert(s@.subrange(at as int, at + p@.len())[i as int] == s@[at + i]);
            return false;
        }
        i += 1;
    }
    assert(s@.subrange(at as int, at + p@.len()) =~= p@);
    true
}

/// The first position at which `p` stands in `s`.
pub open spec fn first_at(s: Seq<char>, p: Seq<char>, i: int) -> bool {
    occurs_at(s, p, i) && forall|j: int| 0 <= j < i ==> !occurs_at(s, p, j)
}

/// Where `p` stands in `s` for the first time.
pub fn find(s: &str, p: &str) -> (r: Option<usize>)
    ensures
        match r {
            Some(i) => first_at(s@, p@, i as int),
            None => !occurs(s@, p@),
        },
{
    let sv = chars_of(s);
    let pv = chars_of(p);
    if pv.len() > sv.len() {
        return None;
    }
    let last: usize = sv.len() - pv.len();
    let mut i: usize = 0;
    while i <= last
        invariant
            sv@ == s@,
            pv@ == p@,
            pv@.len() <= sv@.len(),
            last == sv@.len() - pv@.len(),
            i <= last + 1,
            forall|j: int| 0 <= j < i ==> !occurs_at(s@, p@, j),
        decreases last + 1 - i,
    {
        if matches_at(&sv, &pv, i) {
            return Some(i);
        }
        if i == last {
            return None;
        }
        i += 1;
    }
    None
}

/// Whether `p` stands in `s`.
pub fn contains(s: &str, p: &str) -> (r: bool)
    ensures
        r == occurs(s@, p@),
{
    find(s, p).is_some()
}

/// Whether `s` begins with `p`.
pub fn starts_with(s: &str, p: &str) -> (r: bool)
    ensures
        r == begins(s@, p@),
{
    let sv = chars_of(s);
    let pv = chars_of(p);
    pv.len() <= sv.len() && matches_at(&sv, &pv, 0)
}

/// Whether `s` ends with `p`.
pub fn ends_with(s: &str, p: &str) -> (r: bool)
    ensures
        r == ends(s@, p@),
{
    let sv = chars_of(s);
    let pv = chars_of(p);
    pv.len() <= sv.len() && matches_at(&sv, &pv, sv.len() - pv.len())
}

fn space(c: char) -> (r: bool)
    ensures
        r == is_space(c),
{
    let n: u32 = c as u32;
    (9 <= n && n <= 13) || n == 32 || n == 0x85 || n == 0xA0 || n == 0x1680 || (0x2000 <= n && n
        <= 0x200A) || n == 0x2028 || n == 0x2029 || n == 0x202F || n == 0x205F || n == 0x3000
}

/// `s` without the white space at both ends.
pub fn trim(s: &str) -> (r: String)
    ensures
        r@ == trimmed(s@),
{
    let v = chars_of(s);
    let mut from: usize = 0;
    assert(v@.subrange(0, v@.len() as int) =~= s@);
    while from < v.len() && space(v[from])
        invariant
            from <= v@.len(),
            v@ == s@,
            skip_leading(v@.subrange(from as int, v@.len() as int)) == skip_leading(s@),
        decreases v@.len() - from,
    {
        assert(v@.subrange(from as int, v@.len() as int).drop_first() =~= v@.subrange(
            from + 1,
            v@.len() as int,
        ));
        from += 1;
    }
    let ghost rest = skip_leading(s@);
    assert(rest == v@.subrange(from as int, v@.len() as int));
    let mut to: usize = v.len();
    while to > from && space(v[to - 1])
        invariant
            from <= to <= v@.len(),
            skip_trailing(v@.subrange(from as int, to as int)) == skip_trailing(rest),
        decreases to,
    {
        assert(v@.subrange(from as int, to as int).drop_last() =~= v@.subrange(from as int, to - 1));
        to -= 1;
    }
    text_of(&v, from, to)
}

/// The words of `s`.
pub fn split_words(s: &str) -> (r: Vec<String>)
    ensures
        texts(r@) == words(s@),
{
    let v = chars_of(s);
    let n: usize = v.len();
    let mut out: Vec<String> = Vec::new();
    let mut i: usize = 0;
    assert(v@.subrange(0, n as int) =~= s@);
    assert(texts(out@) + words(s@) =~= words(s@));
    while i < n
        invariant
            i <= n,
            n == v@.len(),
            texts(out@) + words(v@.subrange(i as int, n as int)) == words(s@),
        decreases n - i,
    {
        let ghost rest = v@.subrange(i as int, n as int);
        if space(v[i]) {
            assert(rest.drop_first() =~= v@.subrange(i + 1, n as int));
            i += 1;
        } else {
            let start: usize = i;
            assert(v@.subrange(i as int, n as int) =~= rest);
            while i < n && !space(v[i])
                invariant
                    start <= i <= n,
                    n == v@.len(),
                    word_length(rest) == (i - start) + word_length(
                        v@.subrange(i as int, n as int),
                    ),
                decreases n - i,
            {
                assert(v@.subrange(i as int, n as int).drop_first() =~= v@.subrange(
                    i + 1,
                    n as int,
                ));
                i += 1;
            }
            let ghost before = texts(out@);
            out.push(text_of(&v, start, i));
            proof {
                assert(word_length(v@.subrange(i as int, n as int)) == 0);
                assert(word_length(rest) == i - start);
                assert(rest.subrange(0, i - start) =~= v@.subrange(start as int, i as int));
                assert(rest.subrange(i - start, rest.len() as int) =~= v@.subrange(
                    i as int,
                    n as int,
                ));
                assert(texts(out@) =~= before.push(rest.subrange(0, i - start)));
                assert(words(rest) == seq![rest.subrange(0, i - start)] + words(
                    v@.subrange(i as int, n as int),
                ));
                assert(texts(out@) + words(v@.subrange(i as int, n as int)) =~= before + words(rest));
            }
        }
    }
    assert(v@.subrange(i as int, n as int) =~= Seq::<char>::empty());
    assert(texts(out@) =~= words(s@));
    out
}

/// The pieces of `s` between the occurrences of `sep`.
pub fn split(s: &str, sep: char) -> (r: Vec<String>)
    ensures
        texts(r@) == pieces(s@, sep),
        r@.len() > 0,
{
    let v = chars_of(s);
    let mut done: Vec<String> = Vec::new();
    let mut current = String::new();
    let mut i: usize = 0;
    assert(v@.subrange(0, 0) =~= Seq::<char>::empty());
    assert(texts(done@).push(current@) =~= seq![Seq::<char>::empty()]);
    while i < v.len()
        invariant
            i <= v@.len(),
            texts(done@).push(current@) == pieces(v@.subrange(0, i as int), sep),
        decreases v@.len() - i,
    {
        let c = v[i];
        let ghost before = texts(done@).push(current@);
        proof {
            assert(v@.subrange(0, i + 1).drop_last() =~= v@.subrange(0, i as int));
            assert(before.drop_last() =~= texts(done@));
        }
        if c == sep {
            done.push(current);
            current = String::new();
            assert(texts(done@) =~= before);
        } else {
            current.push(c);
        }
        i += 1;
    }
    assert(v@.subrange(0, i as int) =~= s@);
    let ghost before = texts(done@).push(current@);
    done.push(current);
    assert(texts(done@) =~= before);
    done
}

proof fn join_step(parts: Seq<Seq<char>>, sep: Seq<char>, k: int)
    requires
        0 < k < parts.len(),
    ensures
        join(parts.subrange(0, k + 1), sep) == join(parts.subrange(0, k), sep) + sep + parts[k],
{
    assert(parts.subrange(0, k + 1).drop_last() =~= parts.subrange(0, k));
}

/// The texts of `parts` with `sep` between each two.
pub fn joined(parts: &Vec<String>, sep: &str) -> (r: String)
    ensures
        r@ == join(texts(parts@), sep@),
{
    let mut s = String::new();
    let mut i: usize = 0;
    assert(texts(parts@).subrange(0, 0) =~= Seq::<Seq<char>>::empty());
    while i < parts.len()
        invariant
            i <= parts@.len(),
            s@ == join(texts(parts@).subrange(0, i as int), sep@),
        decreases parts@.len() - i,
    {
        if i > 0 {
            s.append(sep);
            proof {
                join_step(texts(parts@), sep@, i as int);
            }
        } else {
            assert(texts(parts@).subrange(0, 1) =~= seq![parts@[0]@]);
            assert(join(seq![parts@[0]@], sep@) == parts@[0]@);
            assert(s@ + parts@[0]@ =~= parts@[0]@);
        }
        s.append(parts[i].as_str());
        i += 1;
    }
    assert(texts(parts@).subrange(0, i as int) =~= texts(parts@));
    s
}

proof fn digits_value_monotonic(s: Seq<char>, k: int)
    requires
        all_digits(s),
        0 <= k <= s.len(),
    ensures
        digits_value(s.subrange(0, k)) <= digits_value(s),
    decreases s.len() - k,
{
    if k < s.len() {
        digits_value_monotonic(s, k + 1);
        assert(s.subrange(0, k + 1).drop_last() =~= s.subrange(0, k));
    } else {
        assert(s.subrange(0, k) =~= s);
    }
}

fn digit(c: char) -> (r: bool)
    ensures
        r == is_digit(c),
{
    let n: u32 = c as u32;
    48 <= n && n <= 57
}

fn digit_number(c: char) -> (r: u64)
    requires
        is_digit(c),
    ensures
        r == c as int - '0' as int,
        r < 10,
{
    let n: u32 = c as u32;
    (n - 48) as u64
}

/// What `s` reads as, as a decimal number of at most `max`.
pub fn parse_number(s: &str, max: u64) -> (r: Option<u64>)
    ensures
        match r {
            Some(n) => parsed(s@, max as nat) == Some(n as nat),
            None => parsed(s@, max as nat) is None,
        },
{
    let v = chars_of(s);
    let mut i: usize = 0;
    if v.len() > 0 && v[0] == '+' {
        i = 1;
    }
    let ghost d = unsigned_part(s@);
    let ghost base = i as int;
    proof {
        assert(d =~= v@.subrange(base, v@.len() as int));
    }
    if i == v.len() {
        return None;
    }
    let mut value: u64 = 0;
    assert(d.subrange(0, 0) =~= Seq::<char>::empty());
    while i < v.len()
        invariant
            base == 0 || base == 1,
            base <= i <= v@.len(),
            base < v@.len(),
            v@ == s@,
            d == unsigned_part(s@),
            d == v@.subrange(base, v@.len() as int),
            all_digits(d.subrange(0, i - base)),
            value == digits_value(d.subrange(0, i - base)),
            value <= max,
        decreases v@.len() - i,
    {
        let c = v[i];
        let ghost k = i - base;
        proof {
            assert(d[k] == c);
            assert(d.subrange(0, k + 1).drop_last() =~= d.subrange(0, k));
            assert(d.subrange(0, k + 1).last() == c);
        }
        if !digit(c) {
            return None;
        }
        let digit: u64 = digit_number(c);
        if digit > max || value > (max - digit) / 10 {
            proof {
                if all_digits(d) {
                    digits_value_monotonic(d, k + 1);
                }
            }
            return None;
        }
        proof {
            assert(is_digit(c));
            assert(d.subrange(0, k + 1) =~= d.subrange(0, k).push(c));
            assert(digits_value(d.subrange(0, k + 1)) == value * 10 + digit);
            assert forall|j: int| 0 <= j < k + 1 implies is_digit(#[trigger] d.subrange(0, k + 1)[j]) by {
                if j < k {
                    assert(is_digit(d.subrange(0, k)[j]));
                }
            }
        }
        value = value * 10 + digit;
        i += 1;
    }
    assert(d.subrange(0, i - base) =~= d);
    Some(value)
}

fn digit_text(d: u64) -> (r: char)
    requires
        d < 10,
    ensures
        r == digit_char(d as int),
{
    if d == 0 { '0' }
    else if d == 1 { '1' }
    else if d == 2 { '2' }
    else if d == 3 { '3' }
    else if d == 4 { '4' }
    else if d == 5 { '5' }
    else if d == 6 { '6' }
    else if d == 7 { '7' }
    else if d == 8 { '8' }
    else { '9' }
}

/// Appends `n` in decimal.
pub fn push_decimal(s: &mut String, n: u64)
    ensures
        final(s)@ == old(s)@ + decimal(n as nat),
    decreases n,
{
    if n < 10 {
        s.push(digit_text(n));
        assert(s@ =~= old(s)@ + decimal(n as nat));
    } else {
        push_decimal(s, n / 10);
        s.push(digit_text(n % 10));
        assert(s@ =~= old(s)@ + decimal(n as nat));
    }
}

/// `n` in decimal.
pub fn decimal_text(n: u64) -> (r: String)
    ensures
        r@ == decimal(n as nat),
{
    let mut s = String::new();
    push_decimal(&mut s, n);
    assert(s@ =~= decimal(n as nat));
    s
}

/// Appends `n` in decimal, with a minus sign where it is negative.
pub fn push_signed(s: &mut String, n: i32)
    ensures
        final(s)@ == old(s)@ + signed_decimal(n as int),
{
    if n < 0 {
        s.push('-');
        let m: i64 = -(n as i64);
        push_decimal(s, m as u64);
        assert(s@ =~= old(s)@ + signed_decimal(n as int));
    } else {
        push_decimal(s, n as u64);
    }
}

/// The decimal text of a number consists of digits and reads back as that number.
pub proof fn decimal_reads_back(n: nat)
    ensures
        decimal(n).len() > 0,
        all_digits(decimal(n)),
        digits_value(decimal(n)) == n,
    decreases n,
{
    if n < 10 {
        let d = decimal(n);
        assert(d.drop_last() =~= Seq::<char>::empty());
        assert(digits_value(d.drop_last()) == 0);
    } else {
        decimal_reads_back(n / 10);
        let d = decimal(n);
        assert(d.drop_last() =~= decimal(n / 10));
        assert(digits_value(d) == digits_value(d.drop_last()) * 10 + n % 10);
    }
}

/// Reading a number in decimal gives back the number that was written.
pub proof fn parsed_decimal(n: nat, max: nat)
    requires
        n <= max,
    ensures
        parsed(decimal(n), max) == Some(n),
{
    decimal_reads_back(n);
    assert(is_digit(decimal(n)[0]));
}

/// A text without the separator is one piece.
pub proof fn pieces_of_one(s: Seq<char>, sep: char)
    requires
        forall|i: int| 0 <= i < s.len() ==> #[trigger] s[i] != sep,
    ensures
        pieces(s, sep) == seq![s],
    decreases s.len(),
{
    if s.len() > 0 {
        let t = s.drop_last();
        assert forall|i: int| 0 <= i < t.len() implies #[trigger] t[i] != sep by {
            assert(t[i] == s[i]);
        }
        pieces_of_one(t, sep);
        assert(t.push(s.last()) =~= s);
        assert(pieces(s, sep) =~= seq![s]);
    } else {
        assert(s =~= Seq::<char>::empty());
    }
}

/// The pieces of two texts with the separator between them are those of the first and those of
/// the second.
pub proof fn pieces_of_joined(a: Seq<char>, b: Seq<char>, sep: char)
    ensures
        pieces(a.push(sep) + b, sep) == pieces(a, sep) + pieces(b, sep),
    decreases b.len(),
{
    let s = a.push(sep) + b;
    if b.len() == 0 {
        assert(s =~= a.push(sep));
        assert(s.drop_last() =~= a);
        assert(pieces(s, sep) =~= pieces(a, sep) + pieces(b, sep));
    } else {
        let c = b.drop_last();
        pieces_of_joined(a, c, sep);
        assert(s.drop_last() =~= a.push(sep) + c);
        pieces_are_some(c, sep);
        let p = pieces(a, sep);
        let q = pieces(c, sep);
        assert((p + q).last() == q.last());
        assert((p + q).drop_last() =~= p + q.drop_last());
        assert(pieces(s, sep) =~= pieces(a, sep) + pieces(b, sep));
    }
}

/// Every text has a piece.
pub proof fn pieces_are_some(s: Seq<char>, sep: char)
    ensures
        pieces(s, sep).len() > 0,
    decreases s.len(),
{
    if s.len() > 0 {
        pieces_are_some(s.drop_last(), sep);
    }
}

/// Splitting takes nothing away: the pieces with the separator between them are the text again,
/// and no piece holds the separator.
pub proof fn pieces_make_the_text(s: Seq<char>, sep: char)
    ensures
        join(pieces(s, sep), seq![sep]) == s,
        forall|i: int, j: int|
            0 <= i < pieces(s, sep).len() && 0 <= j < pieces(s, sep)[i].len()
                ==> #[trigger] pieces(s, sep)[i][j] != sep,
    decreases s.len(),
{
    pieces_are_some(s, sep);
    if s.len() > 0 {
        let t = s.drop_last();
        pieces_make_the_text(t, sep);
        pieces_are_some(t, sep);
        let before = pieces(t, sep);
        let all = pieces(s, sep);
        assert(t.push(s.last()) =~= s);
        if s.last() == sep {
            assert(all.drop_last() =~= before);
            assert(join(all, seq![sep]) =~= s);
        } else {
            assert(all.drop_last() =~= before.drop_last());
            if before.len() == 1 {
                assert(join(before, seq![sep]) == before[0]);
                assert(all[0] =~= s);
            } else {
                let head = join(before.drop_last(), seq![sep]);
                assert(join(all, seq![sep]) =~= head + seq![sep] + before.last().push(s.last()));
                assert(head + seq![sep] + before.last().push(s.last()) =~= (head + seq![sep]
                    + before.last()).push(s.last()));
            }
        }
        assert forall|i: int, j: int|
            0 <= i < all.len() && 0 <= j < all[i].len() implies #[trigger] all[i][j] != sep by {
            if s.last() == sep {
                if i < before.len() {
                    assert(all[i] == before[i]);
                    assert(before[i][j] != sep);
                }
            } else if i < before.len() - 1 {
                assert(all[i] == before[i]);
                assert(before[i][j] != sep);
            } else {
                if j < before.last().len() {
                    assert(before[before.len() - 1][j] != sep);
                }
            }
        }
    } else {
        assert(join(pieces(s, sep), seq![sep]) =~= s);
    }
}

/// A text stands in another exactly when the other is made of it with something before and
/// something behind.
pub proof fn occurring_is_standing_inside(a: Seq<char>, p: Seq<char>, b: Seq<char>, s: Seq<char>)
    ensures
        occurs(a + p + b, p),
        begins(p + b, p),
        ends(a + p, p),
        occurs(s, p) ==> exists|x: Seq<char>, y: Seq<char>| s == #[trigger] ((x + p) + y),
        begins(s, p) ==> exists|y: Seq<char>| s == #[trigger] (p + y),
        ends(s, p) ==> exists|x: Seq<char>| s == #[trigger] (x + p),
{
    let t = a + p + b;
    assert(occurs_at(t, p, a.len() as int)) by {
        assert(t.subrange(a.len() as int, (a.len() + p.len()) as int) =~= p);
    }
    assert(begins(p + b, p)) by {
        assert((p + b).subrange(0, p.len() as int) =~= p);
    }
    assert(ends(a + p, p)) by {
        let u = a + p;
        assert(u.subrange(u.len() - p.len(), u.len() as int) =~= p);
    }
    if occurs(s, p) {
        let i = choose|i: int| occurs_at(s, p, i);
        parted_at(s, p, i);
    }
    if begins(s, p) {
        parted_at(s, p, 0);
        let y = s.subrange(p.len() as int, s.len() as int);
        assert(s =~= p + y);
    }
    if ends(s, p) {
        let x = s.subrange(0, s.len() - p.len());
        parted_at(s, p, s.len() - p.len());
        assert(s =~= x + p);
    }
}

/// A place parts a text into what stands before it, what stands there, and what stands behind.
proof fn parted_at(s: Seq<char>, p: Seq<char>, i: int)
    requires
        occurs_at(s, p, i),
    ensures
        s == (s.subrange(0, i) + p) + s.subrange(i + p.len(), s.len() as int),
{
    assert(s =~= (s.subrange(0, i) + s.subrange(i, i + p.len())) + s.subrange(
        i + p.len(),
        s.len() as int,
    ));
}

proof fn skip_leading_over(w: Seq<char>, s: Seq<char>)
    requires
        forall|i: int| 0 <= i < w.len() ==> is_space(#[trigger] w[i]),
    ensures
        skip_leading(w + s) == skip_leading(s),
    decreases w.len(),
{
    if w.len() > 0 {
        assert((w + s)[0] == w[0]);
        assert((w + s).drop_first() =~= w.drop_first() + s);
        skip_leading_over(w.drop_first(), s);
    } else {
        assert(w + s =~= s);
    }
}

proof fn skip_trailing_over(s: Seq<char>, w: Seq<char>)
    requires
        forall|i: int| 0 <= i < w.len() ==> is_space(#[trigger] w[i]),
    ensures
        skip_trailing(s + w) == skip_trailing(s),
    decreases w.len(),
{
    if w.len() > 0 {
        assert((s + w).last() == w.last());
        assert((s + w).drop_last() =~= s + w.drop_last());
        skip_trailing_over(s, w.drop_last());
    } else {
        assert(s + w =~= s);
    }
}

/// Trimming takes the white space at both ends away and nothing else: a text that neither begins
/// nor ends with white space comes out of any white space put round it.
pub proof fn trimming_undoes_padding(before: Seq<char>, s: Seq<char>, behind: Seq<char>)
    requires
        forall|i: int| 0 <= i < before.len() ==> is_space(#[trigger] before[i]),
        forall|i: int| 0 <= i < behind.len() ==> is_space(#[trigger] behind[i]),
        s.len() > 0 ==> !is_space(s[0]) && !is_space(s.last()),
    ensures
        trimmed(before + s + behind) == s,
{
    assert(before + s + behind =~= before + (s + behind));
    skip_leading_over(before, s + behind);
    if s.len() > 0 {
        assert((s + behind)[0] == s[0]);
        skip_trailing_over(s, behind);
    } else {
        assert(s + behind =~= behind + s);
        skip_leading_over(behind, s);
        assert(s =~= Seq::<char>::empty());
    }
}

/// The white space of ASCII is the space and the five control characters from the tab to the
/// carriage return; beyond it are the separators and spaces of Unicode.
pub proof fn spaces_are_spaces(c: char)
    ensures
        is_space(' ') && is_space('\t') && is_space('\r') && is_space('\n'),
        33 <= c as int <= 126 ==> !is_space(c),
        c as int <= 127 ==> (is_space(c) <==> c == ' ' || 0x09 <= c as int <= 0x0D),
        128 <= c as int <= 0x1FFF ==> (is_space(c) <==> c as int == 0x85 || c as int == 0xA0
            || c as int == 0x1680),
        0x2000 <= c as int <= 0x2FFF ==> (is_space(c) <==> c as int <= 0x200A || c as int == 0x2028
            || c as int == 0x2029 || c as int == 0x202F || c as int == 0x205F),
        c as int >= 0x3000 ==> (is_space(c) <==> c as int == 0x3000),
{
}

/// A number reads as what its digits say, one place after the other, with or without a plus sign
/// in front, as long as it is not too large.
pub proof fn numbers_read_by_their_digits(s: Seq<char>, c: char, max: nat)
    requires
        s.len() > 0,
        all_digits(s),
    ensures
        is_digit(c) ==> digits_value(s.push(c)) == 10 * digits_value(s) + (c as int - '0' as int),
        is_digit(c) ==> digits_value(seq![c]) == c as int - '0' as int,
        digits_value(s) <= max ==> parsed(s, max) == Some(digits_value(s)),
        digits_value(s) <= max ==> parsed(seq!['+'] + s, max) == Some(digits_value(s)),
        digits_value(s) > max ==> parsed(s, max) is None,
        digits_value(s) > max ==> parsed(seq!['+'] + s, max) is None,
{
    assert(s.push(c).drop_last() =~= s);
    assert(seq![c].drop_last() =~= Seq::<char>::empty());
    assert(seq![c].last() == c);
    reveal_with_fuel(digits_value, 2);
    assert(is_digit(s[0]));
    assert(unsigned_part(s) == s);
    let t = seq!['+'] + s;
    assert(t[0] == '+');
    assert(t.drop_first() =~= s);
    assert(unsigned_part(t) == s);
}

/// Anything but digits behind an optional plus sign does not read.
pub proof fn other_texts_are_no_numbers(s: Seq<char>, max: nat, i: int)
    ensures
        0 <= i < s.len() && !is_digit(s[i]) && !(i == 0 && s[i] == '+') ==> parsed(s, max) is None,
        parsed(Seq::empty(), max) is None,
        parsed(seq!['+'], max) is None,
{
    assert(seq!['+'].drop_first() =~= Seq::<char>::empty());
    if 0 <= i < s.len() && !is_digit(s[i]) && !(i == 0 && s[i] == '+') {
        let d = unsigned_part(s);
        if s[0] == '+' {
            assert(d == s.drop_first());
            assert(d[i - 1] == s[i]);
        } else {
            assert(d[i] == s[i]);
        }
        assert(!all_digits(d));
    }
}

/// The first place of a text in another one parts that in two, and there is no place before it;
/// where the text occurs at all, there is a first place, and only one.
pub proof fn first_places_are_first(s: Seq<char>, p: Seq<char>, i: int, j: int)
    ensures
        first_at(s, p, i) ==> 0 <= i && i + p.len() <= s.len() && s == s.subrange(0, i) + p
            + s.subrange(i + p.len(), s.len() as int),
        first_at(s, p, i) && 0 <= j < i ==> s.subrange(j, j + p.len()) != p,
        first_at(s, p, i) && first_at(s, p, j) ==> i == j,
        occurs(s, p) ==> exists|k: int| first_at(s, p, k),
{
    if first_at(s, p, i) {
        assert(s =~= s.subrange(0, i) + s.subrange(i, i + p.len()) + s.subrange(
            i + p.len(),
            s.len() as int,
        ));
        if 0 <= j < i {
            assert(!occurs_at(s, p, j));
        }
    }
    if occurs(s, p) {
        let k = choose|k: int| occurs_at(s, p, k);
        first_place_exists(s, p, k, 0);
    }
}

proof fn first_place_exists(s: Seq<char>, p: Seq<char>, at: int, from: int)
    requires
        occurs_at(s, p, at),
        0 <= from <= at,
        forall|j: int| 0 <= j < from ==> !occurs_at(s, p, j),
    ensures
        exists|k: int| first_at(s, p, k),
    decreases at - from,
{
    if occurs_at(s, p, from) {
        assert(first_at(s, p, from));
    } else {
        first_place_exists(s, p, at, from + 1);
    }
}

/// Case mapping of ASCII changes letters alone, and by the distance of the two alphabets.
pub proof fn ascii_case(c: char)
    ensures
        'A' <= c <= 'Z' ==> ascii_lower(c) as int == c as int + 32,
        !('A' <= c <= 'Z') ==> ascii_lower(c) == c,
        'a' <= c <= 'z' ==> ascii_upper(c) as int == c as int - 32,
        !('a' <= c <= 'z') ==> ascii_upper(c) == c,
        c as int <= 127 ==> ascii_upper(ascii_lower(c)) == ascii_upper(c),
{
}

/// Padding to a width puts zeros in front and keeps the value.
pub proof fn padding_keeps_the_value(n: nat, width: nat)
    ensures
        decimal(n).len() >= width ==> padded(n, width) == decimal(n),
        decimal(n).len() < width ==> padded(n, width).len() == width,
        decimal(n).len() < width ==> forall|i: int|
            0 <= i < width - decimal(n).len() ==> #[trigger] padded(n, width)[i] == '0',
        decimal(n).len() < width ==> padded(n, width).subrange(
            width - decimal(n).len(),
            width as int,
        ) == decimal(n),
{
    if decimal(n).len() < width {
        assert(padded(n, width).subrange(width - decimal(n).len(), width as int) =~= decimal(n));
    }
}

/// Whatever white space stands between and round them, the words of a text are its runs of other
/// characters: a word, white space and a rest are that word and the words of the rest.
pub proof fn words_are_runs(space: Seq<char>, word: Seq<char>, gap: char, rest: Seq<char>)
    requires
        forall|i: int| 0 <= i < space.len() ==> is_space(#[trigger] space[i]),
        word.len() > 0,
        forall|i: int| 0 <= i < word.len() ==> !is_space(#[trigger] word[i]),
        is_space(gap),
    ensures
        words(space) == Seq::<Seq<char>>::empty(),
        words(space + word) == seq![word],
        words(space + word + seq![gap] + rest) == seq![word] + words(rest),
{
    words_skip_space(space, Seq::empty());
    assert(space + Seq::<char>::empty() =~= space);
    words_skip_space(space, word);
    word_length_of_run(word, Seq::empty());
    assert(word + Seq::<char>::empty() =~= word);
    assert(word.subrange(0, word.len() as int) =~= word);
    assert(word.subrange(word.len() as int, word.len() as int) =~= Seq::<char>::empty());
    assert(words(word) =~= seq![word]);
    let tail = seq![gap] + rest;
    let s = word + tail;
    assert(space + word + seq![gap] + rest =~= space + s);
    words_skip_space(space, s);
    word_length_of_run(word, tail);
    assert(s[0] == word[0]);
    assert(s.subrange(0, word.len() as int) =~= word);
    assert(s.subrange(word.len() as int, s.len() as int) =~= tail);
    assert(tail.drop_first() =~= rest);
    assert(words(tail) == words(rest));
}

proof fn words_skip_space(space: Seq<char>, s: Seq<char>)
    requires
        forall|i: int| 0 <= i < space.len() ==> is_space(#[trigger] space[i]),
    ensures
        words(space + s) == words(s),
    decreases space.len(),
{
    if space.len() > 0 {
        assert((space + s)[0] == space[0]);
        assert((space + s).drop_first() =~= space.drop_first() + s);
        words_skip_space(space.drop_first(), s);
    } else {
        assert(space + s =~= s);
    }
}

proof fn word_length_of_run(word: Seq<char>, tail: Seq<char>)
    requires
        forall|i: int| 0 <= i < word.len() ==> !is_space(#[trigger] word[i]),
        tail.len() == 0 || is_space(tail[0]),
    ensures
        word_length(word + tail) == word.len(),
    decreases word.len(),
{
    if word.len() > 0 {
        assert((word + tail)[0] == word[0]);
        assert((word + tail).drop_first() =~= word.drop_first() + tail);
        word_length_of_run(word.drop_first(), tail);
    } else {
        assert(word + tail =~= tail);
    }
}

/// A text put in front begins the whole, and one put behind ends it.
pub proof fn parts_begin_and_end(a: Seq<char>, b: Seq<char>)
    ensures
        begins(a + b, a),
        ends(a + b, b),
{
    assert((a + b).subrange(0, a.len() as int) =~= a);
    assert((a + b).subrange(a.len() as int, (a + b).len() as int) =~= b);
}

/// A number is written digit by digit, the sign in front; what is joined has the separator
/// between its parts and nowhere else.
pub proof fn numbers_are_written_and_parts_joined(
    n: nat,
    d: nat,
    parts: Seq<Seq<char>>,
    x: Seq<char>,
    sep: Seq<char>,
)
    requires
        d < 10,
    ensures
        decimal(d).len() == 1 && decimal(d)[0] as int == 48 + d,
        n > 0 ==> decimal(10 * n + d) == decimal(n) + decimal(d),
        signed_decimal(n as int) == decimal(n),
        n > 0 ==> signed_decimal(-(n as int)) == seq!['-'] + decimal(n),
        join(Seq::empty(), sep) == Seq::<char>::empty(),
        join(seq![x], sep) == x,
        parts.len() > 0 ==> join(parts.push(x), sep) == join(parts, sep) + sep + x,
{
    if n > 0 {
        let m = 10 * n + d;
        assert(m / 10 == n && m % 10 == d);
        assert(decimal(m) =~= decimal(n) + decimal(d));
    }
    assert(parts.push(x).drop_last() =~= parts);
}

} // verus!
