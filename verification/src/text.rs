//! Character-level text helpers shared by the whole scanner.
//!
//! Everything here works on the character view of strings (`Seq<char>`), so
//! the contracts of the report renderers and parsers can be stated over it.
use vstd::prelude::*;

verus! {

/// Unicode `White_Space` characters (the set `char::is_whitespace` tests).
pub open spec fn is_ws(c: char) -> bool {
    let u = c as u32;
    ||| (0x9 <= u && u <= 0xd)
    ||| u == 0x20
    ||| u == 0x85
    ||| u == 0xa0
    ||| u == 0x1680
    ||| (0x2000 <= u && u <= 0x200a)
    ||| u == 0x2028
    ||| u == 0x2029
    ||| u == 0x202f
    ||| u == 0x205f
    ||| u == 0x3000
}

/// ASCII lowercase mapping of one character.
pub open spec fn lower_char(c: char) -> char {
    if 'A' <= c && c <= 'Z' {
        ((c as u32) + 32) as char
    } else {
        c
    }
}

/// ASCII lowercase of a whole character sequence.
pub open spec fn lower(s: Seq<char>) -> Seq<char> {
    Seq::new(s.len(), |i: int| lower_char(s[i]))
}

/// Replaces every occurrence of one character by another.
pub open spec fn replace_char(s: Seq<char>, from: char, to: char) -> Seq<char> {
    Seq::new(s.len(), |i: int| if s[i] == from { to } else { s[i] })
}

/// `p` is a prefix of `s`.
pub open spec fn has_prefix(s: Seq<char>, p: Seq<char>) -> bool {
    p.len() <= s.len() && s.subrange(0, p.len() as int) == p
}

/// `p` is a suffix of `s`.
pub open spec fn has_suffix(s: Seq<char>, p: Seq<char>) -> bool {
    p.len() <= s.len() && s.subrange(s.len() - p.len(), s.len() as int) == p
}

/// `t` occurs in `s` starting at position `i`.
pub open spec fn occurs_at(s: Seq<char>, t: Seq<char>, i: int) -> bool {
    0 <= i && i + t.len() <= s.len() && s.subrange(i, i + t.len()) == t
}

/// `t` occurs somewhere in `s`.
pub open spec fn has_infix(s: Seq<char>, t: Seq<char>) -> bool {
    exists|i: int| occurs_at(s, t, i)
}

/// Number of leading whitespace characters.
pub open spec fn lead_ws(s: Seq<char>) -> nat
    decreases s.len(),
{
    if s.len() > 0 && is_ws(s[0]) {
        1 + lead_ws(s.drop_first())
    } else {
        0
    }
}

/// Number of trailing whitespace characters.
pub open spec fn trail_ws(s: Seq<char>) -> nat
    decreases s.len(),
{
    if s.len() > 0 && is_ws(s.last()) {
        1 + trail_ws(s.drop_last())
    } else {
        0
    }
}

/// `s` without leading and trailing whitespace.
pub open spec fn trimmed(s: Seq<char>) -> Seq<char> {
    let a = lead_ws(s) as int;
    if a == s.len() {
        Seq::empty()
    } else {
        s.subrange(a, s.len() - trail_ws(s))
    }
}

/// The whitespace-separated words of `s`, joined by single spaces.
pub open spec fn collapse_ws(s: Seq<char>) -> Seq<char>
    decreases s.len(),
{
    if s.len() == 0 {
        Seq::empty()
    } else {
        let r = collapse_ws(s.drop_last());
        let c = s.last();
        if is_ws(c) {
            r
        } else if s.len() >= 2 && is_ws(s[s.len() - 2]) && r.len() > 0 {
            r.push(' ').push(c)
        } else {
            r.push(c)
        }
    }
}

/// Decimal digit character.
pub open spec fn digit_char(d: nat) -> char {
    if d == 0 { '0' }
    else if d == 1 { '1' }
    else if d == 2 { '2' }
    else if d == 3 { '3' }
    else if d == 4 { '4' }
    else if d == 5 { '5' }
    else if d == 6 { '6' }
    else if d == 7 { '7' }
    else if d == 8 { '8' }
    else { '9' }
}

/// Decimal rendering of a natural number.
pub open spec fn decimal(n: nat) -> Seq<char>
    decreases n,
{
    if n < 10 {
        seq![digit_char(n)]
    } else {
        decimal(n / 10).push(digit_char(n % 10))
    }
}

/// Appends one character to a string.
#[verifier::external_body]
pub fn push_char(s: &mut String, c: char)
    ensures
        final(s)@ == old(s)@.push(c),
{
    s.push(c);
}

/// The characters of a string slice, in order.
pub fn chars_of(s: &str) -> (res: Vec<char>)
    ensures
        res@ == s@,
{
    let mut res: Vec<char> = Vec::new();
    for c in it: s.chars()
        invariant
            res@ == it.seq().take(it.index() as int),
    {
        res.push(c);
    }
    res
}

/// Builds a string from a character sequence.
pub fn string_of(cs: &Vec<char>) -> (res: String)
    ensures
        res@ == cs@,
{
    let mut res = String::new();
    let mut i: usize = 0;
    while i < cs.len()
        invariant
            i <= cs.len(),
            res@ == cs@.take(i as int),
        decreases cs.len() - i,
    {
        push_char(&mut res, cs[i]);
        i = i + 1;
        assert(cs@.take(i as int) == cs@.take(i - 1).push(cs@[i - 1]));
    }
    assert(cs@.take(cs.len() as int) == cs@);
    res
}

/// A fresh copy of a string slice.
pub fn owned(s: &str) -> (res: String)
    ensures
        res@ == s@,
{
    s.to_owned()
}

/// Appends a string slice to a string.
pub fn push_str(s: &mut String, t: &str)
    ensures
        final(s)@ == old(s)@ + t@,
{
    s.append(t);
}

/// Concatenation of two string slices.
pub fn concat2(a: &str, b: &str) -> (res: String)
    ensures
        res@ == a@ + b@,
{
    let mut r = owned(a);
    push_str(&mut r, b);
    r
}

/// Unicode whitespace test (`char::is_whitespace`).
pub fn is_whitespace(c: char) -> (b: bool)
    ensures
        b == is_ws(c),
{
    let u = c as u32;
    (0x9 <= u && u <= 0xd) || u == 0x20 || u == 0x85 || u == 0xa0 || u == 0x1680 || (0x2000 <= u
        && u <= 0x200a) || u == 0x2028 || u == 0x2029 || u == 0x202f || u == 0x205f || u == 0x3000
}

/// ASCII lowercase of one character.
pub fn lower_char_exec(c: char) -> (r: char)
    ensures
        r == lower_char(c),
{
    if 'A' <= c && c <= 'Z' {
        let u = (c as u32) + 32;
        assert(0x61 <= u <= 0x7a);
        char_from_ascii(u)
    } else {
        c
    }
}

/// The character with a given ASCII code.
fn char_from_ascii(u: u32) -> (c: char)
    requires
        u < 128,
    ensures
        c == u as char,
{
    let b: u8 = u as u8;
    b as char
}

/// ASCII lowercase of a string.
pub fn to_lower(s: &str) -> (res: String)
    ensures
        res@ == lower(s@),
{
    let cs = chars_of(s);
    let mut out: Vec<char> = Vec::new();
    let mut i: usize = 0;
    while i < cs.len()
        invariant
            i <= cs.len(),
            cs@ == s@,
            out@ == lower(s@).take(i as int),
        decreases cs.len() - i,
    {
        let c = lower_char_exec(cs[i]);
        out.push(c);
        i = i + 1;
    }
    string_of(&out)
}

/// Replaces every occurrence of `from` by `to`.
pub fn replace_char_exec(s: &str, from: char, to: char) -> (res: String)
    ensures
        res@ == replace_char(s@, from, to),
{
    let cs = chars_of(s);
    let mut out: Vec<char> = Vec::new();
    let mut i: usize = 0;
    while i < cs.len()
        invariant
            i <= cs.len(),
            cs@ == s@,
            out@ == replace_char(s@, from, to).take(i as int),
        decreases cs.len() - i,
    {
        if cs[i] == from {
            out.push(to);
        } else {
            out.push(cs[i]);
        }
        i = i + 1;
    }
    string_of(&out)
}

/// Character-sequence equality.
pub fn seq_eq(a: &Vec<char>, b: &Vec<char>) -> (r: bool)
    ensures
        r == (a@ == b@),
{
    if a.len() != b.len() {
        return false;
    }
    let mut i: usize = 0;
    while i < a.len()
        invariant
            i <= a.len(),
            a.len() == b.len(),
            forall|j: int| 0 <= j < i ==> a@[j] == b@[j],
        decreases a.len() - i,
    {
        if a[i] != b[i] {
            return false;
        }
        i = i + 1;
    }
    assert(a@ =~= b@);
    true
}

/// String equality over the character view.
pub fn str_eq(a: &str, b: &str) -> (r: bool)
    ensures
        r == (a@ == b@),
{
    let x = chars_of(a);
    let y = chars_of(b);
    seq_eq(&x, &y)
}

/// Whether `t` occurs in `s` at position `i` (character indices).
pub fn occurs_at_exec(s: &Vec<char>, t: &Vec<char>, i: usize) -> (r: bool)
    ensures
        r == occurs_at(s@, t@, i as int),
{
    if i > s.len() || t.len() > s.len() - i {
        return false;
    }
    let mut j: usize = 0;
    while j < t.len()
        invariant
            j <= t.len(),
            i + t.len() <= s.len(),
            forall|k: int| 0 <= k < j ==> s@[i + k] == t@[k],
        decreases t.len() - j,
    {
        if s[i + j] != t[j] {
            assert(s@.subrange(i as int, i + t.len())[j as int] != t@[j as int]);
            return false;
        }
        j = j + 1;
    }
    assert(s@.subrange(i as int, i + t.len()) =~= t@);
    true
}

/// Prefix test.
pub fn starts_with(s: &str, p: &str) -> (r: bool)
    ensures
        r == has_prefix(s@, p@),
{
    let x = chars_of(s);
    let y = chars_of(p);
    let r = occurs_at_exec(&x, &y, 0);
    assert(r == has_prefix(s@, p@));
    r
}

/// Suffix test.
pub fn ends_with(s: &str, p: &str) -> (r: bool)
    ensures
        r == has_suffix(s@, p@),
{
    let x = chars_of(s);
    let y = chars_of(p);
    if y.len() > x.len() {
        return false;
    }
    occurs_at_exec(&x, &y, x.len() - y.len())
}

/// Substring test.
pub fn contains(s: &str, t: &str) -> (r: bool)
    ensures
        r == has_infix(s@, t@),
{
    let x = chars_of(s);
    let y = chars_of(t);
    let mut i: usize = 0;
    while i < x.len()
        invariant
            i <= x.len(),
            x@ == s@,
            y@ == t@,
            forall|k: int| 0 <= k < i ==> !occurs_at(s@, t@, k),
        decreases x.len() - i,
    {
        if occurs_at_exec(&x, &y, i) {
            return true;
        }
        i = i + 1;
    }
    if occurs_at_exec(&x, &y, i) {
        return true;
    }
    assert forall|k: int| !occurs_at(s@, t@, k) by {
        if occurs_at(s@, t@, k) {
            assert(k <= x.len());
        }
    }
    false
}

/// Leading and trailing whitespace removed.
pub fn trim(s: &str) -> (res: String)
    ensures
        res@ == trimmed(s@),
{
    let cs = chars_of(s);
    let n = cs.len();
    assert(s@.subrange(0, n as int) == s@);
    let mut a: usize = 0;
    while a < n && is_whitespace(cs[a])
        invariant
            a <= n,
            cs@ == s@,
            n == cs.len(),
            lead_ws(s@) == a + lead_ws(s@.subrange(a as int, n as int)),
        decreases n - a,
    {
        assert(s@.subrange(a as int, n as int).drop_first() == s@.subrange(a + 1, n as int));
        a = a + 1;
    }
    assert(lead_ws(s@.subrange(a as int, n as int)) == 0);
    if a == n {
        return String::new();
    }
    let mut b: usize = n;
    while b > a && is_whitespace(cs[b - 1])
        invariant
            a < n,
            a < b <= n,
            cs@ == s@,
            n == cs.len(),
            !is_ws(s@[a as int]),
            trail_ws(s@) == (n - b) + trail_ws(s@.subrange(0, b as int)),
        decreases b,
    {
        assert(s@.subrange(0, b as int).drop_last() == s@.subrange(0, b - 1));
        b = b - 1;
    }
    assert(b > a);
    assert(trail_ws(s@.subrange(0, b as int)) == 0);
    let mut out: Vec<char> = Vec::new();
    let mut i: usize = a;
    while i < b
        invariant
            a <= i <= b <= n,
            n == cs.len(),
            cs@ == s@,
            out@ == s@.subrange(a as int, i as int),
        decreases b - i,
    {
        out.push(cs[i]);
        i = i + 1;
    }
    string_of(&out)
}

/// Whitespace-separated words joined by single spaces.
pub fn collapse_whitespace(s: &str) -> (res: String)
    ensures
        res@ == collapse_ws(s@),
{
    let cs = chars_of(s);
    let mut out: Vec<char> = Vec::new();
    let mut i: usize = 0;
    while i < cs.len()
        invariant
            i <= cs.len(),
            cs@ == s@,
            out@ == collapse_ws(s@.take(i as int)),
        decreases cs.len() - i,
    {
        let c = cs[i];
        let ghost prev = s@.take(i as int);
        assert(s@.take(i + 1).drop_last() == prev);
        if is_whitespace(c) {
        } else if i >= 1 && is_whitespace(cs[i - 1]) && out.len() > 0 {
            out.push(' ');
            out.push(c);
        } else {
            out.push(c);
        }
        i = i + 1;
    }
    assert(s@.take(cs.len() as int) == s@);
    string_of(&out)
}

/// The decimal digit for `d < 10`.
fn digit_exec(d: usize) -> (c: char)
    requires
        d < 10,
    ensures
        c == digit_char(d as nat),
{
    if d == 0 { '0' }
    else if d == 1 { '1' }
    else if d == 2 { '2' }
    else if d == 3 { '3' }
    else if d == 4 { '4' }
    else if d == 5 { '5' }
    else if d == 6 { '6' }
    else if d == 7 { '7' }
    else if d == 8 { '8' }
    else { '9' }
}

/// Decimal characters of `n`, most significant first.
fn decimal_chars(n: usize) -> (res: Vec<char>)
    ensures
        res@ == decimal(n as nat),
    decreases n,
{
    if n < 10 {
        let mut v: Vec<char> = Vec::new();
        v.push(digit_exec(n));
        v
    } else {
        let mut v = decimal_chars(n / 10);
        v.push(digit_exec(n % 10));
        v
    }
}

/// Decimal rendering of `n`.
pub fn usize_to_string(n: usize) -> (res: String)
    ensures
        res@ == decimal(n as nat),
{
    let v = decimal_chars(n);
    string_of(&v)
}

/// Appends the decimal rendering of `n`.
pub fn push_usize(s: &mut String, n: usize)
    ensures
        final(s)@ == old(s)@ + decimal(n as nat),
{
    let d = usize_to_string(n);
    push_str(s, d.as_str());
}

/// The strings of a list joined by `sep`.
pub open spec fn join_views(v: Seq<Seq<char>>, sep: Seq<char>) -> Seq<char>
    decreases v.len(),
{
    if v.len() == 0 {
        Seq::empty()
    } else if v.len() == 1 {
        v[0]
    } else {
        join_views(v.drop_last(), sep) + sep + v.last()
    }
}

/// Joins strings with a separator (`slice.join(sep)`).
pub fn join_strings(v: &Vec<String>, sep: &str) -> (res: String)
    ensures
        res@ == join_views(crate::finding::views(v@), sep@),
{
    let ghost vs = crate::finding::views(v@);
    let mut res = String::new();
    let mut i: usize = 0;
    while i < v.len()
        invariant
            i <= v.len(),
            vs == crate::finding::views(v@),
            res@ == join_views(vs.take(i as int), sep@),
        decreases v.len() - i,
    {
        assert(vs.take(i + 1).drop_last() =~= vs.take(i as int));
        if i > 0 {
            push_str(&mut res, sep);
        }
        push_str(&mut res, v[i].as_str());
        i = i + 1;
    }
    assert(vs.take(v.len() as int) =~= vs);
    res
}

/// Length of the leading run of non-whitespace characters.
pub open spec fn word_len(s: Seq<char>) -> nat
    decreases s.len(),
{
    if s.len() > 0 && !is_ws(s[0]) {
        1 + word_len(s.drop_first())
    } else {
        0
    }
}

/// The first whitespace-separated word of `s`, or the empty string.
pub open spec fn first_word(s: Seq<char>) -> Seq<char> {
    let rest = s.skip(lead_ws(s) as int);
    rest.take(word_len(rest) as int)
}

proof fn lemma_lead_ws_bound(s: Seq<char>)
    ensures
        lead_ws(s) <= s.len(),
    decreases s.len(),
{
    if s.len() > 0 && is_ws(s[0]) {
        lemma_lead_ws_bound(s.drop_first());
    }
}

proof fn lemma_word_len_bound(s: Seq<char>)
    ensures
        word_len(s) <= s.len(),
    decreases s.len(),
{
    if s.len() > 0 && !is_ws(s[0]) {
        lemma_word_len_bound(s.drop_first());
    }
}

/// The first whitespace-separated word (`split_whitespace().next()`), or `""`.
pub fn first_word_of(s: &str) -> (res: String)
    ensures
        res@ == first_word(s@),
{
    let cs = chars_of(s);
    let n = cs.len();
    let mut a: usize = 0;
    proof {
        lemma_lead_ws_bound(s@);
    }
    assert(s@.skip(0) =~= s@);
    while a < n && is_whitespace(cs[a])
        invariant
            a <= n,
            n == cs.len(),
            cs@ == s@,
            lead_ws(s@) == a + lead_ws(s@.skip(a as int)),
        decreases n - a,
    {
        assert(s@.skip(a as int).drop_first() =~= s@.skip(a + 1));
        a = a + 1;
    }
    let ghost rest = s@.skip(a as int);
    assert(lead_ws(rest) == 0);
    proof {
        lemma_word_len_bound(rest);
    }
    let mut b: usize = a;
    while b < n && !is_whitespace(cs[b])
        invariant
            a <= b <= n,
            n == cs.len(),
            cs@ == s@,
            rest == s@.skip(a as int),
            word_len(rest) == (b - a) + word_len(s@.skip(b as int)),
        decreases n - b,
    {
        assert(s@.skip(b as int).drop_first() =~= s@.skip(b + 1));
        b = b + 1;
    }
    assert(word_len(s@.skip(b as int)) == 0);
    let mut out: Vec<char> = Vec::new();
    let mut i: usize = a;
    while i < b
        invariant
            a <= i <= b <= n,
            n == cs.len(),
            cs@ == s@,
            out@ == s@.subrange(a as int, i as int),
        decreases b - i,
    {
        out.push(cs[i]);
        i = i + 1;
    }
    assert(out@ =~= rest.take(word_len(rest) as int));
    string_of(&out)
}

/// Number of bytes of the UTF-8 encoding of a character.
pub open spec fn utf8_width(c: char) -> nat {
    let u = c as u32;
    if u < 0x80 {
        1
    } else if u < 0x800 {
        2
    } else if u < 0x10000 {
        3
    } else {
        4
    }
}

/// Number of bytes of the UTF-8 encoding of the first `k` characters.
pub open spec fn utf8_prefix_len(s: Seq<char>, k: int) -> nat
    decreases k,
{
    if k <= 0 || s.len() == 0 {
        0
    } else if k > s.len() {
        utf8_prefix_len(s, s.len() as int)
    } else {
        utf8_prefix_len(s, k - 1) + utf8_width(s[k - 1])
    }
}

/// Number of leading characters whose encoding fits in `max` bytes, counting from `k`.
pub open spec fn fit_count(s: Seq<char>, max: nat, k: int) -> int
    decreases s.len() - k,
{
    if 0 <= k < s.len() && utf8_prefix_len(s, k + 1) <= max {
        fit_count(s, max, k + 1)
    } else {
        k
    }
}

/// `s` cut to at most `max` UTF-8 bytes (at a character boundary) with `...`
/// appended, or `s` itself when it already fits.
pub open spec fn truncated(s: Seq<char>, max: nat) -> Seq<char> {
    if utf8_prefix_len(s, s.len() as int) <= max {
        s
    } else {
        s.take(fit_count(s, max, 0)) + "..."@
    }
}

fn utf8_width_exec(c: char) -> (w: usize)
    ensures
        w == utf8_width(c),
{
    let u = c as u32;
    if u < 0x80 {
        1
    } else if u < 0x800 {
        2
    } else if u < 0x10000 {
        3
    } else {
        4
    }
}

/// Shortens `text` to at most `max` bytes, cutting at a character boundary,
/// and marks the cut with `...`.
pub fn truncate(text: &str, max: usize) -> (res: String)
    ensures
        res@ == truncated(text@, max as nat),
{
    let cs = chars_of(text);
    let n = cs.len();
    let mut k: usize = 0;
    let mut used: usize = 0;
    while k < n && utf8_width_exec(cs[k]) <= max - used
        invariant
            k <= n,
            n == cs.len(),
            cs@ == text@,
            used <= max,
            used == utf8_prefix_len(text@, k as int),
            fit_count(text@, max as nat, 0) == fit_count(text@, max as nat, k as int),
        decreases n - k,
    {
        used = used + utf8_width_exec(cs[k]);
        k = k + 1;
    }
    if k == n {
        return owned(text);
    }
    assert(fit_count(text@, max as nat, k as int) == k);
    assert(utf8_prefix_len(text@, k + 1) > max);
    assert(utf8_prefix_len(text@, n as int) > max) by {
        lemma_prefix_len_mono(text@, k + 1, n as int);
    }
    let mut out: Vec<char> = Vec::new();
    let mut i: usize = 0;
    while i < k
        invariant
            i <= k < n,
            n == cs.len(),
            cs@ == text@,
            out@ == text@.take(i as int),
        decreases k - i,
    {
        out.push(cs[i]);
        i = i + 1;
        assert(out@ =~= text@.take(i as int));
    }
    let mut r = string_of(&out);
    push_str(&mut r, "...");
    r
}

pub proof fn lemma_prefix_len_mono(s: Seq<char>, a: int, b: int)
    requires
        0 <= a <= b <= s.len(),
    ensures
        utf8_prefix_len(s, a) <= utf8_prefix_len(s, b),
    decreases b - a,
{
    if a < b {
        lemma_prefix_len_mono(s, a, b - 1);
    }
}

/// Decimal rendering of a signed integer.
pub open spec fn int_text(i: int) -> Seq<char> {
    if i >= 0 {
        decimal(i as nat)
    } else {
        seq!['-'] + decimal((-i) as nat)
    }
}

fn digit_u64(d: u64) -> (c: char)
    requires
        d < 10,
    ensures
        c == digit_char(d as nat),
{
    digit_exec(d as usize)
}

fn decimal_u64(n: u64) -> (res: Vec<char>)
    ensures
        res@ == decimal(n as nat),
    decreases n,
{
    if n < 10 {
        let mut v: Vec<char> = Vec::new();
        v.push(digit_u64(n));
        v
    } else {
        let mut v = decimal_u64(n / 10);
        v.push(digit_u64(n % 10));
        v
    }
}

/// Decimal rendering of a signed 64-bit integer.
pub fn i64_to_string(i: i64) -> (res: String)
    ensures
        res@ == int_text(i as int),
{
    if i >= 0 {
        let v = decimal_u64(i as u64);
        string_of(&v)
    } else {
        let m: u64 = if i == i64::MIN {
            9223372036854775808u64
        } else {
            (-i) as u64
        };
        let mut v: Vec<char> = Vec::new();
        v.push('-');
        let d = decimal_u64(m);
        let mut k: usize = 0;
        while k < d.len()
            invariant
                k <= d@.len(),
                v@ == seq!['-'] + d@.take(k as int),
            decreases d@.len() - k,
        {
            v.push(d[k]);
            k = k + 1;
            assert(v@ =~= seq!['-'] + d@.take(k as int));
        }
        assert(d@.take(d@.len() as int) =~= d@);
        string_of(&v)
    }
}

} // verus!
