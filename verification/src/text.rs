//! Characters and strings as sequences: the conversions, character classes
//! and scans that the rest of the library is stated over.

use vstd::prelude::*;

verus! {

/// `String::push` appends one character to the end of the string.
pub assume_specification[ String::push ](s: &mut String, c: char)
    ensures
        final(s)@ == old(s)@.push(c),
;

/// `str`'s `==` compares the two strings character by character.
pub assume_specification[ <str as PartialEq>::eq ](a: &str, b: &str) -> (r: bool)
    ensures
        r == (a@ == b@),
;

/// The lower case form of `s`, as Unicode defines it.
pub uninterp spec fn lowercased(s: Seq<char>) -> Seq<char>;

/// `str::to_lowercase`: the lower case equivalent of the string.
#[verifier::external_body]
pub(crate) fn to_lowercase(s: &str) -> (lower: String)
    ensures
        lower@ == lowercased(s@),
{
    s.to_lowercase()
}

/// The characters of `s`, in order.
pub fn chars_of(s: &str) -> (v: Vec<char>)
    ensures
        v@ == s@,
{
    let mut v: Vec<char> = Vec::new();
    for c in it: s.chars()
        invariant
            it.seq() == s@,
            v@ == it.seq().take(it.index()),
    {
        v.push(c);
        assert(it.seq().take(it.index() + 1) == it.seq().take(it.index()).push(c));
    }
    assert(v@ == s@.take(s@.len() as int));
    v
}

/// The string made of the characters `v[from..to]`.
pub fn string_of(v: &Vec<char>, from: usize, to: usize) -> (s: String)
    requires
        from <= to <= v.len(),
    ensures
        s@ == v@.subrange(from as int, to as int),
{
    let mut s = String::new();
    let mut i: usize = from;
    while i < to
        invariant
            from <= i <= to <= v.len(),
            s@ == v@.subrange(from as int, i as int),
        decreases to - i,
    {
        s.push(v[i]);
        i = i + 1;
        assert(v@.subrange(from as int, i as int) == v@.subrange(from as int, i - 1).push(
            v@[i - 1],
        ));
    }
    s
}

/// The views of a sequence of strings.
pub open spec fn texts(v: Seq<String>) -> Seq<Seq<char>> {
    Seq::new(v.len(), |i: int| v[i]@)
}

/// Pushing a string pushes its view.
pub proof fn lemma_texts_push(v: Seq<String>, s: String)
    ensures
        texts(v.push(s)) == texts(v).push(s@),
{
    assert(texts(v.push(s)) =~= texts(v).push(s@));
}

/// A class of characters that a scan runs over.
#[derive(Clone, Copy, Debug, PartialEq, Eq, Structural)]
pub enum CharClass {
    /// Anything but white space and the two quote characters.
    Bare,
    /// Anything but the apostrophe.
    NotApostrophe,
    /// ASCII letters, ASCII digits and the underscore.
    Name,
    /// Anything but the percent sign.
    NotPercent,
    /// Characters with the Unicode property White_Space.
    WhiteSpace,
    /// Anything but the line feed.
    NotLineFeed,
    /// Anything but the colon.
    NotColon,
}

/// The characters that carry the Unicode property White_Space.
pub open spec fn is_white_space(c: char) -> bool {
    let n = c as u32;
    ||| 0x09 <= n <= 0x0D
    ||| n == 0x20
    ||| n == 0x85
    ||| n == 0xA0
    ||| n == 0x1680
    ||| 0x2000 <= n <= 0x200A
    ||| n == 0x2028
    ||| n == 0x2029
    ||| n == 0x202F
    ||| n == 0x205F
    ||| n == 0x3000
}

/// An ASCII letter, of either case.
pub open spec fn is_ascii_letter(c: char) -> bool {
    ('a' <= c && c <= 'z') || ('A' <= c && c <= 'Z')
}

/// One of the ten ASCII digits.
pub open spec fn is_ascii_digit(c: char) -> bool {
    '0' <= c && c <= '9'
}

/// Whether `c` belongs to `class`.
pub open spec fn in_class(class: CharClass, c: char) -> bool {
    match class {
        CharClass::Bare => !is_white_space(c) && c != '"' && c != '\'',
        CharClass::NotApostrophe => c != '\'',
        CharClass::Name => is_ascii_letter(c) || is_ascii_digit(c) || c == '_',
        CharClass::NotPercent => c != '%',
        CharClass::WhiteSpace => is_white_space(c),
        CharClass::NotLineFeed => c != '\n',
        CharClass::NotColon => c != ':',
    }
}

/// Decides `is_white_space`.
pub fn white_space(c: char) -> (b: bool)
    ensures
        b == is_white_space(c),
{
    let n: u32 = c as u32;
    (0x09 <= n && n <= 0x0D) || n == 0x20 || n == 0x85 || n == 0xA0 || n == 0x1680 || (0x2000 <= n
        && n <= 0x200A) || n == 0x2028 || n == 0x2029 || n == 0x202F || n == 0x205F || n == 0x3000
}

/// Decides `is_ascii_letter`.
pub fn ascii_letter(c: char) -> (b: bool)
    ensures
        b == is_ascii_letter(c),
{
    ('a' <= c && c <= 'z') || ('A' <= c && c <= 'Z')
}

/// Decides `in_class`.
pub fn belongs(class: CharClass, c: char) -> (b: bool)
    ensures
        b == in_class(class, c),
{
    match class {
        CharClass::Bare => !white_space(c) && c != '"' && c != '\'',
        CharClass::NotApostrophe => c != '\'',
        CharClass::Name => ('a' <= c && c <= 'z') || ('A' <= c && c <= 'Z') || ('0' <= c && c
            <= '9') || c == '_',
        CharClass::NotPercent => c != '%',
        CharClass::WhiteSpace => white_space(c),
        CharClass::NotLineFeed => c != '\n',
        CharClass::NotColon => c != ':',
    }
}

/// Where the run of `class` characters that starts at `i` ends: the first
/// index from `i` on that holds a character outside the class, or the
/// length of `s`.
pub open spec fn run_end(s: Seq<char>, i: int, class: CharClass) -> int
    decreases s.len() - i,
{
    if 0 <= i < s.len() && in_class(class, s[i]) {
        run_end(s, i + 1, class)
    } else {
        i
    }
}

/// `run_end` is the least index from `i` on at which the run stops.
pub proof fn lemma_run_end(s: Seq<char>, i: int, class: CharClass)
    requires
        0 <= i <= s.len(),
    ensures
        i <= run_end(s, i, class) <= s.len(),
        forall|j: int| i <= j < run_end(s, i, class) ==> in_class(class, #[trigger] s[j]),
        run_end(s, i, class) < s.len() ==> !in_class(class, s[run_end(s, i, class)]),
    decreases s.len() - i,
{
    if i < s.len() && in_class(class, s[i]) {
        lemma_run_end(s, i + 1, class);
    }
}

/// Computes `run_end`.
pub fn scan_run(v: &Vec<char>, i: usize, class: CharClass) -> (e: usize)
    requires
        i <= v.len(),
    ensures
        e == run_end(v@, i as int, class),
        i <= e <= v.len(),
{
    let mut e: usize = i;
    while e < v.len() && belongs(class, v[e])
        invariant
            i <= e <= v.len(),
            run_end(v@, i as int, class) == run_end(v@, e as int, class),
        decreases v.len() - e,
    {
        e = e + 1;
    }
    e
}

/// Where the run of `class` characters that ends just before `e` starts,
/// going back no further than `from`.
pub open spec fn run_start(s: Seq<char>, from: int, e: int, class: CharClass) -> int
    decreases e - from,
{
    if from < e <= s.len() && 0 <= from && in_class(class, s[e - 1]) {
        run_start(s, from, e - 1, class)
    } else {
        e
    }
}

/// Computes `run_start`.
pub fn scan_run_back(v: &Vec<char>, from: usize, e: usize, class: CharClass) -> (b: usize)
    requires
        from <= e <= v.len(),
    ensures
        b == run_start(v@, from as int, e as int, class),
        from <= b <= e,
{
    let mut b: usize = e;
    while b > from && belongs(class, v[b - 1])
        invariant
            from <= b <= e <= v.len(),
            run_start(v@, from as int, e as int, class) == run_start(
                v@,
                from as int,
                b as int,
                class,
            ),
        decreases b - from,
    {
        b = b - 1;
    }
    b
}

/// `s` without the white space at its two ends.
pub open spec fn trimmed(s: Seq<char>) -> Seq<char> {
    let a = run_end(s, 0, CharClass::WhiteSpace);
    let b = run_start(s, a, s.len() as int, CharClass::WhiteSpace);
    s.subrange(a, b)
}

/// The string `s` without the white space at its two ends.
pub fn trim(s: &str) -> (t: String)
    ensures
        t@ == trimmed(s@),
{
    let v = chars_of(s);
    let a = scan_run(&v, 0, CharClass::WhiteSpace);
    let b = scan_run_back(&v, a, v.len(), CharClass::WhiteSpace);
    string_of(&v, a, b)
}

/// The number that the decimal digits of `s` write. A character that is no
/// digit counts as zero: callers ask only about digit strings.
pub open spec fn decimal_value(s: Seq<char>) -> nat
    decreases s.len(),
{
    if s.len() == 0 {
        0
    } else {
        decimal_value(s.drop_last()) * 10 + digit_value(s.last())
    }
}

/// The value of one decimal digit.
pub open spec fn digit_value(c: char) -> nat {
    if is_ascii_digit(c) {
        (c as u32 - '0' as u32) as nat
    } else {
        0
    }
}

/// Whether `s` is one or more ASCII digits.
pub open spec fn is_decimal(s: Seq<char>) -> bool {
    s.len() > 0 && forall|i: int| 0 <= i < s.len() ==> is_ascii_digit(#[trigger] s[i])
}

/// Reads `v[from..to]` as a decimal number of at most `max`: `Some`
/// exactly when the range holds one or more ASCII digits whose value is
/// at most `max`.
pub fn parse_decimal_upto(v: &Vec<char>, from: usize, to: usize, max: u64) -> (r: Option<u64>)
    requires
        from <= to <= v.len(),
    ensures
        r is Some <==> is_decimal(v@.subrange(from as int, to as int)) && decimal_value(
            v@.subrange(from as int, to as int),
        ) <= max,
        r matches Some(n) ==> n == decimal_value(v@.subrange(from as int, to as int)),
{
    let ghost s = v@.subrange(from as int, to as int);
    if from == to {
        return None;
    }
    let mut acc: u64 = 0;
    let mut i: usize = from;
    assert(s.take(0) =~= Seq::<char>::empty());
    while i < to
        invariant
            from <= i <= to <= v.len(),
            s == v@.subrange(from as int, to as int),
            acc <= max,
            acc == decimal_value(s.take(i - from)),
            forall|j: int| 0 <= j < i - from ==> is_ascii_digit(#[trigger] s[j]),
        decreases to - i,
    {
        let c = v[i];
        proof {
            assert(s[i - from] == c);
            assert(s.take(i - from + 1).drop_last() == s.take(i - from));
            lemma_decimal_value_grows(s, i - from + 1);
        }
        if !('0' <= c && c <= '9') {
            return None;
        }
        let d: u64 = (c as u32 - '0' as u32) as u64;
        if acc > (u64::MAX - d) / 10 || acc * 10 + d > max {
            assert(decimal_value(s.take(i - from + 1)) > max);
            return None;
        }
        acc = acc * 10 + d;
        i = i + 1;
    }
    assert(s.take(to - from) == s);
    Some(acc)
}

/// Reads `s` as a decimal number that fits in `i32`: `Some` exactly when
/// `s` is one or more ASCII digits whose value is at most `i32::MAX`.
pub fn parse_decimal_i32(s: &str) -> (r: Option<i32>)
    ensures
        r is Some <==> is_decimal(s@) && decimal_value(s@) <= i32::MAX,
        r matches Some(n) ==> n == decimal_value(s@),
{
    let v = chars_of(s);
    assert(v@.subrange(0, v@.len() as int) == v@);
    match parse_decimal_upto(&v, 0, v.len(), 0x7fff_ffff) {
        Some(n) => Some(n as i32),
        None => None,
    }
}

/// `n` written in decimal, without leading zeros.
pub open spec fn decimal_text(n: nat) -> Seq<char>
    decreases n,
{
    if n < 10 {
        seq![digit_char(n)]
    } else {
        decimal_text(n / 10).push(digit_char(n % 10))
    }
}

/// The character of the decimal digit `d`.
pub open spec fn digit_char(d: nat) -> char {
    if d == 0 {
        '0'
    } else if d == 1 {
        '1'
    } else if d == 2 {
        '2'
    } else if d == 3 {
        '3'
    } else if d == 4 {
        '4'
    } else if d == 5 {
        '5'
    } else if d == 6 {
        '6'
    } else if d == 7 {
        '7'
    } else if d == 8 {
        '8'
    } else {
        '9'
    }
}

/// Computes `digit_char`.
fn digit_char_of(d: u64) -> (c: char)
    requires
        d < 10,
    ensures
        c == digit_char(d as nat),
{
    if d == 0 {
        '0'
    } else if d == 1 {
        '1'
    } else if d == 2 {
        '2'
    } else if d == 3 {
        '3'
    } else if d == 4 {
        '4'
    } else if d == 5 {
        '5'
    } else if d == 6 {
        '6'
    } else if d == 7 {
        '7'
    } else if d == 8 {
        '8'
    } else {
        '9'
    }
}

/// Appends `n`, written in decimal, to `out`.
pub fn push_decimal(out: &mut String, n: u64)
    ensures
        final(out)@ == old(out)@ + decimal_text(n as nat),
    decreases n,
{
    if n >= 10 {
        push_decimal(out, n / 10);
        out.push(digit_char_of(n % 10));
        assert(out@ =~= old(out)@ + decimal_text(n as nat));
    } else {
        out.push(digit_char_of(n));
        assert(out@ =~= old(out)@ + decimal_text(n as nat));
    }
}

/// The value of a prefix never exceeds the value of the whole.
pub proof fn lemma_decimal_value_grows(s: Seq<char>, n: int)
    requires
        0 <= n <= s.len(),
    ensures
        decimal_value(s.take(n)) <= decimal_value(s),
    decreases s.len() - n,
{
    if n < s.len() {
        assert(s.take(n + 1).drop_last() == s.take(n));
        lemma_decimal_value_grows(s, n + 1);
    } else {
        assert(s.take(n) == s);
    }
}

/// The lines of `s` from `i` on. A line ends at a line feed, or at the
/// end of the text; the line feed is no part of the line, nor is a
/// carriage return that stands just before it. Nothing follows the last
/// line feed.
pub open spec fn lines_from(s: Seq<char>, i: int) -> Seq<Seq<char>>
    decreases s.len() - i,
    via lines_from_decreases
{
    if i < 0 || i >= s.len() {
        Seq::empty()
    } else {
        let e = run_end(s, i, CharClass::NotLineFeed);
        if e < s.len() {
            let stop = if i < e && s[e - 1] == '\r' {
                e - 1
            } else {
                e
            };
            seq![s.subrange(i, stop)] + lines_from(s, e + 1)
        } else {
            seq![s.subrange(i, e)]
        }
    }
}

#[via_fn]
proof fn lines_from_decreases(s: Seq<char>, i: int) {
    if 0 <= i < s.len() {
        lemma_run_end(s, i, CharClass::NotLineFeed);
    }
}

/// The lines of `s`.
pub open spec fn lines_of(s: Seq<char>) -> Seq<Seq<char>> {
    lines_from(s, 0)
}

/// Cuts `s` into its lines.
pub fn lines(s: &str) -> (out: Vec<String>)
    ensures
        texts(out@) == lines_of(s@),
{
    let v = chars_of(s);
    let mut out: Vec<String> = Vec::new();
    let mut i: usize = 0;
    assert(texts(out@) =~= Seq::<Seq<char>>::empty());
    while i < v.len()
        invariant
            i <= v.len(),
            v@ == s@,
            texts(out@) + lines_from(v@, i as int) == lines_of(v@),
        decreases v.len() - i,
    {
        let e = scan_run(&v, i, CharClass::NotLineFeed);
        let ghost before = texts(out@);
        if e < v.len() {
            let stop = if i < e && v[e - 1] == '\r' {
                e - 1
            } else {
                e
            };
            let line = string_of(&v, i, stop);
            proof {
                lemma_texts_push(out@, line);
                assert(before.push(line@) + lines_from(v@, e + 1) == before + (seq![line@]
                    + lines_from(v@, e + 1)));
            }
            out.push(line);
            i = e + 1;
        } else {
            let line = string_of(&v, i, e);
            proof {
                lemma_texts_push(out@, line);
                assert(before.push(line@) + Seq::<Seq<char>>::empty() == before + seq![line@]);
            }
            out.push(line);
            i = e;
        }
    }
    assert(texts(out@) + Seq::<Seq<char>>::empty() == texts(out@));
    out
}

/// Whether `s` starts with `prefix`.
pub open spec fn starts_with(s: Seq<char>, prefix: Seq<char>) -> bool {
    s.len() >= prefix.len() && s.subrange(0, prefix.len() as int) == prefix
}

/// Whether `s` ends with `suffix`.
pub open spec fn ends_with(s: Seq<char>, suffix: Seq<char>) -> bool {
    s.len() >= suffix.len() && s.subrange(s.len() - suffix.len(), s.len() as int) == suffix
}

/// Whether `v[from..to]` is the text `t`.
pub fn range_is(v: &Vec<char>, from: usize, to: usize, t: &str) -> (b: bool)
    requires
        from <= to <= v.len(),
    ensures
        b == (v@.subrange(from as int, to as int) == t@),
{
    let w = chars_of(t);
    if w.len() != to - from {
        return false;
    }
    let mut i: usize = 0;
    while i < w.len()
        invariant
            i <= w.len(),
            w@ == t@,
            w.len() == to - from,
            from <= to <= v.len(),
            forall|j: int| 0 <= j < i ==> v@[from + j] == w@[j],
        decreases w.len() - i,
    {
        if v[from + i] != w[i] {
            assert(v@.subrange(from as int, to as int)[i as int] != w@[i as int]);
            return false;
        }
        i = i + 1;
    }
    assert(v@.subrange(from as int, to as int) =~= w@);
    true
}

/// Decides `starts_with`.
pub fn has_prefix(v: &Vec<char>, prefix: &str) -> (b: bool)
    ensures
        b == starts_with(v@, prefix@),
{
    let n = prefix.unicode_len();
    if v.len() < n {
        return false;
    }
    range_is(v, 0, n, prefix)
}

/// Decides `ends_with`.
pub fn has_suffix(v: &Vec<char>, suffix: &str) -> (b: bool)
    ensures
        b == ends_with(v@, suffix@),
{
    let n = suffix.unicode_len();
    if v.len() < n {
        return false;
    }
    range_is(v, v.len() - n, v.len(), suffix)
}

} // verus!
