//! Character classes and small text utilities shared by the change
//! detector, the URL builders and the review-session action ids:
//! first/last occurrence of a character, sanitization, and decimal
//! text for 64-bit integers.

use vstd::prelude::*;
use vstd::string::*;

verus! {

/// Relies on `alloc::string::String::push`: appends the given character
/// to the end of the string.
pub assume_specification[ String::push ](s: &mut String, c: char)
    ensures
        final(s)@ == old(s)@.push(c),
;

/// Characters kept unchanged when a filename stem is sanitized:
/// ASCII letters, digits, `-` and `_`.
pub open spec fn is_stem_char(c: char) -> bool {
    ('a' <= c && c <= 'z') || ('A' <= c && c <= 'Z') || ('0' <= c && c <= '9') || c == '-' || c
        == '_'
}

/// Characters kept unchanged when a whole URL is used as a filename:
/// the stem characters plus `.`.
pub open spec fn is_loose_char(c: char) -> bool {
    is_stem_char(c) || c == '.'
}

pub open spec fn is_digit_char(c: char) -> bool {
    '0' <= c && c <= '9'
}

fn stem_char(c: char) -> (r: bool)
    ensures
        r == is_stem_char(c),
{
    ('a' <= c && c <= 'z') || ('A' <= c && c <= 'Z') || ('0' <= c && c <= '9') || c == '-' || c
        == '_'
}

fn loose_char(c: char) -> (r: bool)
    ensures
        r == is_loose_char(c),
{
    stem_char(c) || c == '.'
}

/// Every character outside the stem class replaced by `_`.
pub open spec fn spec_sanitize_stem(s: Seq<char>) -> Seq<char> {
    s.map_values(|c: char| if is_stem_char(c) { c } else { '_' })
}

/// Every character outside the loose class replaced by `_`.
pub open spec fn spec_sanitize_loose(s: Seq<char>) -> Seq<char> {
    s.map_values(|c: char| if is_loose_char(c) { c } else { '_' })
}

/// Replace every character of `s` outside `[A-Za-z0-9_-]` by `_`.
pub fn sanitize_stem_text(s: &str) -> (r: String)
    ensures
        r@ == spec_sanitize_stem(s@),
{
    let n = s.unicode_len();
    let mut out = String::new();
    let mut i: usize = 0;
    while i < n
        invariant
            i <= n,
            n == s@.len(),
            out@ == spec_sanitize_stem(s@.take(i as int)),
        decreases n - i,
    {
        let c = s.get_char(i);
        if stem_char(c) {
            out.push(c);
        } else {
            out.push('_');
        }
        proof {
            assert(out@ =~= spec_sanitize_stem(s@.take(i + 1)));
        }
        i += 1;
    }
    proof {
        assert(s@.take(n as int) =~= s@);
    }
    out
}

/// Replace every character of `s` outside `[A-Za-z0-9._-]` by `_`.
pub fn sanitize_loose_text(s: &str) -> (r: String)
    ensures
        r@ == spec_sanitize_loose(s@),
{
    let n = s.unicode_len();
    let mut out = String::new();
    let mut i: usize = 0;
    while i < n
        invariant
            i <= n,
            n == s@.len(),
            out@ == spec_sanitize_loose(s@.take(i as int)),
        decreases n - i,
    {
        let c = s.get_char(i);
        if loose_char(c) {
            out.push(c);
        } else {
            out.push('_');
        }
        proof {
            assert(out@ =~= spec_sanitize_loose(s@.take(i + 1)));
        }
        i += 1;
    }
    proof {
        assert(s@.take(n as int) =~= s@);
    }
    out
}

/// A sanitized stem holds only ASCII characters.
pub proof fn lemma_sanitize_stem_ascii(s: Seq<char>)
    ensures
        vstd::utf8::is_ascii_chars(spec_sanitize_stem(s)),
{
}

/// The first index `i` with `from <= i < s.len()` whose character is in
/// `cs`, or `s.len()` when there is none.
pub open spec fn find_char(s: Seq<char>, from: int, cs: Set<char>) -> int
    decreases s.len() - from,
{
    if from < 0 || from >= s.len() {
        s.len() as int
    } else if cs.contains(s[from]) {
        from
    } else {
        find_char(s, from + 1, cs)
    }
}

/// The last index `i` with `lo <= i < hi` and `s[i] == c`, if any.
pub open spec fn rfind_char(s: Seq<char>, lo: int, hi: int, c: char) -> Option<int>
    decreases hi - lo,
{
    if lo < 0 || hi > s.len() || hi <= lo {
        None
    } else if s[hi - 1] == c {
        Some(hi - 1)
    } else {
        rfind_char(s, lo, hi - 1, c)
    }
}

pub proof fn lemma_find_char_located(s: Seq<char>, from: int, cs: Set<char>, i: int)
    requires
        0 <= from <= i < s.len(),
        cs.contains(s[i]),
        forall|j: int| from <= j < i ==> !cs.contains(s[j]),
    ensures
        find_char(s, from, cs) == i,
    decreases i - from,
{
    if from < i {
        lemma_find_char_located(s, from + 1, cs, i);
    }
}

pub proof fn lemma_find_char_missing(s: Seq<char>, from: int, cs: Set<char>)
    requires
        0 <= from,
        forall|j: int| from <= j < s.len() ==> !cs.contains(s[j]),
    ensures
        find_char(s, from, cs) == s.len(),
    decreases s.len() - from,
{
    if from < s.len() {
        lemma_find_char_missing(s, from + 1, cs);
    }
}

pub proof fn lemma_find_char_spec(s: Seq<char>, from: int, cs: Set<char>)
    requires
        0 <= from <= s.len(),
    ensures
        from <= find_char(s, from, cs) <= s.len(),
        find_char(s, from, cs) < s.len() ==> cs.contains(s[find_char(s, from, cs)]),
        forall|j: int| from <= j < find_char(s, from, cs) ==> !cs.contains(s[j]),
    decreases s.len() - from,
{
    if from < s.len() && !cs.contains(s[from]) {
        lemma_find_char_spec(s, from + 1, cs);
    }
}

/// Searching a prefix and searching the whole sequence agree, as long
/// as the hit (or the prefix end, when the character right after the
/// prefix is itself a hit or the sequence ends there) lies in the prefix.
pub proof fn lemma_find_char_prefix(u: Seq<char>, n: int, from: int, cs: Set<char>)
    requires
        0 <= from <= n <= u.len(),
    ensures
        find_char(u.subrange(0, n), from, cs) < n ==> find_char(u, from, cs) == find_char(
            u.subrange(0, n),
            from,
            cs,
        ),
        find_char(u.subrange(0, n), from, cs) == n && n < u.len() && cs.contains(u[n])
            ==> find_char(u, from, cs) == n,
        find_char(u.subrange(0, n), from, cs) == n && n == u.len() ==> find_char(u, from, cs) == n,
{
    let b = u.subrange(0, n);
    lemma_find_char_spec(b, from, cs);
    let r = find_char(b, from, cs);
    assert forall|j: int| from <= j < r implies !cs.contains(u[j]) by {
        assert(u[j] == b[j]);
        assert(!cs.contains(b[j]));
    }
    if r < n {
        lemma_find_char_located(u, from, cs, r);
    } else if n < u.len() && cs.contains(u[n]) {
        lemma_find_char_located(u, from, cs, n);
    } else if n == u.len() {
        lemma_find_char_missing(u, from, cs);
    }
}

pub proof fn lemma_rfind_char_located(s: Seq<char>, lo: int, hi: int, c: char, i: int)
    requires
        0 <= lo <= i < hi <= s.len(),
        s[i] == c,
        forall|j: int| i < j < hi ==> s[j] != c,
    ensures
        rfind_char(s, lo, hi, c) == Some(i),
    decreases hi - i,
{
    if i < hi - 1 {
        lemma_rfind_char_located(s, lo, hi - 1, c, i);
    }
}

pub proof fn lemma_rfind_char_missing(s: Seq<char>, lo: int, hi: int, c: char)
    requires
        forall|j: int| lo <= j < hi ==> 0 <= j < s.len() && s[j] != c,
    ensures
        rfind_char(s, lo, hi, c) is None,
    decreases hi - lo,
{
    if 0 <= lo && hi <= s.len() && lo < hi {
        lemma_rfind_char_missing(s, lo, hi - 1, c);
    }
}

pub proof fn lemma_rfind_char_spec(s: Seq<char>, lo: int, hi: int, c: char)
    requires
        0 <= lo,
        hi <= s.len(),
    ensures
        match rfind_char(s, lo, hi, c) {
            Some(i) => lo <= i < hi && s[i] == c && forall|j: int| i < j < hi ==> s[j] != c,
            None => forall|j: int| lo <= j < hi ==> s[j] != c,
        },
    decreases hi - lo,
{
    if lo < hi && s[hi - 1] != c {
        lemma_rfind_char_spec(s, lo, hi - 1, c);
    }
}

/// The search depends only on the characters in `[lo, hi)`.
pub proof fn lemma_rfind_char_agree(s: Seq<char>, t: Seq<char>, lo: int, hi: int, c: char)
    requires
        hi <= s.len(),
        hi <= t.len(),
        forall|j: int| lo <= j < hi ==> s[j] == t[j],
    ensures
        rfind_char(s, lo, hi, c) == rfind_char(t, lo, hi, c),
    decreases hi - lo,
{
    if 0 <= lo && lo < hi {
        lemma_rfind_char_agree(s, t, lo, hi - 1, c);
    }
}

/// The decimal digit character for `d` in `0..10`.
pub open spec fn spec_digit_char(d: int) -> char {
    ((d + 48) as u8) as char
}

/// The decimal digits of a non-negative number, most significant first.
pub open spec fn spec_nat_digits(n: int) -> Seq<char>
    decreases n,
{
    if n < 10 {
        seq![spec_digit_char(if n < 0 { 0 } else { n })]
    } else {
        spec_nat_digits(n / 10).push(spec_digit_char(n % 10))
    }
}

/// The decimal text of a 64-bit signed number.
pub open spec fn spec_i64_text(n: int) -> Seq<char> {
    if n < 0 {
        seq!['-'] + spec_nat_digits(-n)
    } else {
        spec_nat_digits(n)
    }
}

pub proof fn lemma_nat_digits_are_digits(n: int)
    requires
        0 <= n,
    ensures
        spec_nat_digits(n).len() >= 1,
        forall|j: int|
            0 <= j < spec_nat_digits(n).len() ==> is_digit_char(#[trigger] spec_nat_digits(n)[j]),
    decreases n,
{
    if n >= 10 {
        lemma_nat_digits_are_digits(n / 10);
    }
}

fn digit_char(d: u64) -> (c: char)
    requires
        d < 10,
    ensures
        c == spec_digit_char(d as int),
        is_digit_char(c),
{
    ((d + 48) as u8) as char
}

fn u64_text(n: u64) -> (r: String)
    ensures
        r@ == spec_nat_digits(n as int),
{
    let mut m: u64 = n;
    let mut rev: Vec<char> = Vec::new();
    while m >= 10
        invariant
            spec_nat_digits(n as int) == spec_nat_digits(m as int) + rev@.reverse(),
        decreases m,
    {
        let d = digit_char(m % 10);
        let ghost prev = rev@;
        rev.push(d);
        proof {
            assert(rev@.reverse() =~= seq![d] + prev.reverse());
            assert(spec_nat_digits(m as int) + prev.reverse() =~= spec_nat_digits(m as int / 10)
                + (seq![d] + prev.reverse()));
        }
        m = m / 10;
    }
    let d = digit_char(m);
    let ghost prev = rev@;
    rev.push(d);
    proof {
        assert(rev@.reverse() =~= seq![d] + prev.reverse());
        assert(spec_nat_digits(n as int) =~= rev@.reverse());
    }
    let mut out = String::new();
    let mut i: usize = rev.len();
    while i > 0
        invariant
            i <= rev@.len(),
            out@ == rev@.subrange(i as int, rev@.len() as int).reverse(),
        decreases i,
    {
        i -= 1;
        out.push(rev[i]);
        proof {
            assert(out@ =~= rev@.subrange(i as int, rev@.len() as int).reverse());
        }
    }
    proof {
        assert(out@ =~= rev@.reverse());
    }
    out
}

/// The decimal text of `n`, with a leading `-` when `n` is negative.
pub fn i64_text(n: i64) -> (r: String)
    ensures
        r@ == spec_i64_text(n as int),
{
    if n >= 0 {
        u64_text(n as u64)
    } else {
        // the magnitude of i64::MIN does not fit in i64, so negate in two steps
        let m: u64 = ((-(n + 1)) as u64) + 1;
        let digits = u64_text(m);
        let mut out = String::new();
        out.push('-');
        let r = out.concat(digits.as_str());
        proof {
            assert(r@ =~= spec_i64_text(n as int));
        }
        r
    }
}

/// The value of a sequence of decimal digit characters.
pub open spec fn spec_digits_value(s: Seq<char>) -> int
    decreases s.len(),
{
    if s.len() == 0 {
        0
    } else {
        spec_digits_value(s.drop_last()) * 10 + (s.last() as int - 48)
    }
}

/// The number a piece of text denotes: defined when the text is one or
/// more decimal digits and the value fits in `i64`.
pub open spec fn spec_parse_nat(s: Seq<char>) -> Option<int> {
    if s.len() >= 1 && (forall|j: int| 0 <= j < s.len() ==> is_digit_char(#[trigger] s[j]))
        && spec_digits_value(s) <= i64::MAX {
        Some(spec_digits_value(s))
    } else {
        None
    }
}

pub proof fn lemma_digits_value_nonneg(s: Seq<char>)
    requires
        forall|j: int| 0 <= j < s.len() ==> is_digit_char(#[trigger] s[j]),
    ensures
        spec_digits_value(s) >= 0,
    decreases s.len(),
{
    if s.len() > 0 {
        lemma_digits_value_nonneg(s.drop_last());
    }
}

/// A longer run of digits denotes at least as large a value.
pub proof fn lemma_digits_value_grows(s: Seq<char>, i: int)
    requires
        0 <= i <= s.len(),
        forall|j: int| 0 <= j < s.len() ==> is_digit_char(#[trigger] s[j]),
    ensures
        spec_digits_value(s.take(i)) <= spec_digits_value(s),
    decreases s.len() - i,
{
    if i < s.len() {
        lemma_digits_value_grows(s, i + 1);
        assert(s.take(i + 1).drop_last() =~= s.take(i));
        lemma_digits_value_nonneg(s.take(i));
    } else {
        assert(s.take(i) =~= s);
    }
}

/// Formatting a number and reading the text back returns the number.
pub proof fn lemma_digits_roundtrip(n: int)
    requires
        0 <= n <= i64::MAX,
    ensures
        spec_parse_nat(spec_nat_digits(n)) == Some(n),
{
    lemma_nat_digits_are_digits(n);
    lemma_digits_value_of_digits(n);
}

pub proof fn lemma_digits_value_of_digits(n: int)
    requires
        0 <= n,
    ensures
        spec_digits_value(spec_nat_digits(n)) == n,
    decreases n,
{
    if n < 10 {
        assert(spec_digit_char(n) as int == n + 48);
        assert(spec_nat_digits(n).drop_last() =~= Seq::<char>::empty());
        assert(spec_digits_value(Seq::<char>::empty()) == 0);
        assert(spec_digits_value(spec_nat_digits(n)) == spec_digits_value(
            spec_nat_digits(n).drop_last(),
        ) * 10 + (spec_nat_digits(n).last() as int - 48));
    } else {
        lemma_digits_value_of_digits(n / 10);
        assert(spec_digit_char(n % 10) as int == n % 10 + 48);
        assert(spec_nat_digits(n).drop_last() =~= spec_nat_digits(n / 10));
        assert(spec_digits_value(spec_nat_digits(n)) == spec_digits_value(
            spec_nat_digits(n).drop_last(),
        ) * 10 + (spec_nat_digits(n).last() as int - 48));
    }
}

fn exec_digit_char(c: char) -> (r: bool)
    ensures
        r == is_digit_char(c),
{
    '0' <= c && c <= '9'
}

/// Read a non-negative decimal number, rejecting empty text, any
/// non-digit character, and values beyond `i64::MAX`.
pub fn parse_nat_text(s: &str) -> (r: Option<i64>)
    ensures
        match r {
            Some(v) => spec_parse_nat(s@) == Some(v as int),
            None => spec_parse_nat(s@) is None,
        },
{
    let n = s.unicode_len();
    if n == 0 {
        return None;
    }
    let mut v: i64 = 0;
    let mut i: usize = 0;
    while i < n
        invariant
            i <= n,
            n == s@.len(),
            n >= 1,
            0 <= v,
            v == spec_digits_value(s@.take(i as int)),
            forall|j: int| 0 <= j < i ==> is_digit_char(#[trigger] s@[j]),
        decreases n - i,
    {
        let c = s.get_char(i);
        if !exec_digit_char(c) {
            return None;
        }
        let d: i64 = (c as u32 as i64) - 48;
        if v > (i64::MAX - d) / 10 {
            // the value can only grow with further digits
            proof {
                assert(s@.take(i + 1).drop_last() =~= s@.take(i as int));
                assert(spec_digits_value(s@.take(i + 1)) > i64::MAX);
                if s@.len() >= 1 && (forall|j: int|
                    0 <= j < s@.len() ==> is_digit_char(#[trigger] s@[j]))
                    && spec_digits_value(s@) <= i64::MAX {
                    lemma_digits_value_grows(s@, i + 1);
                }
            }
            return None;
        }
        proof {
            assert(s@.take(i + 1).drop_last() =~= s@.take(i as int));
        }
        v = v * 10 + d;
        i += 1;
    }
    proof {
        assert(s@.take(n as int) =~= s@);
    }
    Some(v)
}

} // verus!
