//! Feed change detector: derives a stable integer identity from an
//! asset URL, so that two polls can be compared for "genuinely new
//! image" versus "no-op".
//!
//! The identity is a rolling hash of the *sanitized filename stem* of
//! the URL's last path segment — not of the full URL — so that volatile
//! query strings and signed-URL tokens do not change the identity.
//!
//! A URL is read against a fixed shape: `scheme "://" authority
//! [path] ["?" query] ["#" fragment]`, where the scheme starts with an
//! ASCII letter and continues with letters, digits, `+`, `-` or `.`,
//! and the authority is a non-empty run of printable non-delimiter
//! characters. A reference that does not match this shape is used whole,
//! sanitized, as the filename candidate.

use crate::errors::WatchError;
use crate::link::Link;
use crate::text::{
    find_char, lemma_find_char_located, lemma_find_char_missing, lemma_find_char_prefix,
    lemma_find_char_spec, lemma_rfind_char_agree, lemma_rfind_char_located,
    lemma_rfind_char_missing, lemma_rfind_char_spec, lemma_sanitize_stem_ascii, rfind_char,
    sanitize_loose_text, sanitize_stem_text, spec_sanitize_loose, spec_sanitize_stem,
};
use vstd::prelude::*;
use vstd::string::*;

verus! {

/// Modulus of the rolling hash; identities lie in `[0, HASH_MOD)`.
pub const HASH_MOD: i64 = 1_000_000_007;

/// Multiplier of the rolling hash.
pub const HASH_BASE: i64 = 257;

/// Sentinel for "no image seen yet"; never collides with a real
/// identity, which is always non-negative.
pub const NO_IMAGE: i64 = -1;

/// Rolling hash over a byte sequence:
/// `h = 0; for each byte b: h = (h * 257 + (b + 1)) % 1_000_000_007`.
/// The empty sequence hashes to 0, a well-defined valid identity.
pub open spec fn spec_hash_bytes(s: Seq<u8>) -> int
    decreases s.len(),
{
    if s.len() == 0 {
        0
    } else {
        (spec_hash_bytes(s.drop_last()) * 257 + s.last() + 1) % 1_000_000_007
    }
}

/// The bytes of an ASCII character sequence, character by character.
pub open spec fn chars_to_bytes(s: Seq<char>) -> Seq<u8> {
    Seq::new(s.len(), |i: int| s[i] as u8)
}

/// The rolling hash of a piece of ASCII text.
pub open spec fn spec_hash_text(s: Seq<char>) -> int {
    spec_hash_bytes(chars_to_bytes(s))
}

pub proof fn lemma_hash_bytes_range(s: Seq<u8>)
    ensures
        0 <= spec_hash_bytes(s) < 1_000_000_007,
{
    if s.len() == 0 {
    }
}

/// Hash the UTF-8 bytes of `s` with the rolling hash. Deterministic: the
/// result is a pure function of the text, with no hidden state.
pub fn hash_str(s: &str) -> (r: i64)
    ensures
        r == spec_hash_bytes(s.spec_bytes()),
        0 <= r < 1_000_000_007,
{
    let bytes = s.as_bytes_vec();
    let mut h: i64 = 0;
    let mut i: usize = 0;
    while i < bytes.len()
        invariant
            i <= bytes@.len(),
            bytes@ == s.spec_bytes(),
            0 <= h < 1_000_000_007,
            h == spec_hash_bytes(bytes@.take(i as int)),
        decreases bytes@.len() - i,
    {
        let b = bytes[i];
        proof {
            assert(bytes@.take(i + 1).drop_last() =~= bytes@.take(i as int));
        }
        h = (h * 257 + (b as i64 + 1)) % 1_000_000_007;
        i += 1;
    }
    proof {
        assert(bytes@.take(bytes@.len() as int) =~= bytes@);
    }
    h
}

pub open spec fn is_alpha_char(c: char) -> bool {
    ('a' <= c && c <= 'z') || ('A' <= c && c <= 'Z')
}

/// Characters allowed in a URL scheme after its leading letter.
pub open spec fn is_scheme_char(c: char) -> bool {
    is_alpha_char(c) || ('0' <= c && c <= '9') || c == '+' || c == '-' || c == '.'
}

/// Characters allowed in a URL authority: printable and not a
/// path/query/fragment delimiter.
pub open spec fn is_authority_char(c: char) -> bool {
    c > ' ' && c != '/' && c != '?' && c != '#'
}

/// The scheme candidate `s[0..p]` is a well-formed scheme.
pub open spec fn spec_scheme_ok(s: Seq<char>, p: int) -> bool {
    &&& 1 <= p <= s.len()
    &&& is_alpha_char(s[0])
    &&& forall|j: int| 0 <= j < p ==> is_scheme_char(#[trigger] s[j])
}

/// The last path segment of `s`, when `s` matches the URL shape;
/// `None` otherwise. A URL whose path is empty (or ends in `/`) has the
/// empty segment. The query and fragment never contribute.
pub open spec fn spec_last_segment(s: Seq<char>) -> Option<Seq<char>> {
    let p = find_char(s, 0, set![':']);
    if p == s.len() || !spec_scheme_ok(s, p) {
        None
    } else if !(p + 3 <= s.len() && s[p + 1] == '/' && s[p + 2] == '/') {
        None
    } else {
        let ae = find_char(s, p + 3, set!['/', '?', '#']);
        if ae == p + 3 {
            None
        } else if !(forall|j: int| p + 3 <= j < ae ==> is_authority_char(#[trigger] s[j])) {
            None
        } else {
            let pe = find_char(s, ae, set!['?', '#']);
            match rfind_char(s, ae, pe, '/') {
                Some(i) => Some(s.subrange(i + 1, pe)),
                None => Some(Seq::empty()),
            }
        }
    }
}

fn alpha_char(c: char) -> (r: bool)
    ensures
        r == is_alpha_char(c),
{
    ('a' <= c && c <= 'z') || ('A' <= c && c <= 'Z')
}

fn scheme_char(c: char) -> (r: bool)
    ensures
        r == is_scheme_char(c),
{
    alpha_char(c) || ('0' <= c && c <= '9') || c == '+' || c == '-' || c == '.'
}

fn authority_char(c: char) -> (r: bool)
    ensures
        r == is_authority_char(c),
{
    c > ' ' && c != '/' && c != '?' && c != '#'
}

/// Extract the last path segment of `s`, or report that `s` does not
/// match the URL shape.
pub fn url_last_segment(s: &str) -> (r: Option<String>)
    ensures
        match r {
            Some(seg) => spec_last_segment(s@) == Some(seg@),
            None => spec_last_segment(s@) is None,
        },
{
    let n = s.unicode_len();
    // scheme: scan to the first ':', checking characters on the way
    let mut i: usize = 0;
    let mut colon: usize = 0;
    loop
        invariant
            i <= n,
            n == s@.len(),
            forall|j: int| 0 <= j < i ==> is_scheme_char(#[trigger] s@[j]) && s@[j] != ':',
        ensures
            colon < n,
            n == s@.len(),
            find_char(s@, 0, set![':']) == colon as int,
            forall|j: int| 0 <= j < colon ==> is_scheme_char(#[trigger] s@[j]),
        decreases n - i,
    {
        if i >= n {
            proof {
                lemma_find_char_missing(s@, 0, set![':']);
            }
            return None;
        }
        let c = s.get_char(i);
        if c == ':' {
            colon = i;
            proof {
                lemma_find_char_located(s@, 0, set![':'], i as int);
            }
            break ;
        }
        if !scheme_char(c) {
            proof {
                lemma_find_char_spec(s@, 0, set![':']);
                let p = find_char(s@, 0, set![':']);
                if p < s@.len() {
                    assert(s@[p] == ':');
                    assert(p > i);
                    assert(!is_scheme_char(s@[i as int]));
                }
            }
            return None;
        }
        i += 1;
    }
    let p = colon;
    if p == 0 {
        return None;
    }
    if !alpha_char(s.get_char(0)) {
        return None;
    }
    if n - p < 3 {
        return None;
    }
    if s.get_char(p + 1) != '/' || s.get_char(p + 2) != '/' {
        return None;
    }
    // authority: scan to the first '/', '?' or '#'
    let mut i: usize = p + 3;
    let ghost a0: int = p + 3;
    let mut ae: usize = 0;
    loop
        invariant
            p + 3 <= i <= n,
            n == s@.len(),
            a0 == p + 3,
            find_char(s@, 0, set![':']) == p as int,
            spec_scheme_ok(s@, p as int),
            s@[p as int + 1] == '/',
            s@[p as int + 2] == '/',
            forall|j: int|
                a0 <= j < i ==> is_authority_char(#[trigger] s@[j]) && s@[j] != '/' && s@[j] != '?'
                    && s@[j] != '#',
        ensures
            p + 3 <= ae <= n,
            n == s@.len(),
            find_char(s@, p + 3 as int, set!['/', '?', '#']) == ae as int,
            forall|j: int| p + 3 <= j < ae ==> is_authority_char(#[trigger] s@[j]),
        decreases n - i,
    {
        if i >= n {
            ae = i;
            proof {
                lemma_find_char_missing(s@, a0, set!['/', '?', '#']);
            }
            break ;
        }
        let c = s.get_char(i);
        if c == '/' || c == '?' || c == '#' {
            ae = i;
            proof {
                lemma_find_char_located(s@, a0, set!['/', '?', '#'], i as int);
            }
            break ;
        }
        if !authority_char(c) {
            proof {
                lemma_find_char_spec(s@, a0, set!['/', '?', '#']);
                let a = find_char(s@, a0, set!['/', '?', '#']);
                assert(a > i) by {
                    if a <= i {
                        assert((set!['/', '?', '#']).contains(s@[a]));
                    }
                }
                assert(!is_authority_char(s@[i as int]));
            }
            return None;
        }
        i += 1;
    }
    if ae == p + 3 {
        return None;
    }
    // path: scan to the first '?' or '#', remembering the last '/'
    let mut i: usize = ae;
    let ghost aa: int = ae as int;
    let mut pe: usize = 0;
    let mut last_slash: usize = 0;
    let mut seen_slash: bool = false;
    loop
        invariant
            ae <= i <= n,
            aa == ae,
            ae <= n == s@.len(),
            forall|j: int| aa <= j < i ==> s@[j] != '?' && s@[j] != '#',
            seen_slash ==> aa <= last_slash < i && s@[last_slash as int] == '/',
            seen_slash ==> forall|j: int| last_slash < j < i ==> s@[j] != '/',
            !seen_slash ==> forall|j: int| aa <= j < i ==> s@[j] != '/',
        ensures
            ae <= pe <= n == s@.len(),
            find_char(s@, ae as int, set!['?', '#']) == pe as int,
            seen_slash ==> ae <= last_slash < pe && rfind_char(s@, ae as int, pe as int, '/')
                == Some(last_slash as int),
            !seen_slash ==> rfind_char(s@, ae as int, pe as int, '/') is None,
        decreases n - i,
    {
        if i >= n {
            pe = i;
            proof {
                lemma_find_char_missing(s@, aa, set!['?', '#']);
                if seen_slash {
                    lemma_rfind_char_located(s@, aa, pe as int, '/', last_slash as int);
                } else {
                    lemma_rfind_char_missing(s@, aa, pe as int, '/');
                }
            }
            break ;
        }
        let c = s.get_char(i);
        if c == '?' || c == '#' {
            pe = i;
            proof {
                lemma_find_char_located(s@, aa, set!['?', '#'], i as int);
                if seen_slash {
                    lemma_rfind_char_located(s@, aa, pe as int, '/', last_slash as int);
                } else {
                    lemma_rfind_char_missing(s@, aa, pe as int, '/');
                }
            }
            break ;
        }
        if c == '/' {
            last_slash = i;
            seen_slash = true;
        }
        i += 1;
    }
    if seen_slash {
        let seg = s.substring_char(last_slash + 1, pe);
        Some(seg.to_owned())
    } else {
        Some(String::new())
    }
}

/// The filename candidate of an asset reference: the last path segment
/// when the reference matches the URL shape, else the whole reference
/// sanitized.
pub open spec fn spec_candidate(url: Seq<char>) -> Seq<char> {
    match spec_last_segment(url) {
        Some(seg) => seg,
        None => spec_sanitize_loose(url),
    }
}

/// Split a filename candidate into stem and extension. A name with no
/// dot, a leading-dot-only name, `.`, `..` or the empty name has no
/// extension of its own; the extension then defaults to `png`, and the
/// degenerate names fall back to the stem `image`.
pub open spec fn spec_split_name(f: Seq<char>) -> (Seq<char>, Seq<char>) {
    if f.len() == 0 || f == "."@ || f == ".."@ {
        ("image"@, "png"@)
    } else {
        match rfind_char(f, 0, f.len() as int, '.') {
            None => (f, "png"@),
            Some(i) => if i == 0 {
                (f, "png"@)
            } else {
                (f.subrange(0, i), f.subrange(i + 1, f.len() as int))
            },
        }
    }
}

/// The sanitized stem an asset reference hashes to.
pub open spec fn spec_stem_of(url: Seq<char>) -> Seq<char> {
    spec_sanitize_stem(spec_split_name(spec_candidate(url)).0)
}

/// The extension an asset reference is staged under.
pub open spec fn spec_ext_of(url: Seq<char>) -> Seq<char> {
    spec_split_name(spec_candidate(url)).1
}

/// The identity of an asset reference: the rolling hash of its
/// sanitized stem.
pub open spec fn spec_identity(url: Seq<char>) -> int {
    spec_hash_text(spec_stem_of(url))
}

/// The filename a new image is staged under.
pub open spec fn spec_staged_name(url: Seq<char>) -> Seq<char> {
    spec_stem_of(url) + "."@ + spec_ext_of(url)
}

/// Split a filename candidate into stem and extension.
pub fn split_name(f: &str) -> (r: (String, String))
    ensures
        r.0@ == spec_split_name(f@).0,
        r.1@ == spec_split_name(f@).1,
{
    let n = f.unicode_len();
    proof {
        reveal_strlit(".");
        reveal_strlit("..");
    }
    if n == 0 {
        return (String::from_str("image"), String::from_str("png"));
    }
    if n == 1 && f.get_char(0) == '.' {
        proof {
            assert(f@ =~= "."@);
        }
        return (String::from_str("image"), String::from_str("png"));
    }
    if n == 2 && f.get_char(0) == '.' && f.get_char(1) == '.' {
        proof {
            assert(f@ =~= ".."@);
        }
        return (String::from_str("image"), String::from_str("png"));
    }
    proof {
        assert(f@ != "."@ && f@ != ".."@) by {
            if f@ == "."@ {
                assert(f@.len() == 1 && f@[0] == '.');
            }
            if f@ == ".."@ {
                assert(f@.len() == 2 && f@[0] == '.' && f@[1] == '.');
            }
        }
    }
    let mut i: usize = n;
    let mut found: bool = false;
    loop
        invariant_except_break
            forall|j: int| i <= j < n ==> f@[j] != '.',
            !found,
        invariant
            i <= n,
            n == f@.len(),
            n >= 1,
        ensures
            n == f@.len(),
            found ==> i < n && rfind_char(f@, 0, n as int, '.') == Some(i as int),
            !found ==> rfind_char(f@, 0, n as int, '.') is None,
        decreases i,
    {
        if i == 0 {
            proof {
                lemma_rfind_char_missing(f@, 0, n as int, '.');
            }
            break ;
        }
        i -= 1;
        if f.get_char(i) == '.' {
            found = true;
            proof {
                lemma_rfind_char_located(f@, 0, n as int, '.', i as int);
            }
            break ;
        }
    }
    if !found || i == 0 {
        (f.to_owned(), String::from_str("png"))
    } else {
        let stem = f.substring_char(0, i);
        let ext = f.substring_char(i + 1, n);
        (stem.to_owned(), ext.to_owned())
    }
}

/// The identity of an asset reference; always in `[0, HASH_MOD)`, so it
/// never collides with the `NO_IMAGE` sentinel.
pub fn identity_of(url: &str) -> (r: i64)
    ensures
        r == spec_identity(url@),
        0 <= r < HASH_MOD,
{
    let candidate: String = match url_last_segment(url) {
        Some(seg) => seg,
        None => sanitize_loose_text(url),
    };
    let parts = split_name(candidate.as_str());
    let stem = sanitize_stem_text(parts.0.as_str());
    proof {
        lemma_sanitize_stem_ascii(parts.0@);
        vstd::utf8::is_ascii_chars_encode_utf8(stem@);
        assert(vstd::utf8::encode_utf8(stem@) =~= chars_to_bytes(stem@));
    }
    hash_str(stem.as_str())
}

/// The filename a new image from `url` is staged under: the sanitized
/// stem, a dot, and the extension.
pub fn staged_file_name(url: &str) -> (r: String)
    ensures
        r@ == spec_staged_name(url@),
{
    let candidate: String = match url_last_segment(url) {
        Some(seg) => seg,
        None => sanitize_loose_text(url),
    };
    let parts = split_name(candidate.as_str());
    let stem = sanitize_stem_text(parts.0.as_str());
    stem.concat(".").concat(parts.1.as_str())
}

/// The change detector's contract over a whole feed state: the identity
/// of its asset reference, or `MalformedAsset` exactly when the state
/// holds no usable asset reference.
pub fn identity_of_link(link: &Link) -> (r: Result<i64, WatchError>)
    ensures
        match r {
            Ok(v) => link.post_url matches Some(u) && v == spec_identity(u@) && 0 <= v < HASH_MOD,
            Err(e) => e is MalformedAsset && link.post_url is None,
        },
{
    match &link.post_url {
        Some(u) => Ok(identity_of(u.as_str())),
        None => Err(WatchError::MalformedAsset),
    }
}

/// The identity is a pure function of the asset reference: equal text
/// gives equal identity, in every call and every run.
pub proof fn lemma_identity_deterministic(u1: Seq<char>, u2: Seq<char>)
    requires
        u1 == u2,
    ensures
        spec_identity(u1) == spec_identity(u2),
{
}

/// A real identity is never the `NO_IMAGE` sentinel.
pub proof fn lemma_identity_never_sentinel(url: Seq<char>)
    ensures
        spec_identity(url) != NO_IMAGE,
{
    lemma_hash_bytes_range(chars_to_bytes(spec_stem_of(url)));
}

/// The last path segment ignores everything at or after the first `?`:
/// a reference that matches the URL shape up to its query keeps the
/// same segment whatever the query holds.
proof fn lemma_last_segment_extend(u: Seq<char>, n: int)
    requires
        0 <= n <= u.len(),
        forall|i: int| 0 <= i < n ==> u[i] != '?' && #[trigger] u[i] != '#',
        n < u.len() ==> u[n] == '?',
        spec_last_segment(u.subrange(0, n)) is Some,
    ensures
        spec_last_segment(u) == spec_last_segment(u.subrange(0, n)),
{
    let b = u.subrange(0, n);
    let cs_colon = set![':'];
    let cs_delim = set!['/', '?', '#'];
    let cs_query = set!['?', '#'];
    let p = find_char(b, 0, cs_colon);
    lemma_find_char_spec(b, 0, cs_colon);
    assert(p < n);
    lemma_find_char_prefix(u, n, 0, cs_colon);
    assert(find_char(u, 0, cs_colon) == p);
    assert(spec_scheme_ok(u, p)) by {
        assert(forall|j: int| 0 <= j < p ==> u[j] == b[j]);
        assert(u[0] == b[0]);
    }
    let ae = find_char(b, p + 3, cs_delim);
    lemma_find_char_spec(b, p + 3, cs_delim);
    lemma_find_char_prefix(u, n, p + 3, cs_delim);
    assert(find_char(u, p + 3, cs_delim) == ae) by {
        if ae == n {
            if n < u.len() {
                assert(cs_delim.contains(u[n]));
            }
        }
    }
    assert(forall|j: int| p + 3 <= j < ae ==> u[j] == b[j]);
    let pe = find_char(b, ae, cs_query);
    assert(pe == n) by {
        lemma_find_char_missing(b, ae, cs_query);
    }
    lemma_find_char_prefix(u, n, ae, cs_query);
    assert(find_char(u, ae, cs_query) == n) by {
        if n < u.len() {
            assert(cs_query.contains(u[n]));
        }
    }
    lemma_rfind_char_agree(u, b, ae, n, '/');
    lemma_rfind_char_spec(b, ae, n, '/');
    match rfind_char(b, ae, n, '/') {
        Some(k) => {
            assert(u.subrange(k + 1, n) =~= b.subrange(k + 1, n));
        },
        None => {},
    }
}

/// Identity is stable under query-string churn: two references that
/// agree up to their first `?`, where the shared prefix matches the URL
/// shape, have the same identity and the same staged filename, whatever
/// their query strings or tokens hold.
pub proof fn lemma_identity_query_stable(u1: Seq<char>, u2: Seq<char>, n: int)
    requires
        0 <= n <= u1.len(),
        n <= u2.len(),
        u1.subrange(0, n) == u2.subrange(0, n),
        forall|i: int| 0 <= i < n ==> u1[i] != '?' && #[trigger] u1[i] != '#',
        n < u1.len() ==> u1[n] == '?',
        n < u2.len() ==> u2[n] == '?',
        spec_last_segment(u1.subrange(0, n)) is Some,
    ensures
        spec_identity(u1) == spec_identity(u2),
        spec_staged_name(u1) == spec_staged_name(u2),
{
    assert(forall|i: int| 0 <= i < n ==> u2[i] == u1.subrange(0, n)[i]);
    lemma_last_segment_extend(u1, n);
    lemma_last_segment_extend(u2, n);
}

} // verus!
