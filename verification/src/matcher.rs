//! Recognition of the two link forms inside free-form message text.
//!
//! A desktop-form link is `http(s)://`, an optional `www.` or `m.` subdomain,
//! the platform domain, one of the path shapes `embed/<digits>`,
//! `@<handle>/video/<digits>` or `v/<digits>`; the digit run is the video id.
//! A short-form link is `http(s)://`, a `vm.` or `vt.` subdomain, the platform
//! domain and a non-empty run of word characters; the whole matched substring
//! is the URL handed to the redirect probe.
//!
//! The grammar is deterministic: at every position of the text, at most one
//! parse exists, and the spec functions below define it directly. Search is
//! leftmost: the first position at which a parse succeeds wins.

use vstd::prelude::*;
use vstd::string::StrSliceExecFns;
use vstd::string::StringExecFns;

verus! {

// ---------------------------------------------------------------------------
// Character classes
// ---------------------------------------------------------------------------

/// An ASCII decimal digit.
pub open spec fn is_digit_char(c: char) -> bool {
    ('0' as u32) <= (c as u32) && (c as u32) <= ('9' as u32)
}

/// An ASCII word character: letter, digit or underscore. Short codes are runs
/// of these.
pub open spec fn is_word_char(c: char) -> bool {
    is_digit_char(c)
    || (('a' as u32) <= (c as u32) && (c as u32) <= ('z' as u32))
    || (('A' as u32) <= (c as u32) && (c as u32) <= ('Z' as u32))
    || c == '_'
}

/// A character allowed in an author handle: word characters plus `.` and `-`.
pub open spec fn is_handle_char(c: char) -> bool {
    is_word_char(c) || c == '.' || c == '-'
}

fn digit_char(c: char) -> (b: bool)
    ensures
        b == is_digit_char(c),
{
    let u = c as u32;
    48 <= u && u <= 57
}

fn word_char(c: char) -> (b: bool)
    ensures
        b == is_word_char(c),
{
    let u = c as u32;
    (48 <= u && u <= 57) || (97 <= u && u <= 122) || (65 <= u && u <= 90) || c == '_'
}

fn handle_char(c: char) -> (b: bool)
    ensures
        b == is_handle_char(c),
{
    word_char(c) || c == '.' || c == '-'
}

// ---------------------------------------------------------------------------
// Literal matching
// ---------------------------------------------------------------------------

/// The literal `lit` occurs in `s` starting at position `i`.
pub open spec fn lit_at(s: Seq<char>, i: int, lit: Seq<char>) -> bool {
    0 <= i && i + lit.len() <= s.len() && s.subrange(i, i + lit.len()) == lit
}

fn match_lit(s: &str, n: usize, i: usize, lit: &str) -> (b: bool)
    requires
        n == s@.len(),
    ensures
        b == lit_at(s@, i as int, lit@),
{
    let m = lit.unicode_len();
    if i > n || m > n - i {
        return false;
    }
    let mut k: usize = 0;
    while k < m
        invariant
            n == s@.len(),
            m == lit@.len(),
            i + m <= n,
            k <= m,
            forall|t: int| 0 <= t < k ==> s@[i + t] == lit@[t],
        decreases m - k,
    {
        if s.get_char(i + k) != lit.get_char(k) {
            proof {
                assert(s@.subrange(i as int, i + m as int)[k as int] == s@[i + k]);
            }
            return false;
        }
        k += 1;
    }
    proof {
        assert(s@.subrange(i as int, i + m as int) =~= lit@);
    }
    true
}

// ---------------------------------------------------------------------------
// Greedy character-class runs
// ---------------------------------------------------------------------------

/// The end of the run of digits starting at `i`: the first position at or
/// after `i` holding no digit.
pub open spec fn digit_run_end(s: Seq<char>, i: int) -> int
    decreases s.len() - i,
{
    if i < 0 || i >= s.len() || !is_digit_char(s[i]) {
        i
    } else {
        digit_run_end(s, i + 1)
    }
}

/// The end of the run of word characters starting at `i`.
pub open spec fn word_run_end(s: Seq<char>, i: int) -> int
    decreases s.len() - i,
{
    if i < 0 || i >= s.len() || !is_word_char(s[i]) {
        i
    } else {
        word_run_end(s, i + 1)
    }
}

/// The end of the run of handle characters starting at `i`.
pub open spec fn handle_run_end(s: Seq<char>, i: int) -> int
    decreases s.len() - i,
{
    if i < 0 || i >= s.len() || !is_handle_char(s[i]) {
        i
    } else {
        handle_run_end(s, i + 1)
    }
}

fn scan_digits(s: &str, n: usize, d: usize) -> (e: usize)
    requires
        n == s@.len(),
        d <= n,
    ensures
        d <= e <= n,
        e as int == digit_run_end(s@, d as int),
{
    let mut e: usize = d;
    loop
        invariant_except_break
            n == s@.len(),
            d <= e <= n,
            digit_run_end(s@, d as int) == digit_run_end(s@, e as int),
        ensures
            d <= e <= n,
            digit_run_end(s@, d as int) == e as int,
        decreases n - e,
    {
        if e == n {
            break;
        }
        let c = s.get_char(e);
        if !digit_char(c) {
            break;
        }
        e += 1;
    }
    e
}

fn scan_words(s: &str, n: usize, d: usize) -> (e: usize)
    requires
        n == s@.len(),
        d <= n,
    ensures
        d <= e <= n,
        e as int == word_run_end(s@, d as int),
{
    let mut e: usize = d;
    loop
        invariant_except_break
            n == s@.len(),
            d <= e <= n,
            word_run_end(s@, d as int) == word_run_end(s@, e as int),
        ensures
            d <= e <= n,
            word_run_end(s@, d as int) == e as int,
        decreases n - e,
    {
        if e == n {
            break;
        }
        let c = s.get_char(e);
        if !word_char(c) {
            break;
        }
        e += 1;
    }
    e
}

fn scan_handle(s: &str, n: usize, d: usize) -> (e: usize)
    requires
        n == s@.len(),
        d <= n,
    ensures
        d <= e <= n,
        e as int == handle_run_end(s@, d as int),
{
    let mut e: usize = d;
    loop
        invariant_except_break
            n == s@.len(),
            d <= e <= n,
            handle_run_end(s@, d as int) == handle_run_end(s@, e as int),
        ensures
            d <= e <= n,
            handle_run_end(s@, d as int) == e as int,
        decreases n - e,
    {
        if e == n {
            break;
        }
        let c = s.get_char(e);
        if !handle_char(c) {
            break;
        }
        e += 1;
    }
    e
}

// ---------------------------------------------------------------------------
// The deterministic parse of the two link forms
// ---------------------------------------------------------------------------

/// Position just past the scheme (`https://` or `http://`) read at `i`, if one
/// is there. The two literals cannot both occur at one position.
pub open spec fn scheme_end(s: Seq<char>, i: int) -> Option<int> {
    if lit_at(s, i, "https://"@) {
        Some(i + "https://"@.len())
    } else if lit_at(s, i, "http://"@) {
        Some(i + "http://"@.len())
    } else {
        None
    }
}

/// Position just past the platform host (with optional `www.` or `m.`
/// subdomain) read at `a`, if it is there.
pub open spec fn host_end(s: Seq<char>, a: int) -> Option<int> {
    if lit_at(s, a, "www.tiktok.com/"@) {
        Some(a + "www.tiktok.com/"@.len())
    } else if lit_at(s, a, "m.tiktok.com/"@) {
        Some(a + "m.tiktok.com/"@.len())
    } else if lit_at(s, a, "tiktok.com/"@) {
        Some(a + "tiktok.com/"@.len())
    } else {
        None
    }
}

/// The non-empty digit run starting at `d`, if any: the video id.
pub open spec fn digits_from(s: Seq<char>, d: int) -> Option<Seq<char>> {
    let e = digit_run_end(s, d);
    if e == d {
        None
    } else {
        Some(s.subrange(d, e))
    }
}

/// The id read from one of the three path shapes starting at `p`.
pub open spec fn path_digits(s: Seq<char>, p: int) -> Option<Seq<char>> {
    if lit_at(s, p, "embed/"@) {
        digits_from(s, p + "embed/"@.len())
    } else if lit_at(s, p, "@"@) {
        let h = handle_run_end(s, p + "@"@.len());
        if h == p + "@"@.len() {
            None
        } else if lit_at(s, h, "/video/"@) {
            digits_from(s, h + "/video/"@.len())
        } else {
            None
        }
    } else if lit_at(s, p, "v/"@) {
        digits_from(s, p + "v/"@.len())
    } else {
        None
    }
}

/// The video id of the desktop-form link starting at position `i` of `s`, if
/// one starts there.
pub open spec fn desktop_at(s: Seq<char>, i: int) -> Option<Seq<char>> {
    match scheme_end(s, i) {
        Some(a) => match host_end(s, a) {
            Some(p) => path_digits(s, p),
            None => None,
        },
        None => None,
    }
}

/// The whole short-form link starting at position `i` of `s`, if one starts
/// there.
pub open spec fn mobile_at(s: Seq<char>, i: int) -> Option<Seq<char>> {
    match scheme_end(s, i) {
        Some(a) => {
            let t = if lit_at(s, a, "vm.tiktok.com/"@) {
                Some(a + "vm.tiktok.com/"@.len())
            } else if lit_at(s, a, "vt.tiktok.com/"@) {
                Some(a + "vt.tiktok.com/"@.len())
            } else {
                None
            };
            match t {
                Some(c0) => {
                    let w = word_run_end(s, c0);
                    if w == c0 {
                        None
                    } else {
                        Some(s.subrange(i, w))
                    }
                }
                None => None,
            }
        },
        None => None,
    }
}

/// `id` is the id of the leftmost desktop-form link in `s`.
pub open spec fn is_first_desktop_id(s: Seq<char>, id: Seq<char>) -> bool {
    exists|i: int|
        #![trigger desktop_at(s, i)]
        desktop_at(s, i) == Some(id) && (forall|j: int| 0 <= j < i ==> desktop_at(s, j) is None)
}

/// `url` is the leftmost short-form link in `s`.
pub open spec fn is_first_mobile_url(s: Seq<char>, url: Seq<char>) -> bool {
    exists|i: int|
        #![trigger mobile_at(s, i)]
        mobile_at(s, i) == Some(url) && (forall|j: int| 0 <= j < i ==> mobile_at(s, j) is None)
}

// ---------------------------------------------------------------------------
// The executable matchers
// ---------------------------------------------------------------------------

fn try_desktop_at(s: &str, n: usize, i: usize) -> (r: Option<(usize, usize)>)
    requires
        n == s@.len(),
    ensures
        match r {
            None => desktop_at(s@, i as int) is None,
            Some(de) => de.0 <= de.1 <= n && desktop_at(s@, i as int) == Some(
                s@.subrange(de.0 as int, de.1 as int),
            ),
        },
{
    proof {
        reveal_strlit("https://");
        reveal_strlit("http://");
        reveal_strlit("www.tiktok.com/");
        reveal_strlit("m.tiktok.com/");
        reveal_strlit("tiktok.com/");
        reveal_strlit("embed/");
        reveal_strlit("@");
        reveal_strlit("/video/");
        reveal_strlit("v/");
    }
    let a: usize;
    if match_lit(s, n, i, "https://") {
        a = i + 8;
    } else if match_lit(s, n, i, "http://") {
        a = i + 7;
    } else {
        return None;
    }
    assert(scheme_end(s@, i as int) == Some(a as int));
    let p: usize;
    if match_lit(s, n, a, "www.tiktok.com/") {
        p = a + 15;
    } else if match_lit(s, n, a, "m.tiktok.com/") {
        p = a + 13;
    } else if match_lit(s, n, a, "tiktok.com/") {
        p = a + 11;
    } else {
        return None;
    }
    assert(host_end(s@, a as int) == Some(p as int));
    let d: usize;
    if match_lit(s, n, p, "embed/") {
        d = p + 6;
    } else if match_lit(s, n, p, "@") {
        let h = scan_handle(s, n, p + 1);
        if h == p + 1 {
            return None;
        }
        if match_lit(s, n, h, "/video/") {
            d = h + 7;
        } else {
            return None;
        }
    } else if match_lit(s, n, p, "v/") {
        d = p + 2;
    } else {
        return None;
    }
    let e = scan_digits(s, n, d);
    if e == d {
        return None;
    }
    assert(desktop_at(s@, i as int) == Some(s@.subrange(d as int, e as int)));
    Some((d, e))
}

fn try_mobile_at(s: &str, n: usize, i: usize) -> (r: Option<usize>)
    requires
        n == s@.len(),
    ensures
        match r {
            None => mobile_at(s@, i as int) is None,
            Some(w) => i <= w <= n && mobile_at(s@, i as int) == Some(
                s@.subrange(i as int, w as int),
            ),
        },
{
    proof {
        reveal_strlit("https://");
        reveal_strlit("http://");
        reveal_strlit("vm.tiktok.com/");
        reveal_strlit("vt.tiktok.com/");
    }
    let a: usize;
    if match_lit(s, n, i, "https://") {
        a = i + 8;
    } else if match_lit(s, n, i, "http://") {
        a = i + 7;
    } else {
        return None;
    }
    assert(scheme_end(s@, i as int) == Some(a as int));
    let c0: usize;
    if match_lit(s, n, a, "vm.tiktok.com/") {
        c0 = a + 14;
    } else if match_lit(s, n, a, "vt.tiktok.com/") {
        c0 = a + 14;
    } else {
        return None;
    }
    let w = scan_words(s, n, c0);
    if w == c0 {
        return None;
    }
    assert(mobile_at(s@, i as int) == Some(s@.subrange(i as int, w as int)));
    Some(w)
}

/// Find the leftmost desktop-form link in `s` and return its video id.
pub fn find_desktop_id(s: &str) -> (r: Option<String>)
    ensures
        match r {
            None => forall|i: int| desktop_at(s@, i) is None,
            Some(id) => is_first_desktop_id(s@, id@),
        },
{
    let n = s.unicode_len();
    let mut i: usize = 0;
    while i < n
        invariant
            n == s@.len(),
            i <= n,
            forall|j: int| 0 <= j < i ==> desktop_at(s@, j) is None,
        decreases n - i,
    {
        match try_desktop_at(s, n, i) {
            Some((d, e)) => {
                let id = String::from_str(s.substring_char(d, e));
                proof {
                    assert(desktop_at(s@, i as int) == Some(id@));
                }
                return Some(id);
            },
            None => {},
        }
        i += 1;
    }
    proof {
        reveal_strlit("https://");
        reveal_strlit("http://");
        assert forall|j: int| desktop_at(s@, j) is None by {
            if !(0 <= j < n as int) {
                assert(!lit_at(s@, j, "https://"@));
                assert(!lit_at(s@, j, "http://"@));
            }
        };
    }
    None
}

/// Find the leftmost short-form link in `s` and return the whole matched URL.
pub fn find_mobile_url(s: &str) -> (r: Option<String>)
    ensures
        match r {
            None => forall|i: int| mobile_at(s@, i) is None,
            Some(url) => is_first_mobile_url(s@, url@),
        },
{
    let n = s.unicode_len();
    let mut i: usize = 0;
    while i < n
        invariant
            n == s@.len(),
            i <= n,
            forall|j: int| 0 <= j < i ==> mobile_at(s@, j) is None,
        decreases n - i,
    {
        match try_mobile_at(s, n, i) {
            Some(w) => {
                let url = String::from_str(s.substring_char(i, w));
                proof {
                    assert(mobile_at(s@, i as int) == Some(url@));
                }
                return Some(url);
            },
            None => {},
        }
        i += 1;
    }
    proof {
        reveal_strlit("https://");
        reveal_strlit("http://");
        assert forall|i: int| mobile_at(s@, i) is None by {
            if !(0 <= i < n as int) {
                assert(!lit_at(s@, i, "https://"@));
                assert(!lit_at(s@, i, "http://"@));
            }
        };
    }
    None
}

// ---------------------------------------------------------------------------
// The leftmost match is unique
// ---------------------------------------------------------------------------

// ---------------------------------------------------------------------------
// Every well-formed desktop URL yields the id embedded in it
// ---------------------------------------------------------------------------

proof fn lemma_digit_run_end_is(s: Seq<char>, a: int, b: int)
    requires
        0 <= a <= b <= s.len(),
        forall|k: int| a <= k < b ==> is_digit_char(s[k]),
        b == s.len() || !is_digit_char(s[b]),
    ensures
        digit_run_end(s, a) == b,
    decreases b - a,
{
    if a < b {
        assert(is_digit_char(s[a]));
        lemma_digit_run_end_is(s, a + 1, b);
    }
}

proof fn lemma_handle_run_end_is(s: Seq<char>, a: int, b: int)
    requires
        0 <= a <= b <= s.len(),
        forall|k: int| a <= k < b ==> is_handle_char(s[k]),
        b == s.len() || !is_handle_char(s[b]),
    ensures
        handle_run_end(s, a) == b,
    decreases b - a,
{
    if a < b {
        assert(is_handle_char(s[a]));
        lemma_handle_run_end_is(s, a + 1, b);
    }
}

/// A desktop-form URL built from either scheme, any of the three subdomain
/// choices, any of the three path shapes, and a non-empty digit run parses at
/// its start to exactly that digit run: the extracted id is the digit
/// sequence in the path, independent of the subdomain. For the
/// `@<handle>/video/` shape, `handle` is the (non-empty) handle; for the
/// other two shapes it is unused.
pub proof fn lemma_desktop_url_id(
    scheme: Seq<char>,
    host: Seq<char>,
    path: Seq<char>,
    handle: Seq<char>,
    digits: Seq<char>,
)
    requires
        scheme == "https://"@ || scheme == "http://"@,
        host == "www.tiktok.com/"@ || host == "m.tiktok.com/"@ || host == "tiktok.com/"@,
        path == "embed/"@ || path == "v/"@ || (handle.len() > 0 && (forall|k: int|
            0 <= k < handle.len() ==> is_handle_char(handle[k])) && path == "@"@ + handle
            + "/video/"@),
        digits.len() > 0,
        forall|k: int| 0 <= k < digits.len() ==> is_digit_char(digits[k]),
    ensures
        desktop_at(scheme + host + path + digits, 0) == Some(digits),
        is_first_desktop_id(scheme + host + path + digits, digits),
{
    reveal_strlit("https://");
    reveal_strlit("http://");
    reveal_strlit("www.tiktok.com/");
    reveal_strlit("m.tiktok.com/");
    reveal_strlit("tiktok.com/");
    reveal_strlit("embed/");
    reveal_strlit("@");
    reveal_strlit("/video/");
    reveal_strlit("v/");
    let s = scheme + host + path + digits;
    let a = scheme.len() as int;
    let p = a + host.len();
    let d = p + path.len();
    assert(s.len() == a + host.len() + path.len() + digits.len());
    assert forall|k: int| 0 <= k < scheme.len() implies s[k] == scheme[k] by {}
    assert forall|k: int| 0 <= k < host.len() implies s[a + k] == host[k] by {}
    assert forall|k: int| 0 <= k < path.len() implies s[p + k] == path[k] by {}
    assert forall|k: int| 0 <= k < digits.len() implies s[d + k] == digits[k] by {}
    // Scheme.
    if scheme == "https://"@ {
        assert(s.subrange(0, 8) =~= "https://"@);
        assert(scheme_end(s, 0) == Some(a));
    } else {
        assert(!lit_at(s, 0, "https://"@)) by {
            if lit_at(s, 0, "https://"@) {
                assert(s.subrange(0, 8)[4] == s[4]);
                assert(s[4] == scheme[4]);
            }
        }
        assert(s.subrange(0, 7) =~= "http://"@);
        assert(scheme_end(s, 0) == Some(a));
    }
    // Host, with or without subdomain.
    if host == "www.tiktok.com/"@ {
        assert(s.subrange(a, a + 15) =~= "www.tiktok.com/"@);
        assert(host_end(s, a) == Some(p));
    } else if host == "m.tiktok.com/"@ {
        assert(!lit_at(s, a, "www.tiktok.com/"@)) by {
            if lit_at(s, a, "www.tiktok.com/"@) {
                assert(s.subrange(a, a + 15)[0] == s[a]);
                assert(s[a] == host[0]);
            }
        }
        assert(s.subrange(a, a + 13) =~= "m.tiktok.com/"@);
        assert(host_end(s, a) == Some(p));
    } else {
        assert(!lit_at(s, a, "www.tiktok.com/"@)) by {
            if lit_at(s, a, "www.tiktok.com/"@) {
                assert(s.subrange(a, a + 15)[0] == s[a]);
                assert(s[a] == host[0]);
            }
        }
        assert(!lit_at(s, a, "m.tiktok.com/"@)) by {
            if lit_at(s, a, "m.tiktok.com/"@) {
                assert(s.subrange(a, a + 13)[0] == s[a]);
                assert(s[a] == host[0]);
            }
        }
        assert(s.subrange(a, a + 11) =~= "tiktok.com/"@);
        assert(host_end(s, a) == Some(p));
    }
    // Trailing digits are the whole tail of the text.
    assert forall|k: int| d <= k < s.len() implies is_digit_char(s[k]) by {
        assert(s[d + (k - d)] == digits[k - d]);
    }
    lemma_digit_run_end_is(s, d, s.len() as int);
    assert(s.subrange(d, s.len() as int) =~= digits);
    assert(digits_from(s, d) == Some(digits));
    // Path.
    if path == "embed/"@ {
        assert(s.subrange(p, p + 6) =~= "embed/"@);
        assert(path_digits(s, p) == Some(digits));
    } else if path == "v/"@ {
        assert(!lit_at(s, p, "embed/"@)) by {
            if lit_at(s, p, "embed/"@) {
                assert(s.subrange(p, p + 6)[0] == s[p]);
                assert(s[p] == path[0]);
            }
        }
        assert(!lit_at(s, p, "@"@)) by {
            if lit_at(s, p, "@"@) {
                assert(s.subrange(p, p + 1)[0] == s[p]);
                assert(s[p] == path[0]);
            }
        }
        assert(s.subrange(p, p + 2) =~= "v/"@);
        assert(path_digits(s, p) == Some(digits));
    } else {
        assert(path == "@"@ + handle + "/video/"@);
        assert(path.len() == 1 + handle.len() + 7);
        assert(!lit_at(s, p, "embed/"@)) by {
            if lit_at(s, p, "embed/"@) {
                assert(s.subrange(p, p + 6)[0] == s[p]);
                assert(s[p] == path[0]);
            }
        }
        assert(s.subrange(p, p + 1) =~= "@"@);
        let h0 = p + 1;
        let h = h0 + handle.len();
        assert forall|k: int| 0 <= k < handle.len() implies s[h0 + k] == handle[k] by {
            assert(path[1 + k] == handle[k]);
            assert(s[p + (1 + k)] == path[1 + k]);
        }
        assert forall|k: int| h0 <= k < h implies is_handle_char(s[k]) by {
            assert(s[h0 + (k - h0)] == handle[k - h0]);
        }
        assert(s[h] == path[1 + handle.len() as int]);
        assert(path[1 + handle.len() as int] == "/video/"@[0]);
        assert(!is_handle_char(s[h]));
        lemma_handle_run_end_is(s, h0, h);
        assert(s.subrange(h, h + 7) =~= "/video/"@) by {
            assert forall|k: int| 0 <= k < 7 implies s[h + k] == "/video/"@[k] by {
                assert(s[p + (1 + handle.len() + k)] == path[1 + handle.len() + k]);
                assert(path[1 + handle.len() + k] == "/video/"@[k]);
            }
        }
        assert(path_digits(s, p) == Some(digits));
    }
    assert(desktop_at(s, 0) == Some(digits));
    assert(forall|j: int| 0 <= j < 0 ==> desktop_at(s, j) is None);
}

proof fn lemma_word_run_end_is(s: Seq<char>, a: int, b: int)
    requires
        0 <= a <= b <= s.len(),
        forall|k: int| a <= k < b ==> is_word_char(s[k]),
        b == s.len() || !is_word_char(s[b]),
    ensures
        word_run_end(s, a) == b,
    decreases b - a,
{
    if a < b {
        assert(is_word_char(s[a]));
        lemma_word_run_end_is(s, a + 1, b);
    }
}

/// A short-form URL built from either scheme, either short subdomain and a
/// non-empty code of word characters is recognized at its start, and the
/// matched substring is the whole URL — which is what the redirect probe is
/// handed.
pub proof fn lemma_mobile_url_whole(scheme: Seq<char>, host: Seq<char>, code: Seq<char>)
    requires
        scheme == "https://"@ || scheme == "http://"@,
        host == "vm.tiktok.com/"@ || host == "vt.tiktok.com/"@,
        code.len() > 0,
        forall|k: int| 0 <= k < code.len() ==> is_word_char(code[k]),
    ensures
        mobile_at(scheme + host + code, 0) == Some(scheme + host + code),
        is_first_mobile_url(scheme + host + code, scheme + host + code),
{
    reveal_strlit("https://");
    reveal_strlit("http://");
    reveal_strlit("vm.tiktok.com/");
    reveal_strlit("vt.tiktok.com/");
    let s = scheme + host + code;
    let a = scheme.len() as int;
    let c0 = a + host.len();
    assert(s.len() == a + host.len() + code.len());
    assert forall|k: int| 0 <= k < scheme.len() implies s[k] == scheme[k] by {}
    assert forall|k: int| 0 <= k < host.len() implies s[a + k] == host[k] by {}
    assert forall|k: int| 0 <= k < code.len() implies s[c0 + k] == code[k] by {}
    // Scheme.
    if scheme == "https://"@ {
        assert(s.subrange(0, 8) =~= "https://"@);
        assert(scheme_end(s, 0) == Some(a));
    } else {
        assert(!lit_at(s, 0, "https://"@)) by {
            if lit_at(s, 0, "https://"@) {
                assert(s.subrange(0, 8)[4] == s[4]);
                assert(s[4] == scheme[4]);
            }
        }
        assert(s.subrange(0, 7) =~= "http://"@);
        assert(scheme_end(s, 0) == Some(a));
    }
    // Host.
    if host == "vm.tiktok.com/"@ {
        assert(s.subrange(a, a + 14) =~= "vm.tiktok.com/"@);
    } else {
        assert(!lit_at(s, a, "vm.tiktok.com/"@)) by {
            if lit_at(s, a, "vm.tiktok.com/"@) {
                assert(s.subrange(a, a + 14)[1] == s[a + 1]);
                assert(s[a + 1] == host[1]);
            }
        }
        assert(s.subrange(a, a + 14) =~= "vt.tiktok.com/"@);
    }
    // The code runs to the end of the text.
    assert forall|k: int| c0 <= k < s.len() implies is_word_char(s[k]) by {
        assert(s[c0 + (k - c0)] == code[k - c0]);
    }
    lemma_word_run_end_is(s, c0, s.len() as int);
    assert(s.subrange(0, s.len() as int) =~= s);
    assert(mobile_at(s, 0) == Some(s));
    assert(forall|j: int| 0 <= j < 0 ==> mobile_at(s, j) is None);
}

/// The leftmost desktop-form id of a text is unique: handling equal texts can
/// only extract equal ids.
pub proof fn lemma_first_desktop_id_unique(s: Seq<char>, id1: Seq<char>, id2: Seq<char>)
    requires
        is_first_desktop_id(s, id1),
        is_first_desktop_id(s, id2),
    ensures
        id1 == id2,
{
    let i1 = choose|i: int|
        #![trigger desktop_at(s, i)]
        desktop_at(s, i) == Some(id1) && (forall|j: int| 0 <= j < i ==> desktop_at(s, j) is None);
    let i2 = choose|i: int|
        #![trigger desktop_at(s, i)]
        desktop_at(s, i) == Some(id2) && (forall|j: int| 0 <= j < i ==> desktop_at(s, j) is None);
    assert(0 <= i1 && 0 <= i2) by {
        assert(desktop_at(s, i1) is Some);
        assert(desktop_at(s, i2) is Some);
    }
    if i1 < i2 {
        assert(desktop_at(s, i1) is None);
    } else if i2 < i1 {
        assert(desktop_at(s, i2) is None);
    }
}

/// When a redirect target is itself a well-formed desktop URL, the id
/// resolved from it is exactly the digit run embedded in it: whatever id the
/// leftmost-match search reports for that target equals those digits.
pub proof fn lemma_redirect_target_id(
    scheme: Seq<char>,
    host: Seq<char>,
    path: Seq<char>,
    handle: Seq<char>,
    digits: Seq<char>,
    id: Seq<char>,
)
    requires
        scheme == "https://"@ || scheme == "http://"@,
        host == "www.tiktok.com/"@ || host == "m.tiktok.com/"@ || host == "tiktok.com/"@,
        path == "embed/"@ || path == "v/"@ || (handle.len() > 0 && (forall|k: int|
            0 <= k < handle.len() ==> is_handle_char(handle[k])) && path == "@"@ + handle
            + "/video/"@),
        digits.len() > 0,
        forall|k: int| 0 <= k < digits.len() ==> is_digit_char(digits[k]),
        is_first_desktop_id(scheme + host + path + digits, id),
    ensures
        id == digits,
{
    lemma_desktop_url_id(scheme, host, path, handle, digits);
    lemma_first_desktop_id_unique(scheme + host + path + digits, id, digits);
}

/// The leftmost short-form URL of a text is unique.
pub proof fn lemma_first_mobile_url_unique(s: Seq<char>, u1: Seq<char>, u2: Seq<char>)
    requires
        is_first_mobile_url(s, u1),
        is_first_mobile_url(s, u2),
    ensures
        u1 == u2,
{
    let i1 = choose|i: int|
        #![trigger mobile_at(s, i)]
        mobile_at(s, i) == Some(u1) && (forall|j: int| 0 <= j < i ==> mobile_at(s, j) is None);
    let i2 = choose|i: int|
        #![trigger mobile_at(s, i)]
        mobile_at(s, i) == Some(u2) && (forall|j: int| 0 <= j < i ==> mobile_at(s, j) is None);
    assert(0 <= i1 && 0 <= i2) by {
        assert(mobile_at(s, i1) is Some);
        assert(mobile_at(s, i2) is Some);
    }
    if i1 < i2 {
        assert(mobile_at(s, i1) is None);
    } else if i2 < i1 {
        assert(mobile_at(s, i2) is None);
    }
}

} // verus!
