//! Connection-string handling: stripping a scheme prefix down to the
//! bare `host:port` the websocket engine wants, and splitting a URL
//! into host and port with scheme-dependent defaults.

use vstd::prelude::*;

verus! {

/// ASCII whitespace as a character.
pub open spec fn char_is_ws(c: char) -> bool {
    c as u32 == 32 || (9 <= c as u32 <= 13)
}

/// `s` without its leading whitespace characters.
pub open spec fn ltrim_chars(s: Seq<char>) -> Seq<char>
    decreases s.len(),
{
    if s.len() > 0 && char_is_ws(s[0]) {
        ltrim_chars(s.drop_first())
    } else {
        s
    }
}

/// `s` without its trailing whitespace characters.
pub open spec fn rtrim_chars(s: Seq<char>) -> Seq<char>
    decreases s.len(),
{
    if s.len() > 0 && char_is_ws(s.last()) {
        rtrim_chars(s.drop_last())
    } else {
        s
    }
}

/// `s` without leading and trailing whitespace.
pub open spec fn trim_chars(s: Seq<char>) -> Seq<char> {
    rtrim_chars(ltrim_chars(s))
}

/// `p` is a prefix of `s`.
pub open spec fn starts_with_chars(s: Seq<char>, p: Seq<char>) -> bool {
    p.len() <= s.len() && s.take(p.len() as int) == p
}

/// `u` with a known scheme prefix removed, if one is there.
pub open spec fn strip_scheme(u: Seq<char>) -> Seq<char> {
    if starts_with_chars(u, "ws://"@) {
        u.skip(5)
    } else if starts_with_chars(u, "wss://"@) {
        u.skip(6)
    } else if starts_with_chars(u, "http://"@) {
        u.skip(7)
    } else if starts_with_chars(u, "https://"@) {
        u.skip(8)
    } else {
        u
    }
}

/// What the websocket engine is handed for a configured URL: the URL
/// trimmed of surrounding whitespace and of any known scheme prefix.
pub open spec fn normalized_hostport(url: Seq<char>) -> Seq<char> {
    strip_scheme(trim_chars(url))
}

/// Whether `s[lo..hi]` starts with `p`.
fn has_prefix_at(s: &str, lo: usize, hi: usize, p: &str) -> (r: bool)
    requires
        lo <= hi <= s@.len(),
    ensures
        r == starts_with_chars(s@.subrange(lo as int, hi as int), p@),
{
    let pl = p.unicode_len();
    if hi - lo < pl {
        return false;
    }
    let mut k: usize = 0;
    while k < pl
        invariant
            pl == p@.len(),
            lo <= hi <= s@.len(),
            pl <= hi - lo,
            k <= pl,
            forall|j: int| 0 <= j < k ==> s@[lo + j] == p@[j],
        decreases pl - k,
    {
        if s.get_char(lo + k) != p.get_char(k) {
            proof {
                assert(s@.subrange(lo as int, hi as int)[k as int] != p@[k as int]);
            }
            return false;
        }
        k = k + 1;
    }
    proof {
        assert(s@.subrange(lo as int, hi as int).take(p@.len() as int) =~= p@);
    }
    true
}

/// Trims `url` and drops a leading `ws://`, `wss://`, `http://` or
/// `https://`, leaving the bare host-and-port text.
pub fn normalize_ws_hostport(url: &str) -> (r: String)
    ensures
        r@ == normalized_hostport(url@),
{
    let n = url.unicode_len();
    let mut lo: usize = 0;
    proof {
        assert(url@.skip(0) =~= url@);
    }
    while lo < n && is_ws_char(url.get_char(lo))
        invariant
            n == url@.len(),
            lo <= n,
            ltrim_chars(url@) == ltrim_chars(url@.skip(lo as int)),
        decreases n - lo,
    {
        proof {
            assert(url@.skip(lo as int)[0] == url@[lo as int]);
            assert(url@.skip(lo as int).drop_first() =~= url@.skip(lo + 1 as int));
        }
        lo = lo + 1;
    }
    proof {
        assert(ltrim_chars(url@.skip(lo as int)) == url@.skip(lo as int));
    }
    let mut hi: usize = n;
    while hi > lo && is_ws_char(url.get_char(hi - 1))
        invariant
            n == url@.len(),
            lo <= hi <= n,
            ltrim_chars(url@) == url@.skip(lo as int),
            rtrim_chars(url@.skip(lo as int)) == rtrim_chars(url@.subrange(lo as int, hi as int)),
        decreases hi,
    {
        proof {
            assert(url@.subrange(lo as int, hi as int).last() == url@[hi - 1]);
            assert(url@.subrange(lo as int, hi as int).drop_last() =~= url@.subrange(
                lo as int,
                hi - 1,
            ));
        }
        hi = hi - 1;
    }
    proof {
        assert(url@.skip(lo as int) =~= url@.subrange(lo as int, url@.len() as int));
        assert(rtrim_chars(url@.subrange(lo as int, hi as int)) == url@.subrange(
            lo as int,
            hi as int,
        ));
    }
    let ghost t = url@.subrange(lo as int, hi as int);
    proof {
        reveal_strlit("ws://");
        reveal_strlit("wss://");
        reveal_strlit("http://");
        reveal_strlit("https://");
    }
    if has_prefix_at(url, lo, hi, "ws://") {
        let part = url.substring_char(lo + 5, hi);
        proof {
            assert(part@ =~= t.skip(5));
        }
        return part.to_owned();
    }
    if has_prefix_at(url, lo, hi, "wss://") {
        let part = url.substring_char(lo + 6, hi);
        proof {
            assert(part@ =~= t.skip(6));
        }
        return part.to_owned();
    }
    if has_prefix_at(url, lo, hi, "http://") {
        let part = url.substring_char(lo + 7, hi);
        proof {
            assert(part@ =~= t.skip(7));
        }
        return part.to_owned();
    }
    if has_prefix_at(url, lo, hi, "https://") {
        let part = url.substring_char(lo + 8, hi);
        proof {
            assert(part@ =~= t.skip(8));
        }
        return part.to_owned();
    }
    let part = url.substring_char(lo, hi);
    part.to_owned()
}

/// Runtime test for [`char_is_ws`].
fn is_ws_char(c: char) -> (r: bool)
    ensures
        r == char_is_ws(c),
{
    let v = c as u32;
    v == 32 || (9 <= v && v <= 13)
}

/// The embeddable variant's URL normalization; it strips the same
/// schemes the worker's does.
pub fn normalize_ws_url(url: &str) -> (r: String)
    ensures
        r@ == normalized_hostport(url@),
{
    normalize_ws_hostport(url)
}

} // verus!

verus! {

/// A `://` separator sits at position `i` of `s`.
pub open spec fn scheme_sep_at(s: Seq<char>, i: int) -> bool {
    0 <= i && i + 3 <= s.len() && s[i] == ':' && s[i + 1] == '/' && s[i + 2] == '/'
}

/// The first position at or after `i` where `://` sits, if any.
pub open spec fn find_sep(s: Seq<char>, i: int) -> Option<int>
    decreases s.len() - i,
{
    if i + 3 > s.len() {
        None
    } else if scheme_sep_at(s, i) {
        Some(i)
    } else {
        find_sep(s, i + 1)
    }
}

/// The first position at or after `i` where `c` sits, if any.
pub open spec fn find_char(s: Seq<char>, i: int, c: char) -> Option<int>
    decreases s.len() - i,
{
    if i < 0 || i >= s.len() {
        None
    } else if s[i] == c {
        Some(i)
    } else {
        find_char(s, i + 1, c)
    }
}

/// The port a scheme implies when the URL names none.
pub open spec fn default_port(scheme: Seq<char>) -> u16 {
    if scheme == "wss"@ || scheme == "https"@ {
        443
    } else if scheme == "ws"@ || scheme == "http"@ {
        80
    } else {
        8000
    }
}

/// Every character of `s` is a decimal digit.
pub open spec fn all_digits(s: Seq<char>) -> bool {
    forall|i: int| 0 <= i < s.len() ==> 48 <= (#[trigger] s[i]) as u32 <= 57
}

/// The number the digit string `s` denotes.
pub open spec fn dec_val(s: Seq<char>) -> int
    decreases s.len(),
{
    if s.len() == 0 {
        0
    } else {
        dec_val(s.drop_last()) * 10 + ((s.last() as u32) - 48)
    }
}

/// `s` without one optional leading plus sign.
pub open spec fn digits_part(s: Seq<char>) -> Seq<char> {
    if s.len() > 0 && s[0] == '+' {
        s.drop_first()
    } else {
        s
    }
}

/// `s` parses as a sixteen-bit port number: an optional plus sign,
/// one or more digits, value at most 65535.
pub open spec fn valid_port(s: Seq<char>) -> bool {
    digits_part(s).len() > 0 && all_digits(digits_part(s)) && dec_val(digits_part(s)) <= 65535
}

/// The port `s` denotes, when [`valid_port`] holds.
pub open spec fn port_value(s: Seq<char>) -> u16 {
    dec_val(digits_part(s)) as u16
}

/// The port `s` denotes, or `d` when `s` does not parse.
pub open spec fn port_or_default(s: Seq<char>, d: u16) -> u16 {
    if valid_port(s) {
        port_value(s)
    } else {
        d
    }
}

/// A digit string denotes a nonnegative number.
pub proof fn lemma_dec_val_nonneg(s: Seq<char>)
    requires
        all_digits(s),
    ensures
        dec_val(s) >= 0,
    decreases s.len(),
{
    if s.len() > 0 {
        assert(all_digits(s.drop_last()));
        lemma_dec_val_nonneg(s.drop_last());
    }
}

/// A digit string denotes at least what any of its prefixes denotes.
pub proof fn lemma_dec_val_prefix(s: Seq<char>, i: int)
    requires
        all_digits(s),
        0 <= i <= s.len(),
    ensures
        dec_val(s.take(i)) <= dec_val(s),
    decreases s.len() - i,
{
    if i == s.len() {
        assert(s.take(i) =~= s);
    } else {
        assert(s.take(i + 1).drop_last() =~= s.take(i));
        assert(all_digits(s.take(i)));
        lemma_dec_val_nonneg(s.take(i));
        lemma_dec_val_prefix(s, i + 1);
    }
}

/// What a URL splits into: the host text and the explicit or
/// scheme-implied port — or nothing, when no host can be read.
///
/// The text before a leading `://` is the scheme; the rest, up to the
/// first `/`, is the host-and-port part. An empty host-and-port part,
/// or an empty host, yields nothing. A bracketed host keeps the text
/// inside `[`..`]`, requires the closing bracket, and reads its port
/// after the first colon following the bracket. Otherwise the host
/// runs to the first colon, and the port follows it. A port that does
/// not parse falls back to the scheme's default.
pub open spec fn parse_host_port_spec(url: Seq<char>) -> Option<(Seq<char>, u16)> {
    let scheme = match find_sep(url, 0) {
        Some(i) => url.take(i),
        None => Seq::<char>::empty(),
    };
    let rest = match find_sep(url, 0) {
        Some(i) => url.skip(i + 3),
        None => url,
    };
    let hostport = match find_char(rest, 0, '/') {
        Some(j) => rest.take(j),
        None => rest,
    };
    if hostport.len() == 0 {
        None
    } else if hostport[0] == '[' {
        match find_char(hostport, 0, ']') {
            None => None,
            Some(e) => {
                let host = hostport.subrange(1, e);
                let after = hostport.skip(e + 1);
                let port = match find_char(after, 0, ':') {
                    Some(c) => port_or_default(after.skip(c + 1), default_port(scheme)),
                    None => default_port(scheme),
                };
                Some((host, port))
            },
        }
    } else {
        let host = match find_char(hostport, 0, ':') {
            Some(c) => hostport.take(c),
            None => hostport,
        };
        if host.len() == 0 {
            None
        } else {
            let port = match find_char(hostport, 0, ':') {
                Some(c) => port_or_default(hostport.skip(c + 1), default_port(scheme)),
                None => default_port(scheme),
            };
            Some((host, port))
        }
    }
}

/// Finds the first `c` in `s[a..b]`, returning its absolute position.
fn find_char_in(s: &str, a: usize, b: usize, c: char) -> (r: Option<usize>)
    requires
        a <= b <= s@.len(),
    ensures
        r matches Some(k) ==> a <= k < b && s@[k as int] == c && find_char(
            s@.subrange(a as int, b as int),
            0,
            c,
        ) == Some(k - a),
        r is None ==> find_char(s@.subrange(a as int, b as int), 0, c) is None,
{
    let ghost sub = s@.subrange(a as int, b as int);
    let mut k: usize = a;
    let mut hit: Option<usize> = None;
    while k < b
        invariant_except_break
            a <= k <= b <= s@.len(),
            sub == s@.subrange(a as int, b as int),
            hit is None,
            find_char(sub, 0, c) == find_char(sub, k - a, c),
        ensures
            hit matches Some(k2) ==> a <= k2 < b && s@[k2 as int] == c && find_char(
                sub,
                0,
                c,
            ) == Some(k2 - a),
            hit is None ==> find_char(sub, 0, c) is None,
        decreases b - k,
    {
        proof {
            assert(sub[k - a] == s@[k as int]);
        }
        if s.get_char(k) == c {
            hit = Some(k);
            break ;
        }
        k = k + 1;
    }
    hit
}

/// Whether `s[a..b]` is exactly `p`.
fn range_is(s: &str, a: usize, b: usize, p: &str) -> (r: bool)
    requires
        a <= b <= s@.len(),
    ensures
        r == (s@.subrange(a as int, b as int) == p@),
{
    let pl = p.unicode_len();
    if b - a != pl {
        return false;
    }
    let r = has_prefix_at(s, a, b, p);
    proof {
        assert(s@.subrange(a as int, b as int).take(p@.len() as int) =~= s@.subrange(
            a as int,
            b as int,
        ));
    }
    r
}

/// Reads the port text `s[a..b]`, or falls back to `dflt`.
fn parse_port_or_default(s: &str, a: usize, b: usize, dflt: u16) -> (r: u16)
    requires
        a <= b <= s@.len(),
    ensures
        r == port_or_default(s@.subrange(a as int, b as int), dflt),
{
    let ghost sub = s@.subrange(a as int, b as int);
    let mut p: usize = a;
    if p < b && s.get_char(p) == '+' {
        p = p + 1;
    }
    proof {
        assert(digits_part(sub) =~= s@.subrange(p as int, b as int));
    }
    let ghost d = s@.subrange(p as int, b as int);
    if p == b {
        return dflt;
    }
    let mut k: usize = p;
    while k < b
        invariant
            a <= p <= k <= b <= s@.len(),
            sub == s@.subrange(a as int, b as int),
            d == s@.subrange(p as int, b as int),
            digits_part(sub) == d,
            forall|j: int| 0 <= j < k - p ==> 48 <= (#[trigger] d[j]) as u32 <= 57,
        decreases b - k,
    {
        let v = s.get_char(k) as u32;
        proof {
            assert(d[k - p] == s@[k as int]);
        }
        if v < 48 || v > 57 {
            proof {
                assert(!(48 <= (d[k - p]) as u32 <= 57));
                assert(!all_digits(d));
                assert(!valid_port(sub));
            }
            return dflt;
        }
        k = k + 1;
    }
    proof {
        assert(all_digits(d));
    }
    let mut acc: u32 = 0;
    let mut k2: usize = p;
    while k2 < b
        invariant
            a <= p <= k2 <= b <= s@.len(),
            sub == s@.subrange(a as int, b as int),
            d == s@.subrange(p as int, b as int),
            digits_part(sub) == d,
            all_digits(d),
            acc == dec_val(d.take(k2 - p)),
            acc <= 65535,
        decreases b - k2,
    {
        let v = s.get_char(k2) as u32;
        proof {
            assert(d[k2 - p] == s@[k2 as int]);
            assert(48 <= v <= 57);
            assert(d.take(k2 - p + 1).drop_last() =~= d.take(k2 - p));
            assert(d.take(k2 - p + 1).last() == d[k2 - p]);
        }
        let nacc = acc * 10 + (v - 48);
        proof {
            assert(dec_val(d.take(k2 - p + 1)) == acc * 10 + (v - 48));
        }
        if nacc > 65535 {
            proof {
                lemma_dec_val_prefix(d, k2 - p + 1);
                assert(dec_val(d) > 65535);
                assert(!valid_port(sub));
            }
            return dflt;
        }
        acc = nacc;
        k2 = k2 + 1;
    }
    proof {
        assert(d.take(b - p) =~= d);
        assert(valid_port(sub));
        assert(acc == dec_val(d));
    }
    acc as u16
}

/// Splits a URL into host and port. The scheme before `://` only
/// picks the default port; the part after it, up to the first slash,
/// is read as `host[:port]`, with square brackets around a literal
/// IPv6 host. No readable host yields nothing.
#[verifier::rlimit(100)]
pub fn parse_host_port(url: &str) -> (r: Option<(String, u16)>)
    ensures
        r is Some <==> parse_host_port_spec(url@) is Some,
        r matches Some(hp) ==> parse_host_port_spec(url@) == Some((hp.0@, hp.1)),
{
    let n = url.unicode_len();
    let mut i: usize = 0;
    let mut sep: Option<usize> = None;
    while n >= 3 && i <= n - 3
        invariant_except_break
            n == url@.len(),
            i <= n,
            sep is None,
            find_sep(url@, 0) == find_sep(url@, i as int),
        ensures
            sep matches Some(k) ==> k + 3 <= n && find_sep(url@, 0) == Some(k as int),
            sep is None ==> find_sep(url@, 0) is None,
        decreases n - i,
    {
        if url.get_char(i) == ':' && url.get_char(i + 1) == '/' && url.get_char(i + 2) == '/' {
            sep = Some(i);
            proof {
                assert(scheme_sep_at(url@, i as int));
            }
            break ;
        }
        proof {
            assert(!scheme_sep_at(url@, i as int));
        }
        i = i + 1;
    }
    let ghost scheme = match find_sep(url@, 0) {
        Some(k) => url@.take(k),
        None => Seq::<char>::empty(),
    };
    proof {
        reveal_strlit("wss");
        reveal_strlit("https");
        reveal_strlit("ws");
        reveal_strlit("http");
    }
    let a_rest: usize;
    let dflt: u16;
    match sep {
        Some(k) => {
            proof {
                assert(url@.take(k as int) =~= url@.subrange(0, k as int));
            }
            a_rest = k + 3;
            dflt = if range_is(url, 0, k, "wss") || range_is(url, 0, k, "https") {
                443
            } else if range_is(url, 0, k, "ws") || range_is(url, 0, k, "http") {
                80
            } else {
                8000
            };
            proof {
                assert(scheme == url@.subrange(0, k as int));
                assert(dflt == default_port(scheme));
            }
        },
        None => {
            a_rest = 0;
            dflt = 8000;
            proof {
                assert(scheme =~= Seq::<char>::empty());
                assert(dflt == default_port(scheme));
            }
        },
    }
    proof {
        assert(dflt == default_port(scheme));
        assert(url@.subrange(0, n as int) =~= url@);
    }
    let ghost rest = match find_sep(url@, 0) {
        Some(k) => url@.skip(k + 3),
        None => url@,
    };
    proof {
        assert(rest =~= url@.subrange(a_rest as int, n as int));
    }
    let slash = find_char_in(url, a_rest, n, '/');
    let hp_end: usize = match slash {
        Some(k) => k,
        None => n,
    };
    let ghost hostport = match find_char(rest, 0, '/') {
        Some(j) => rest.take(j),
        None => rest,
    };
    proof {
        assert(hostport =~= url@.subrange(a_rest as int, hp_end as int));
    }
    if hp_end == a_rest {
        return None;
    }
    if url.get_char(a_rest) == '[' {
        proof {
            assert(hostport[0] == '[');
        }
        let rb = find_char_in(url, a_rest, hp_end, ']');
        match rb {
            None => {
                return None;
            },
            Some(e) => {
                proof {
                    assert(url@[a_rest as int] == '[');
                    assert(url@[e as int] == ']');
                    assert(e > a_rest);
                }
                let host = url.substring_char(a_rest + 1, e).to_owned();
                proof {
                    assert(host@ =~= hostport.subrange(1, e - a_rest));
                    assert(hostport.skip(e - a_rest + 1) =~= url@.subrange(
                        e + 1 as int,
                        hp_end as int,
                    ));
                }
                let colon = find_char_in(url, e + 1, hp_end, ':');
                let port: u16 = match colon {
                    Some(c) => {
                        proof {
                            assert(hostport.skip(e - a_rest + 1).skip(c - e) =~= url@.subrange(
                                c + 1 as int,
                                hp_end as int,
                            ));
                        }
                        parse_port_or_default(url, c + 1, hp_end, dflt)
                    },
                    None => dflt,
                };
                return Some((host, port));
            },
        }
    }
    proof {
        assert(hostport[0] != '[');
    }
    let colon = find_char_in(url, a_rest, hp_end, ':');
    match colon {
        Some(c) => {
            if c == a_rest {
                proof {
                    assert(hostport.take(0) =~= Seq::<char>::empty());
                }
                return None;
            }
            let host = url.substring_char(a_rest, c).to_owned();
            proof {
                assert(host@ =~= hostport.take(c - a_rest));
                assert(hostport.skip(c - a_rest + 1) =~= url@.subrange(c + 1 as int, hp_end as int));
            }
            let port = parse_port_or_default(url, c + 1, hp_end, dflt);
            Some((host, port))
        },
        None => {
            let host = url.substring_char(a_rest, hp_end).to_owned();
            proof {
                assert(host@ =~= hostport);
            }
            Some((host, dflt))
        },
    }
}

} // verus!
