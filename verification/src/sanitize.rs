//! Keeps URLs out of error messages: a URL may carry credentials in its path
//! or query.

use crate::text;
use crate::text::has_at;
use vstd::prelude::*;

verus! {

pub open spec fn https_scheme() -> Seq<char> {
    seq!['h', 't', 't', 'p', 's', ':', '/', '/']
}

pub open spec fn http_scheme() -> Seq<char> {
    seq!['h', 't', 't', 'p', ':', '/', '/']
}

/// The length of the scheme that `s` starts with: `https://`, `http://`,
/// or none (0).
pub open spec fn scheme_len(s: Seq<char>) -> nat {
    if has_at(s, 0, https_scheme()) {
        8
    } else if has_at(s, 0, http_scheme()) {
        7
    } else {
        0
    }
}

/// A character that ends the host of a URL.
pub open spec fn ends_host(c: char) -> bool {
    c == '/' || c == '?' || c == '#' || c == ' '
}

/// The number of characters at the start of `s` before the first that ends
/// a host.
pub open spec fn host_len(s: Seq<char>) -> nat
    decreases s.len(),
{
    if s.len() == 0 || ends_host(s[0]) {
        0
    } else {
        1 + host_len(s.skip(1))
    }
}

/// The number of characters at the start of `s` before the first space.
pub open spec fn span_len(s: Seq<char>) -> nat
    decreases s.len(),
{
    if s.len() == 0 || s[0] == ' ' {
        0
    } else {
        1 + span_len(s.skip(1))
    }
}

/// `s` with every URL replaced by its host. A URL starts with `https://` or
/// `http://` and runs up to the next space; its host ends at the first `/`,
/// `?`, `#` or space.
pub open spec fn sanitized(s: Seq<char>) -> Seq<char>
    decreases s.len(),
    via sanitized_decreases
{
    if s.len() == 0 {
        s
    } else if scheme_len(s) > 0 {
        let rest = s.skip(scheme_len(s) as int);
        rest.take(host_len(rest) as int) + sanitized(rest.skip(span_len(rest) as int))
    } else {
        seq![s[0]] + sanitized(s.skip(1))
    }
}

#[via_fn]
proof fn sanitized_decreases(s: Seq<char>) {
    if s.len() > 0 && scheme_len(s) > 0 {
        lemma_span_len_bound(s.skip(scheme_len(s) as int));
    }
}

proof fn lemma_host_len_bound(s: Seq<char>)
    ensures
        host_len(s) <= span_len(s) <= s.len(),
    decreases s.len(),
{
    if s.len() > 0 && !ends_host(s[0]) {
        lemma_host_len_bound(s.skip(1));
    } else if s.len() > 0 && s[0] != ' ' {
        lemma_span_len_bound(s.skip(1));
    }
}

proof fn lemma_span_len_bound(s: Seq<char>)
    ensures
        span_len(s) <= s.len(),
    decreases s.len(),
{
    if s.len() > 0 && s[0] != ' ' {
        lemma_span_len_bound(s.skip(1));
    }
}

pub(crate) fn https_chars() -> (v: Vec<char>)
    ensures
        v@ == https_scheme(),
{
    let mut v: Vec<char> = Vec::new();
    v.push('h');
    v.push('t');
    v.push('t');
    v.push('p');
    v.push('s');
    v.push(':');
    v.push('/');
    v.push('/');
    assert(v@ =~= https_scheme());
    v
}

pub(crate) fn http_chars() -> (v: Vec<char>)
    ensures
        v@ == http_scheme(),
{
    let mut v: Vec<char> = Vec::new();
    v.push('h');
    v.push('t');
    v.push('t');
    v.push('p');
    v.push(':');
    v.push('/');
    v.push('/');
    assert(v@ =~= http_scheme());
    v
}

/// The length of the scheme at position `at` of `v`.
fn scheme_at(v: &Vec<char>, at: usize, https: &Vec<char>, http: &Vec<char>) -> (k: usize)
    requires
        at <= v@.len(),
        https@ == https_scheme(),
        http@ == http_scheme(),
    ensures
        k == scheme_len(v@.skip(at as int)),
        at + k <= v@.len(),
{
    let ghost tail = v@.skip(at as int);
    proof {
        assert(has_at(v@, at as int, https@) == has_at(tail, 0, https@)) by {
            if at + 8 <= v@.len() {
                assert(v@.subrange(at as int, at + 8) =~= tail.subrange(0, 8));
            }
        }
        assert(has_at(v@, at as int, http@) == has_at(tail, 0, http@)) by {
            if at + 7 <= v@.len() {
                assert(v@.subrange(at as int, at + 7) =~= tail.subrange(0, 7));
            }
        }
    }
    if text::match_at(v, at, https) {
        8
    } else if text::match_at(v, at, http) {
        7
    } else {
        0
    }
}

/// Strip URLs from an error message, so that no path, query or credential
/// of the upstream request reaches the peer: each URL is replaced by its
/// host.
pub fn sanitize_upstream_error(msg: &str) -> (out: String)
    ensures
        out@ == sanitized(msg@),
        !holds_scheme(out@),
{
    proof {
        lemma_sanitized_holds_no_url(msg@);
    }
    let v = text::chars_of(msg);
    let https = https_chars();
    let http = http_chars();
    let mut out = String::new();
    let mut i: usize = 0;
    assert(v@.skip(0) =~= v@);
    while i < v.len()
        invariant
            i <= v@.len(),
            v@ == msg@,
            https@ == https_scheme(),
            http@ == http_scheme(),
            sanitized(v@) == out@ + sanitized(v@.skip(i as int)),
        decreases v@.len() - i,
    {
        let ghost tail = v@.skip(i as int);
        let k = scheme_at(&v, i, &https, &http);
        if k > 0 {
            let start = i + k;
            let ghost rest = v@.skip(start as int);
            assert(tail.skip(k as int) =~= rest);
            proof {
                lemma_host_len_bound(rest);
            }
            // the host
            let mut j: usize = start;
            let ghost before = out@;
            assert(rest.skip(0) =~= rest);
            assert(rest.take(0) =~= Seq::<char>::empty());
            while j < v.len() && !(v[j] == '/' || v[j] == '?' || v[j] == '#' || v[j] == ' ')
                invariant
                    start <= j <= v@.len(),
                    rest == v@.skip(start as int),
                    host_len(rest) == (j - start) + host_len(rest.skip(j - start)),
                    out@ == before + rest.take(j - start),
                decreases v@.len() - j,
            {
                assert(rest.skip(j - start).skip(1) =~= rest.skip(j - start + 1));
                assert(rest.skip(j - start)[0] == v@[j as int]);
                text::push_char(&mut out, v[j]);
                assert(rest.take(j - start + 1) =~= rest.take(j - start).push(v@[j as int]));
                j += 1;
            }
            assert(host_len(rest) == j - start) by {
                if j < v@.len() {
                    assert(rest.skip(j - start)[0] == v@[j as int]);
                }
            }
            // what is left of the URL
            let mut e: usize = j;
            proof {
                lemma_span_len_bound(rest);
            }
            assert(span_len(rest) == (j - start) + span_len(rest.skip(j - start))) by {
                lemma_span_over_host(rest, (j - start) as nat);
            }
            while e < v.len() && v[e] != ' '
                invariant
                    start <= e <= v@.len(),
                    rest == v@.skip(start as int),
                    span_len(rest) == (e - start) + span_len(rest.skip(e - start)),
                decreases v@.len() - e,
            {
                assert(rest.skip(e - start).skip(1) =~= rest.skip(e - start + 1));
                assert(rest.skip(e - start)[0] == v@[e as int]);
                e += 1;
            }
            assert(span_len(rest) == e - start) by {
                if e < v@.len() {
                    assert(rest.skip(e - start)[0] == v@[e as int]);
                }
            }
            assert(rest.skip(e - start) =~= v@.skip(e as int));
            assert(before + (rest.take(host_len(rest) as int) + sanitized(
                rest.skip(span_len(rest) as int),
            )) =~= out@ + sanitized(v@.skip(e as int)));
            i = e;
        } else {
            let ghost before = out@;
            text::push_char(&mut out, v[i]);
            assert(tail.skip(1) =~= v@.skip(i + 1));
            assert(before + (seq![tail[0]] + sanitized(tail.skip(1))) =~= out@ + sanitized(
                v@.skip(i + 1),
            )) by {
                assert(out@ =~= before + seq![tail[0]]);
            }
            i += 1;
        }
    }
    assert(out@ + sanitized(v@.skip(i as int)) =~= out@);
    out
}

/// The characters before the first space reach at least as far as the host.
proof fn lemma_span_over_host(s: Seq<char>, n: nat)
    requires
        n <= host_len(s),
    ensures
        span_len(s) == n + span_len(s.skip(n as int)),
    decreases n,
{
    lemma_host_len_bound(s);
    if n == 0 {
        assert(s.skip(0) =~= s);
    } else {
        assert(s.len() > 0 && !ends_host(s[0]));
        lemma_host_len_bound(s.skip(1));
        lemma_span_over_host(s.skip(1), (n - 1) as nat);
        assert(s.skip(1).skip(n - 1) =~= s.skip(n as int));
    }
}


/// Whether `t` holds a URL scheme, `https://` or `http://`, anywhere.
pub open spec fn holds_scheme(t: Seq<char>) -> bool {
    exists|i: int| has_at(t, i, https_scheme()) || has_at(t, i, http_scheme())
}

/// The last `k` characters of a scheme.
pub open spec fn scheme_tail(scheme: Seq<char>, k: int) -> Seq<char> {
    scheme.skip(scheme.len() - k)
}

proof fn lemma_tail_chars(scheme: Seq<char>, k: int)
    requires
        scheme == https_scheme() || scheme == http_scheme(),
        1 <= k <= scheme.len(),
    ensures
        scheme_tail(scheme, k).len() == k,
        scheme_tail(scheme, k)[k - 1] == '/',
        forall|j: int| 0 <= j < k ==> (#[trigger] scheme_tail(scheme, k)[j]) != ' ',
        k >= 2 ==> scheme_tail(scheme, k).skip(1) == scheme_tail(scheme, k - 1),
{
    if k >= 2 {
        assert(scheme_tail(scheme, k).skip(1) =~= scheme_tail(scheme, k - 1));
    }
}

/// The host of a URL holds no character that ends a host.
proof fn lemma_host_chars(s: Seq<char>, j: int)
    requires
        0 <= j < host_len(s),
    ensures
        j < s.len(),
        !ends_host(s[j]),
    decreases s.len(),
{
    if j > 0 {
        lemma_host_chars(s.skip(1), j - 1);
    }
}

/// What follows a URL is nothing or starts with a space.
proof fn lemma_span_end(s: Seq<char>)
    ensures
        span_len(s) <= s.len(),
        span_len(s) < s.len() ==> s[span_len(s) as int] == ' ',
    decreases s.len(),
{
    if s.len() > 0 && s[0] != ' ' {
        lemma_span_end(s.skip(1));
    }
}

/// Text that starts with a space is sanitized to text that starts with a
/// space.
proof fn lemma_space_stays(s: Seq<char>)
    requires
        s.len() > 0,
        s[0] == ' ',
    ensures
        sanitized(s).len() > 0,
        sanitized(s)[0] == ' ',
{
    assert(!has_at(s, 0, https_scheme())) by {
        if has_at(s, 0, https_scheme()) {
            assert(s.subrange(0, 8)[0] == s[0]);
        }
    }
    assert(!has_at(s, 0, http_scheme())) by {
        if has_at(s, 0, http_scheme()) {
            assert(s.subrange(0, 7)[0] == s[0]);
        }
    }
}

/// Where a URL stood, nothing of a scheme can start or go on: the host
/// holds no slash, and behind it stands a space or nothing.
proof fn lemma_no_tail_over_host(s: Seq<char>, scheme: Seq<char>, k: int, at: int)
    requires
        scheme == https_scheme() || scheme == http_scheme(),
        1 <= k <= scheme.len(),
        s.len() > 0,
        scheme_len(s) > 0,
        0 <= at <= host_len(s.skip(scheme_len(s) as int)),
        at < host_len(s.skip(scheme_len(s) as int)) || at == 0,
    ensures
        !has_at(sanitized(s), at, scheme_tail(scheme, k)),
{
    let rest = s.skip(scheme_len(s) as int);
    let h = host_len(rest) as int;
    let after = rest.skip(span_len(rest) as int);
    let t = sanitized(s);
    let u = scheme_tail(scheme, k);
    lemma_host_len_bound(rest);
    lemma_span_end(rest);
    lemma_tail_chars(scheme, k);
    assert(t == rest.take(h) + sanitized(after));
    if has_at(t, at, u) {
        assert forall|j: int| 0 <= j < k implies t[at + j] == u[j] by {
            assert(t.subrange(at, at + k)[j] == t[at + j]);
        }
        if at + k <= h {
            // the slash would stand in the host
            assert(t[at + k - 1] == rest[at + k - 1]);
            lemma_host_chars(rest, at + k - 1);
        } else {
            // the character behind the host would belong to the scheme
            assert(t[h] == sanitized(after)[0]);
            assert(after.len() > 0) by {
                if after.len() == 0 {
                    assert(sanitized(after).len() == 0);
                }
            }
            assert(after[0] == ' ');
            lemma_space_stays(after);
            assert(t[h] == u[h - at]);
        }
    }
}

/// If the sanitized text starts with the end of a scheme, so does the text.
proof fn lemma_tail_is_literal(s: Seq<char>, scheme: Seq<char>, k: int)
    requires
        scheme == https_scheme() || scheme == http_scheme(),
        1 <= k <= scheme.len(),
        has_at(sanitized(s), 0, scheme_tail(scheme, k)),
    ensures
        has_at(s, 0, scheme_tail(scheme, k)),
    decreases s.len(),
{
    let t = sanitized(s);
    let u = scheme_tail(scheme, k);
    lemma_tail_chars(scheme, k);
    if s.len() == 0 {
    } else if scheme_len(s) > 0 {
        lemma_no_tail_over_host(s, scheme, k, 0);
    } else {
        let rest = s.skip(1);
        assert(t == seq![s[0]] + sanitized(rest));
        assert(t.subrange(0, k)[0] == t[0]);
        if k >= 2 {
            assert(sanitized(rest).subrange(0, k - 1) =~= t.subrange(0, k).skip(1));
            lemma_tail_is_literal(rest, scheme, k - 1);
            lemma_tail_chars(scheme, k - 1);
            assert(s.subrange(0, k) =~= seq![s[0]] + rest.subrange(0, k - 1));
            assert(u =~= seq![u[0]] + u.skip(1));
        } else {
            assert(s.subrange(0, 1) =~= seq![s[0]]);
            assert(u =~= seq![u[0]]);
        }
    }
}

proof fn lemma_no_scheme_at(s: Seq<char>, scheme: Seq<char>, i: int)
    requires
        scheme == https_scheme() || scheme == http_scheme(),
    ensures
        !has_at(sanitized(s), i, scheme),
    decreases s.len(),
{
    let t = sanitized(s);
    let n = scheme.len() as int;
    assert(scheme_tail(scheme, n) =~= scheme);
    if s.len() == 0 || i < 0 {
    } else if scheme_len(s) > 0 {
        let rest = s.skip(scheme_len(s) as int);
        let h = host_len(rest) as int;
        let after = rest.skip(span_len(rest) as int);
        lemma_host_len_bound(rest);
        lemma_span_len_bound(rest);
        assert(t == rest.take(h) + sanitized(after));
        if i < h || i == 0 {
            lemma_no_tail_over_host(s, scheme, n, i);
        } else if has_at(t, i, scheme) {
            assert(sanitized(after).subrange(i - h, i - h + n) =~= t.subrange(i, i + n));
            lemma_no_scheme_at(after, scheme, i - h);
        }
    } else {
        let rest = s.skip(1);
        assert(t == seq![s[0]] + sanitized(rest));
        if i == 0 {
            if has_at(t, 0, scheme) {
                lemma_tail_is_literal(s, scheme, n);
                assert(has_at(s, 0, scheme));
            }
        } else if has_at(t, i, scheme) {
            assert(sanitized(rest).subrange(i - 1, i - 1 + n) =~= t.subrange(i, i + n));
            lemma_no_scheme_at(rest, scheme, i - 1);
        }
    }
}

/// No URL is left in a sanitized message: it holds neither `https://` nor
/// `http://`.
pub proof fn lemma_sanitized_holds_no_url(s: Seq<char>)
    ensures
        !holds_scheme(sanitized(s)),
{
    assert forall|i: int|
        !(has_at(sanitized(s), i, https_scheme()) || has_at(sanitized(s), i, http_scheme())) by {
        lemma_no_scheme_at(s, https_scheme(), i);
        lemma_no_scheme_at(s, http_scheme(), i);
    }
}

} // verus!
