use vstd::prelude::*;

verus! {

/// A character the normalizer treats as whitespace: the characters with the
/// Unicode `White_Space` property.
pub open spec fn is_space(c: char) -> bool {
    ||| c == ' '
    ||| c == '\t'
    ||| c == '\n'
    ||| c == '\u{b}'
    ||| c == '\u{c}'
    ||| c == '\r'
    ||| c == '\u{85}'
    ||| c == '\u{a0}'
    ||| c == '\u{1680}'
    ||| c == '\u{2000}'
    ||| c == '\u{2001}'
    ||| c == '\u{2002}'
    ||| c == '\u{2003}'
    ||| c == '\u{2004}'
    ||| c == '\u{2005}'
    ||| c == '\u{2006}'
    ||| c == '\u{2007}'
    ||| c == '\u{2008}'
    ||| c == '\u{2009}'
    ||| c == '\u{200a}'
    ||| c == '\u{2028}'
    ||| c == '\u{2029}'
    ||| c == '\u{202f}'
    ||| c == '\u{205f}'
    ||| c == '\u{3000}'
}

pub fn is_space_char(c: char) -> (r: bool)
    ensures
        r == is_space(c),
{
    c == ' ' || c == '\t' || c == '\n' || c == '\u{b}' || c == '\u{c}' || c == '\r'
        || c == '\u{85}' || c == '\u{a0}' || c == '\u{1680}' || c == '\u{2000}' || c == '\u{2001}'
        || c == '\u{2002}' || c == '\u{2003}' || c == '\u{2004}' || c == '\u{2005}'
        || c == '\u{2006}' || c == '\u{2007}' || c == '\u{2008}' || c == '\u{2009}'
        || c == '\u{200a}' || c == '\u{2028}' || c == '\u{2029}' || c == '\u{202f}'
        || c == '\u{205f}' || c == '\u{3000}'
}

/// `s` with every occurrence of `pat` replaced by `repl`, scanning left to
/// right and never rescanning text that a replacement produced. An empty
/// pattern matches nowhere.
pub open spec fn replace_seq(s: Seq<char>, pat: Seq<char>, repl: Seq<char>) -> Seq<char>
    decreases s.len(),
{
    if pat.len() == 0 || s.len() < pat.len() {
        s
    } else if s.take(pat.len() as int) == pat {
        repl + replace_seq(s.skip(pat.len() as int), pat, repl)
    } else {
        seq![s[0]] + replace_seq(s.skip(1), pat, repl)
    }
}

/// Whether `pat` occurs in `s` starting at position `i`.
pub open spec fn match_at(s: Seq<char>, pat: Seq<char>, i: int) -> bool {
    0 <= i && i + pat.len() <= s.len() && s.subrange(i, i + pat.len() as int) == pat
}

/// Whether `pat` occurs anywhere in `s`.
pub open spec fn occurs_in(s: Seq<char>, pat: Seq<char>) -> bool {
    exists|i: int| match_at(s, pat, i)
}

fn str_match_at(s: &str, pat: &str, i: usize, n: usize) -> (r: bool)
    requires
        i <= n,
        n == s@.len(),
    ensures
        r == match_at(s@, pat@, i as int),
{
    let plen = pat.unicode_len();
    if plen > n - i {
        assert(!match_at(s@, pat@, i as int));
        return false;
    }
    let mut k: usize = 0;
    while k < plen
        invariant
            k <= plen,
            i + plen <= n,
            n == s@.len(),
            plen == pat@.len(),
            forall|m: int| 0 <= m < k ==> s@[i + m] == pat@[m],
        decreases plen - k,
    {
        if s.get_char(i + k) != pat.get_char(k) {
            assert(s@.subrange(i as int, i + plen) != pat@) by {
                assert(s@.subrange(i as int, i + plen)[k as int] == s@[i + k]);
            }
            return false;
        }
        k += 1;
    }
    assert(s@.subrange(i as int, i + plen) =~= pat@);
    true
}

/// `s` with every occurrence of `pat` replaced by `repl`.
pub fn replace_str(s: &str, pat: &str, repl: &str) -> (r: String)
    ensures
        r@ == replace_seq(s@, pat@, repl@),
{
    let n = s.unicode_len();
    let plen = pat.unicode_len();
    if plen == 0 {
        return s.to_owned();
    }
    let mut out = String::new();
    let mut i: usize = 0;
    let mut j: usize = 0;
    proof {
        assert(s@.skip(0) =~= s@);
        assert(out@ + s@.subrange(0, 0) + replace_seq(s@, pat@, repl@) =~= replace_seq(
            s@,
            pat@,
            repl@,
        ));
    }
    while i < n
        invariant
            j <= i <= n,
            n == s@.len(),
            plen == pat@.len(),
            plen >= 1,
            replace_seq(s@, pat@, repl@) == out@ + s@.subrange(j as int, i as int)
                + replace_seq(s@.skip(i as int), pat@, repl@),
        decreases n - i,
    {
        if str_match_at(s, pat, i, n) {
            let chunk = s.substring_char(j, i);
            out.append(chunk);
            out.append(repl);
            proof {
                assert(s@.skip(i as int).take(plen as int) =~= s@.subrange(
                    i as int,
                    i + plen,
                ));
                assert(s@.skip(i as int).skip(plen as int) =~= s@.skip(i + plen));
                assert(replace_seq(s@.skip(i as int), pat@, repl@) == repl@ + replace_seq(
                    s@.skip(i + plen),
                    pat@,
                    repl@,
                ));
                assert(out@ + s@.subrange(i + plen, i + plen) + replace_seq(
                    s@.skip(i + plen),
                    pat@,
                    repl@,
                ) =~= replace_seq(s@, pat@, repl@));
            }
            i += plen;
            j = i;
        } else {
            proof {
                let t = s@.skip(i as int);
                assert(t[0] == s@[i as int]);
                if t.len() >= plen {
                    assert(t.take(plen as int) =~= s@.subrange(i as int, i + plen));
                    assert(t.take(plen as int) != pat@);
                    assert(replace_seq(t, pat@, repl@) == seq![t[0]] + replace_seq(
                        t.skip(1),
                        pat@,
                        repl@,
                    ));
                } else {
                    assert(replace_seq(t, pat@, repl@) == t);
                    assert(t.skip(1).len() < plen);
                    assert(replace_seq(t.skip(1), pat@, repl@) == t.skip(1));
                    assert(t =~= seq![t[0]] + t.skip(1));
                    assert(replace_seq(t, pat@, repl@) == seq![t[0]] + replace_seq(
                        t.skip(1),
                        pat@,
                        repl@,
                    ));
                }
                assert(t.skip(1) =~= s@.skip(i + 1));
                assert(out@ + s@.subrange(j as int, i + 1) + replace_seq(
                    s@.skip(i + 1),
                    pat@,
                    repl@,
                ) =~= replace_seq(s@, pat@, repl@));
            }
            i += 1;
        }
    }
    let chunk = s.substring_char(j, n);
    out.append(chunk);
    proof {
        assert(s@.skip(n as int).len() == 0);
        assert(replace_seq(s@.skip(n as int), pat@, repl@) == s@.skip(n as int));
        assert(out@ =~= replace_seq(s@, pat@, repl@));
    }
    out
}

/// `s` without its leading whitespace.
pub open spec fn ltrim(s: Seq<char>) -> Seq<char>
    decreases s.len(),
{
    if s.len() > 0 && is_space(s[0]) {
        ltrim(s.skip(1))
    } else {
        s
    }
}

/// `s` without its trailing whitespace.
pub open spec fn rtrim(s: Seq<char>) -> Seq<char>
    decreases s.len(),
{
    if s.len() > 0 && is_space(s[s.len() - 1]) {
        rtrim(s.take(s.len() - 1))
    } else {
        s
    }
}

/// `s` without leading and trailing whitespace.
pub open spec fn trim_seq(s: Seq<char>) -> Seq<char> {
    rtrim(ltrim(s))
}

proof fn lemma_ltrim_skip(s: Seq<char>, a: int)
    requires
        0 <= a <= s.len(),
        forall|k: int| 0 <= k < a ==> is_space(s[k]),
    ensures
        ltrim(s) == ltrim(s.skip(a)),
    decreases a,
{
    if a == 0 {
        assert(s.skip(0) =~= s);
    } else {
        assert(is_space(s[0]));
        lemma_ltrim_skip(s.skip(1), a - 1);
        assert(s.skip(1).skip(a - 1) =~= s.skip(a));
    }
}

proof fn lemma_rtrim_take(s: Seq<char>, b: int)
    requires
        0 <= b <= s.len(),
        forall|k: int| b <= k < s.len() ==> is_space(s[k]),
    ensures
        rtrim(s) == rtrim(s.take(b)),
    decreases s.len() - b,
{
    if b == s.len() {
        assert(s.take(b) =~= s);
    } else {
        assert(is_space(s[s.len() - 1]));
        lemma_rtrim_take(s.take(s.len() - 1), b);
        assert(s.take(s.len() - 1).take(b) =~= s.take(b));
    }
}

/// `s` without leading and trailing whitespace.
pub fn trim_str(s: &str) -> (r: String)
    ensures
        r@ == trim_seq(s@),
{
    let n = s.unicode_len();
    let mut a: usize = 0;
    while a < n && is_space_char(s.get_char(a))
        invariant
            a <= n,
            n == s@.len(),
            forall|k: int| 0 <= k < a ==> is_space(s@[k]),
        decreases n - a,
    {
        a += 1;
    }
    let mut b: usize = n;
    while b > a && is_space_char(s.get_char(b - 1))
        invariant
            a <= b <= n,
            n == s@.len(),
            forall|k: int| b <= k < n ==> is_space(s@[k]),
        decreases b,
    {
        b -= 1;
    }
    let r = s.substring_char(a, b);
    proof {
        lemma_ltrim_skip(s@, a as int);
        let t = s@.skip(a as int);
        if a < n {
            assert(!is_space(t[0]));
            assert(ltrim(t) == t);
        } else {
            assert(t.len() == 0);
            assert(ltrim(t) == t);
            assert(b == a);
        }
        lemma_rtrim_take(t, b - a);
        if b > a {
            let u = t.take(b - a);
            assert(u[u.len() - 1] == s@[b - 1]);
            assert(!is_space(u[u.len() - 1]));
            assert(rtrim(u) == u);
        } else {
            assert(t.take(0).len() == 0);
            assert(rtrim(t.take(0)) == t.take(0));
        }
        assert(t.take(b - a) =~= s@.subrange(a as int, b as int));
        assert(trim_seq(s@) == s@.subrange(a as int, b as int));
    }
    String::from_str(r)
}

/// Normalized form of a recorded or captured output: CRLF line endings
/// unified to LF, then leading and trailing whitespace removed.
pub open spec fn normalize_seq(s: Seq<char>) -> Seq<char> {
    trim_seq(replace_seq(s, "\r\n"@, "\n"@))
}

/// Normalizes one output text for comparison.
pub fn normalize(s: &str) -> (r: String)
    ensures
        r@ == normalize_seq(s@),
{
    let replaced = replace_str(s, "\r\n", "\n");
    trim_str(replaced.as_str())
}

proof fn lemma_replace_absent(s: Seq<char>, pat: Seq<char>, repl: Seq<char>)
    requires
        pat.len() > 0,
        !occurs_in(s, pat),
    ensures
        replace_seq(s, pat, repl) == s,
    decreases s.len(),
{
    if s.len() >= pat.len() {
        assert(s.take(pat.len() as int) =~= s.subrange(0, pat.len() as int));
        assert(!match_at(s, pat, 0));
        assert(s.take(pat.len() as int) != pat);
        assert forall|i: int| !match_at(s.skip(1), pat, i) by {
            if match_at(s.skip(1), pat, i) {
                assert(s.skip(1).subrange(i, i + pat.len() as int) =~= s.subrange(
                    i + 1,
                    i + 1 + pat.len() as int,
                ));
                assert(match_at(s, pat, i + 1));
            }
        }
        lemma_replace_absent(s.skip(1), pat, repl);
        assert(seq![s[0]] + s.skip(1) =~= s);
    }
}

proof fn lemma_ltrim_no_leading(s: Seq<char>)
    ensures
        ltrim(s).len() > 0 ==> !is_space(ltrim(s)[0]),
    decreases s.len(),
{
    if s.len() > 0 && is_space(s[0]) {
        lemma_ltrim_no_leading(s.skip(1));
    }
}

proof fn lemma_rtrim_no_trailing(s: Seq<char>)
    ensures
        rtrim(s).len() > 0 ==> !is_space(rtrim(s)[rtrim(s).len() - 1]),
    decreases s.len(),
{
    if s.len() > 0 && is_space(s[s.len() - 1]) {
        lemma_rtrim_no_trailing(s.take(s.len() - 1));
    }
}

proof fn lemma_rtrim_prefix(s: Seq<char>)
    ensures
        rtrim(s).len() <= s.len(),
        forall|k: int| 0 <= k < rtrim(s).len() ==> rtrim(s)[k] == s[k],
    decreases s.len(),
{
    if s.len() > 0 && is_space(s[s.len() - 1]) {
        lemma_rtrim_prefix(s.take(s.len() - 1));
        assert forall|k: int| 0 <= k < rtrim(s).len() implies rtrim(s)[k] == s[k] by {
            assert(rtrim(s)[k] == s.take(s.len() - 1)[k]);
        }
    }
}

proof fn lemma_trim_idempotent(s: Seq<char>)
    ensures
        trim_seq(trim_seq(s)) == trim_seq(s),
{
    let t = rtrim(ltrim(s));
    lemma_ltrim_no_leading(s);
    lemma_rtrim_prefix(ltrim(s));
    if t.len() > 0 {
        assert(t[0] == ltrim(s)[0]);
        assert(ltrim(s).len() > 0);
        assert(!is_space(t[0]));
    }
    assert(ltrim(t) == t);
    lemma_rtrim_no_trailing(ltrim(s));
    assert(rtrim(t) == t);
}

/// Normalization is idempotent wherever one pass settles the text: on any
/// input whose normalized form contains no CRLF sequence. (An overlapped
/// run such as CR CR LF leaves a CRLF behind, so a second pass can still
/// change such an input.)
pub proof fn lemma_normalize_idempotent(s: Seq<char>)
    requires
        !occurs_in(normalize_seq(s), "\r\n"@),
    ensures
        normalize_seq(normalize_seq(s)) == normalize_seq(s),
{
    reveal_strlit("\r\n");
    let t = normalize_seq(s);
    lemma_replace_absent(t, "\r\n"@, "\n"@);
    lemma_trim_idempotent(replace_seq(s, "\r\n"@, "\n"@));
}

proof fn lemma_expand_then_collapse(t: Seq<char>)
    requires
        forall|k: int| 0 <= k < t.len() ==> t[k] != '\r',
    ensures
        replace_seq(replace_seq(t, "\n"@, "\r\n"@), "\r\n"@, "\n"@) == t,
    decreases t.len(),
{
    reveal_strlit("\n");
    reveal_strlit("\r\n");
    let lf = "\n"@;
    let crlf = "\r\n"@;
    if t.len() == 0 {
        assert(replace_seq(t, lf, crlf) == t);
        assert(replace_seq(t, crlf, lf) == t);
    } else if t[0] == '\n' {
        assert(t.take(1) =~= lf);
        let u1 = replace_seq(t.skip(1), lf, crlf);
        let u = crlf + u1;
        assert(replace_seq(t, lf, crlf) == u);
        assert(u.take(2) =~= crlf);
        assert(u.skip(2) =~= u1);
        lemma_expand_then_collapse(t.skip(1));
        assert(replace_seq(u, crlf, lf) == lf + replace_seq(u1, crlf, lf));
        assert(lf + t.skip(1) =~= t);
    } else {
        assert(t.take(1)[0] == t[0]);
        assert(t.take(1) != lf);
        let u1 = replace_seq(t.skip(1), lf, crlf);
        let u = seq![t[0]] + u1;
        assert(replace_seq(t, lf, crlf) == u);
        lemma_expand_then_collapse(t.skip(1));
        if u.len() >= 2 {
            assert(u.take(2)[0] == t[0]);
            assert(u.take(2) != crlf);
            assert(u.skip(1) =~= u1);
            assert(replace_seq(u, crlf, lf) == seq![u[0]] + replace_seq(u1, crlf, lf));
            assert(seq![t[0]] + t.skip(1) =~= t);
        } else {
            assert(u.len() == 1);
            assert(u1.len() == 0);
            assert(replace_seq(u1, crlf, lf) == u1);
            assert(t.skip(1).len() == 0);
            assert(replace_seq(u, crlf, lf) == u);
            assert(u =~= t);
        }
    }
}

/// A sample recorded with CRLF line endings and an output produced with
/// LF-only line endings for the same content normalize to the same string,
/// so the comparison cannot fail on the line-ending difference alone.
pub proof fn lemma_crlf_lf_equivalent(t: Seq<char>)
    requires
        forall|k: int| 0 <= k < t.len() ==> t[k] != '\r',
    ensures
        normalize_seq(replace_seq(t, "\n"@, "\r\n"@)) == normalize_seq(t),
{
    reveal_strlit("\r\n");
    lemma_expand_then_collapse(t);
    assert forall|i: int| !match_at(t, "\r\n"@, i) by {
        if match_at(t, "\r\n"@, i) {
            assert(t.subrange(i, i + 2)[0] == t[i]);
            assert(t[i] == '\r');
        }
    }
    lemma_replace_absent(t, "\r\n"@, "\n"@);
}

/// The views of a sequence of owned strings.
pub open spec fn views_of(v: Seq<String>) -> Seq<Seq<char>> {
    v.map_values(|t: String| t@)
}

/// Character-wise string equality.
pub fn str_eq(a: &str, b: &str) -> (r: bool)
    ensures
        r == (a@ == b@),
{
    let alen = a.unicode_len();
    let blen = b.unicode_len();
    if alen != blen {
        return false;
    }
    let mut k: usize = 0;
    while k < alen
        invariant
            k <= alen,
            alen == a@.len(),
            alen == b@.len(),
            forall|m: int| 0 <= m < k ==> a@[m] == b@[m],
        decreases alen - k,
    {
        if a.get_char(k) != b.get_char(k) {
            return false;
        }
        k += 1;
    }
    proof {
        assert(a@ =~= b@);
    }
    true
}

} // verus!
