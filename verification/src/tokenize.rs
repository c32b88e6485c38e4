use vstd::prelude::*;

use crate::text::{is_space, is_space_char, views_of};

verus! {

/// The longest whitespace-free prefix of `s`.
pub open spec fn head_token(s: Seq<char>) -> Seq<char>
    decreases s.len(),
{
    if s.len() == 0 || is_space(s[0]) {
        Seq::empty()
    } else {
        seq![s[0]] + head_token(s.skip(1))
    }
}

pub proof fn lemma_head_token_len(s: Seq<char>)
    ensures
        head_token(s).len() <= s.len(),
    decreases s.len(),
{
    if s.len() > 0 && !is_space(s[0]) {
        lemma_head_token_len(s.skip(1));
    }
}

/// The whitespace-separated tokens of `s`, in order: the maximal runs of
/// non-whitespace characters.
pub open spec fn split_tokens(s: Seq<char>) -> Seq<Seq<char>>
    decreases s.len(),
    via split_tokens_decreases
{
    if s.len() == 0 {
        Seq::empty()
    } else if is_space(s[0]) {
        split_tokens(s.skip(1))
    } else {
        seq![head_token(s)] + split_tokens(s.skip(head_token(s).len() as int))
    }
}

#[via_fn]
proof fn split_tokens_decreases(s: Seq<char>) {
    if s.len() > 0 && !is_space(s[0]) {
        lemma_head_token_len(s);
        assert(head_token(s).len() >= 1);
    }
}

proof fn lemma_head_token_run(s: Seq<char>, e: int)
    requires
        0 <= e <= s.len(),
        forall|k: int| 0 <= k < e ==> !is_space(s[k]),
        e == s.len() || is_space(s[e]),
    ensures
        head_token(s) == s.take(e),
    decreases e,
{
    if e == 0 {
        assert(s.take(0) =~= Seq::<char>::empty());
    } else {
        assert(!is_space(s[0]));
        lemma_head_token_run(s.skip(1), e - 1);
        assert(s.skip(1).take(e - 1) =~= s.take(e).skip(1));
        assert(seq![s[0]] + s.take(e).skip(1) =~= s.take(e));
    }
}

/// Splits a command line into its whitespace-separated tokens, the argv the
/// executor hands to the operating system; no shell ever interprets the
/// line.
pub fn tokenize(s: &str) -> (tokens: Vec<String>)
    ensures
        views_of(tokens@) == split_tokens(s@),
{
    let n = s.unicode_len();
    let mut tokens: Vec<String> = Vec::new();
    let mut i: usize = 0;
    proof {
        assert(s@.skip(0) =~= s@);
        assert(views_of(tokens@) + split_tokens(s@) =~= split_tokens(s@));
    }
    while i < n
        invariant
            i <= n,
            n == s@.len(),
            split_tokens(s@) == views_of(tokens@) + split_tokens(s@.skip(i as int)),
        decreases n - i,
    {
        if is_space_char(s.get_char(i)) {
            proof {
                let t = s@.skip(i as int);
                assert(t[0] == s@[i as int]);
                assert(split_tokens(t) == split_tokens(t.skip(1)));
                assert(t.skip(1) =~= s@.skip(i + 1));
            }
            i += 1;
        } else {
            let start = i;
            let mut e: usize = i;
            while e < n && !is_space_char(s.get_char(e))
                invariant
                    start <= e <= n,
                    n == s@.len(),
                    forall|k: int| start <= k < e ==> !is_space(s@[k]),
                decreases n - e,
            {
                e += 1;
            }
            let tok = s.substring_char(start, e);
            let owned = String::from_str(tok);
            proof {
                let t = s@.skip(start as int);
                assert forall|k: int| 0 <= k < e - start implies !is_space(t[k]) by {
                    assert(t[k] == s@[start + k]);
                }
                if e < n {
                    assert(t[e - start] == s@[e as int]);
                }
                lemma_head_token_run(t, e - start);
                assert(t.take(e - start) =~= s@.subrange(start as int, e as int));
                assert(!is_space(t[0]));
                assert(split_tokens(t) == seq![head_token(t)] + split_tokens(
                    t.skip(head_token(t).len() as int),
                ));
                assert(t.skip(e - start) =~= s@.skip(e as int));
                assert(views_of(tokens@.push(owned)) =~= views_of(tokens@) + seq![owned@]);
                assert(views_of(tokens@.push(owned)) + split_tokens(s@.skip(e as int))
                    =~= split_tokens(s@));
            }
            tokens.push(owned);
            i = e;
        }
    }
    proof {
        assert(s@.skip(n as int).len() == 0);
        assert(views_of(tokens@) =~= split_tokens(s@));
    }
    tokens
}

} // verus!
