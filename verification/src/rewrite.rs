//! Verified replacement of every occurrence of a pattern in a text, scanning
//! left to right and never rescanning replaced output. Used to swap asset
//! reference strings in rendered markup for self-contained data URLs.

use vstd::prelude::*;
use vstd::string::*;

verus! {

/// The result of replacing, left to right, each occurrence of `pat` in `s`
/// by `rep`. Replaced output is not rescanned; an empty pattern replaces
/// nothing.
pub open spec fn replace_spec(s: Seq<char>, pat: Seq<char>, rep: Seq<char>) -> Seq<char>
    decreases s.len(),
{
    if pat.len() == 0 || s.len() < pat.len() {
        s
    } else if s.take(pat.len() as int) == pat {
        rep + replace_spec(s.skip(pat.len() as int), pat, rep)
    } else {
        seq![s[0]] + replace_spec(s.skip(1), pat, rep)
    }
}

/// Whether `pat` occurs in `s` starting at position `i`.
pub(crate) fn matches_at(s: &str, i: usize, pat: &str) -> (r: bool)
    requires
        i <= s@.len(),
    ensures
        r == (i + pat@.len() <= s@.len() && s@.subrange(i as int, i + pat@.len()) == pat@),
{
    let n = s.unicode_len();
    let m = pat.unicode_len();
    if m > n - i {
        return false;
    }
    let mut j: usize = 0;
    while j < m
        invariant
            j <= m,
            n == s@.len(),
            m == pat@.len(),
            i + m <= n,
            forall|k: int| 0 <= k < j ==> s@[i + k] == pat@[k],
        decreases m - j,
    {
        if s.get_char(i + j) != pat.get_char(j) {
            proof {
                assert(s@.subrange(i as int, i + pat@.len())[j as int] == s@[i + j]);
            }
            return false;
        }
        j = j + 1;
    }
    proof {
        assert(s@.subrange(i as int, i + pat@.len()) =~= pat@);
    }
    true
}

/// Replaces every occurrence of `pat` in `s` by `rep`, left to right.
pub fn replace_all(s: &str, pat: &str, rep: &str) -> (r: String)
    ensures
        r@ == replace_spec(s@, pat@, rep@),
{
    let n = s.unicode_len();
    let m = pat.unicode_len();
    if m == 0 {
        return String::from_str(s);
    }
    let mut out = String::new();
    let mut i: usize = 0;
    proof {
        assert(s@.skip(0) =~= s@);
        assert(Seq::<char>::empty() + replace_spec(s@, pat@, rep@) =~= replace_spec(
            s@,
            pat@,
            rep@,
        ));
    }
    while i < n
        invariant
            i <= n,
            n == s@.len(),
            m == pat@.len(),
            1 <= m,
            out@ + replace_spec(s@.skip(i as int), pat@, rep@) == replace_spec(s@, pat@, rep@),
        decreases n - i,
    {
        let ghost rem = s@.skip(i as int);
        if matches_at(s, i, pat) {
            proof {
                assert(rem.take(m as int) =~= s@.subrange(i as int, i + m));
                assert(rem.skip(m as int) =~= s@.skip(i + m));
                assert(replace_spec(rem, pat@, rep@) == rep@ + replace_spec(
                    s@.skip(i + m),
                    pat@,
                    rep@,
                ));
                assert((out@ + rep@) + replace_spec(s@.skip(i + m), pat@, rep@) =~= out@ + (rep@
                    + replace_spec(s@.skip(i + m), pat@, rep@)));
            }
            out.append(rep);
            i = i + m;
        } else {
            proof {
                assert(rem =~= seq![s@[i as int]] + rem.skip(1));
                if rem.len() >= m {
                    assert(rem.take(m as int) =~= s@.subrange(i as int, i + m));
                    assert(rem.take(m as int) != pat@);
                    assert(replace_spec(rem, pat@, rep@) == seq![rem[0]] + replace_spec(
                        rem.skip(1),
                        pat@,
                        rep@,
                    ));
                } else {
                    assert(replace_spec(rem, pat@, rep@) == rem);
                    assert(replace_spec(rem.skip(1), pat@, rep@) == rem.skip(1));
                }
                assert(seq![rem[0]] == seq![s@[i as int]]);
                assert(rem.skip(1) =~= s@.skip(i + 1));
                assert((out@ + seq![s@[i as int]]) + replace_spec(s@.skip(i + 1), pat@, rep@)
                    =~= out@ + (seq![s@[i as int]] + replace_spec(s@.skip(i + 1), pat@, rep@)));
                assert(s@.subrange(i as int, i + 1) =~= seq![s@[i as int]]);
            }
            let piece = s.substring_char(i, i + 1);
            out.append(piece);
            i = i + 1;
        }
    }
    proof {
        assert(s@.skip(n as int) =~= Seq::<char>::empty());
        assert(replace_spec(Seq::<char>::empty(), pat@, rep@) == Seq::<char>::empty());
        assert(out@ + Seq::<char>::empty() =~= out@);
    }
    out
}

} // verus!
