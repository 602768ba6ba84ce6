//! Verified extraction of the reference strings a markup document names in
//! its double-quoted `href` attributes, in document order. The request layer
//! fetches each extracted reference once; what comes back is classified and
//! embedded by the asset resolver.

use vstd::prelude::*;
use vstd::string::*;

verus! {

/// The attribute prefix that introduces a reference value.
pub open spec fn href_prefix() -> Seq<char> {
    seq!['h', 'r', 'e', 'f', '=', '"']
}

/// The number of leading characters of `s` before its first double quote
/// (all of `s` when it has none).
pub open spec fn quote_pos(s: Seq<char>) -> int
    decreases s.len(),
{
    if s.len() == 0 {
        0
    } else if s[0] == '"' {
        0
    } else {
        1 + quote_pos(s.skip(1))
    }
}

/// The position of the first quote lies within the text.
pub proof fn lemma_quote_pos_bounds(s: Seq<char>)
    ensures
        0 <= quote_pos(s) <= s.len(),
    decreases s.len(),
{
    if s.len() == 0 {
    } else if s[0] == '"' {
    } else {
        lemma_quote_pos_bounds(s.skip(1));
    }
}

/// A position with no quote before it, holding a quote or ending the text,
/// is the first quote position.
pub proof fn lemma_quote_pos_is(s: Seq<char>, j: int)
    requires
        0 <= j <= s.len(),
        forall|k: int| 0 <= k < j ==> s[k] != '"',
        j < s.len() ==> s[j] == '"',
    ensures
        quote_pos(s) == j,
    decreases s.len(),
{
    if s.len() == 0 {
    } else if s[0] == '"' {
        assert(j == 0);
    } else {
        assert(j >= 1);
        assert(forall|k: int| 0 <= k < j - 1 ==> s.skip(1)[k] == s[k + 1]);
        lemma_quote_pos_is(s.skip(1), j - 1);
    }
}

/// The reference strings the markup names: the contents of each
/// double-quoted `href` attribute value, in document order.
pub open spec fn refs_spec(s: Seq<char>) -> Seq<Seq<char>>
    decreases s.len(),
    via refs_spec_decreases
{

    if s.len() < 6 {
        Seq::empty()
    } else if s.take(6) == href_prefix() {
        let rest = s.skip(6);
        let q = quote_pos(rest);
        seq![rest.take(q)] + refs_spec(rest.skip(q))
    } else {
        refs_spec(s.skip(1))
    }
}

#[via_fn]
proof fn refs_spec_decreases(s: Seq<char>) {
    if s.len() >= 6 && s.take(6) == href_prefix() {
        lemma_quote_pos_bounds(s.skip(6));
    }
}

/// Extracts every `href` attribute value from the markup, in document
/// order. The request layer resolves each of these once per render.
pub fn extract_refs(markup: &str) -> (r: Vec<String>)
    ensures
        r@.map_values(|u: String| u@) == refs_spec(markup@),
{
    let n = markup.unicode_len();
    let mut out: Vec<String> = Vec::new();
    let mut i: usize = 0;
    proof {
        reveal_strlit("href=\"");
        assert("href=\""@ =~= href_prefix());
        assert(markup@.skip(0) =~= markup@);
        assert(out@.map_values(|u: String| u@) + refs_spec(markup@) =~= refs_spec(markup@));
    }
    while n >= 6 && i <= n - 6
        invariant
            i <= n,
            n == markup@.len(),
            "href=\""@ == href_prefix(),
            out@.map_values(|u: String| u@) + refs_spec(markup@.skip(i as int)) == refs_spec(
                markup@,
            ),
        decreases n - i,
    {
        let ghost rem = markup@.skip(i as int);
        if crate::rewrite::matches_at(markup, i, "href=\"") {
            let mut j: usize = i + 6;
            while j < n && markup.get_char(j) != '"'
                invariant
                    i + 6 <= j <= n,
                    n == markup@.len(),
                    forall|k: int| i + 6 <= k < j ==> markup@[k] != '"',
                decreases n - j,
            {
                j = j + 1;
            }
            let url = markup.substring_char(i + 6, j);
            let owned = String::from_str(url);
            proof {
                let rest = rem.skip(6);
                assert(rest =~= markup@.skip(i + 6));
                assert(forall|k: int| 0 <= k < j - (i + 6) ==> rest[k] == markup@[i + 6 + k]);
                lemma_quote_pos_is(rest, j - (i + 6));
                assert(rem.take(6) =~= markup@.subrange(i as int, i + 6));
                assert(rest.take(j - (i + 6)) =~= markup@.subrange(i + 6, j as int));
                assert(rest.skip(j - (i + 6)) =~= markup@.skip(j as int));
                assert(refs_spec(rem) == seq![url@] + refs_spec(markup@.skip(j as int)));
                assert((out@ + seq![owned]).map_values(|u: String| u@) =~= out@.map_values(
                    |u: String| u@,
                ) + seq![url@]);
                assert((out@.map_values(|u: String| u@) + seq![url@]) + refs_spec(
                    markup@.skip(j as int),
                ) =~= out@.map_values(|u: String| u@) + (seq![url@] + refs_spec(
                    markup@.skip(j as int),
                )));
            }
            out.push(owned);
            i = j;
        } else {
            proof {
                assert(rem.len() >= 6);
                assert(rem.take(6) =~= markup@.subrange(i as int, i + 6));
                assert(rem.take(6) != href_prefix());
                assert(rem.skip(1) =~= markup@.skip(i + 1));
            }
            i = i + 1;
        }
    }
    proof {
        assert(markup@.skip(i as int).len() < 6);
        assert(refs_spec(markup@.skip(i as int)) =~= Seq::<Seq<char>>::empty());
        assert(out@.map_values(|u: String| u@) + Seq::<Seq<char>>::empty() =~= out@.map_values(
            |u: String| u@,
        ));
    }
    out
}

} // verus!
