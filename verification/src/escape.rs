//! Escaping of caller-controlled text for the SVG/XML markup context.
//!
//! Every variable value is passed through [`escape_markup`] before it is
//! substituted into the template, so a caller can never alter the structure
//! of the rendered document.

use vstd::prelude::*;
use vstd::string::*;

verus! {

/// What a single character becomes in markup-safe text: the five markup
/// metacharacters turn into their entity references, everything else is kept.
pub open spec fn escape_char_spec(c: char) -> Seq<char> {
    if c == '<' {
        "&lt;"@
    } else if c == '>' {
        "&gt;"@
    } else if c == '&' {
        "&amp;"@
    } else if c == '"' {
        "&quot;"@
    } else if c == '\'' {
        "&apos;"@
    } else {
        seq![c]
    }
}

/// Markup-escaping of a whole string, character by character.
pub open spec fn escape_spec(s: Seq<char>) -> Seq<char>
    decreases s.len(),
{
    if s.len() == 0 {
        Seq::empty()
    } else {
        escape_char_spec(s[0]) + escape_spec(s.skip(1))
    }
}

/// Escaping distributes over concatenation.
pub proof fn lemma_escape_append(a: Seq<char>, b: Seq<char>)
    ensures
        escape_spec(a + b) == escape_spec(a) + escape_spec(b),
    decreases a.len(),
{
    if a.len() == 0 {
        assert(a + b =~= b);
        assert(escape_spec(a) + escape_spec(b) =~= escape_spec(b));
    } else {
        assert((a + b).skip(1) =~= a.skip(1) + b);
        lemma_escape_append(a.skip(1), b);
        assert((a + b)[0] == a[0]);
        assert(escape_char_spec(a[0]) + (escape_spec(a.skip(1)) + escape_spec(b)) =~= (
        escape_char_spec(a[0]) + escape_spec(a.skip(1))) + escape_spec(b));
    }
}

/// Escaping a one-character string is escaping that character.
pub proof fn lemma_escape_single(c: char)
    ensures
        escape_spec(seq![c]) == escape_char_spec(c),
{
    let s = seq![c];
    assert(s.len() == 1);
    assert(s[0] == c);
    assert(s.skip(1) =~= Seq::<char>::empty());
    assert(escape_spec(s) == escape_char_spec(c) + escape_spec(Seq::<char>::empty()));
    assert(escape_char_spec(c) + Seq::<char>::empty() =~= escape_char_spec(c));
}

/// Escaped text never contains an angle bracket: no caller-supplied value can
/// open or close a markup element after escaping.
pub proof fn lemma_escape_no_markup(s: Seq<char>)
    ensures
        forall|i: int|
            0 <= i < escape_spec(s).len() ==> escape_spec(s)[i] != '<' && escape_spec(s)[i] != '>',
    decreases s.len(),
{
    reveal_strlit("&lt;");
    reveal_strlit("&gt;");
    reveal_strlit("&amp;");
    reveal_strlit("&quot;");
    reveal_strlit("&apos;");
    if s.len() == 0 {
    } else {
        lemma_escape_no_markup(s.skip(1));
        let head = escape_char_spec(s[0]);
        assert(forall|i: int| 0 <= i < head.len() ==> head[i] != '<' && head[i] != '>');
        assert(forall|i: int|
            0 <= i < escape_spec(s).len() ==> escape_spec(s)[i] == (if i < head.len() {
                head[i]
            } else {
                escape_spec(s.skip(1))[i - head.len()]
            }));
    }
}

/// Escapes a string for the markup context.
pub fn escape_markup(s: &str) -> (r: String)
    ensures
        r@ == escape_spec(s@),
{
    let n: usize = s.unicode_len();
    let mut out = String::new();
    let mut i: usize = 0;
    while i < n
        invariant
            n == s@.len(),
            i <= n,
            out@ == escape_spec(s@.take(i as int)),
        decreases n - i,
    {
        let c = s.get_char(i);
        proof {
            assert(s@.take(i + 1) =~= s@.take(i as int) + seq![s@[i as int]]);
            lemma_escape_append(s@.take(i as int), seq![s@[i as int]]);
            lemma_escape_single(s@[i as int]);
        }
        if c == '<' {
            out.append("&lt;");
        } else if c == '>' {
            out.append("&gt;");
        } else if c == '&' {
            out.append("&amp;");
        } else if c == '"' {
            out.append("&quot;");
        } else if c == '\'' {
            out.append("&apos;");
        } else {
            let piece = s.substring_char(i, i + 1);
            proof {
                assert(s@.subrange(i as int, i + 1) =~= seq![s@[i as int]]);
            }
            out.append(piece);
        }
        i = i + 1;
    }
    proof {
        assert(s@.take(n as int) =~= s@);
    }
    out
}

} // verus!
