//! Whitespace tokenising of raw command lines and tool output.
use vstd::prelude::*;

verus! {

/// The separators between tokens: the characters with the Unicode
/// White_Space property, as `char::is_whitespace` counts them.
pub open spec fn is_space(c: char) -> bool {
    ('\t' <= c && c <= '\r') || c == ' ' || c == '\u{85}' || c == '\u{A0}' || c == '\u{1680}'
        || ('\u{2000}' <= c && c <= '\u{200A}') || c == '\u{2028}' || c == '\u{2029}'
        || c == '\u{202F}' || c == '\u{205F}' || c == '\u{3000}'
}

pub open spec fn has_no_space(s: Seq<char>) -> bool {
    forall|i: int| 0 <= i < s.len() ==> !is_space(#[trigger] s[i])
}

/// The characters of `s` before its first separator.
pub open spec fn first_token_of(s: Seq<char>) -> Seq<char>
    decreases s.len(),
{
    if s.len() == 0 || is_space(s[0]) {
        Seq::empty()
    } else {
        seq![s[0]] + first_token_of(s.drop_first())
    }
}

/// `s` cut at every separator; two adjacent separators give an empty token,
/// and the empty line is one empty token.
pub open spec fn tokens_of(s: Seq<char>) -> Seq<Seq<char>>
    decreases s.len(),
{
    if s.len() == 0 {
        seq![Seq::empty()]
    } else {
        let prev = tokens_of(s.drop_last());
        if is_space(s.last()) {
            prev.push(Seq::empty())
        } else {
            prev.update(prev.len() - 1, prev.last().push(s.last()))
        }
    }
}

pub open spec fn trim_start_of(s: Seq<char>) -> Seq<char>
    decreases s.len(),
{
    if s.len() > 0 && is_space(s[0]) {
        trim_start_of(s.drop_first())
    } else {
        s
    }
}

pub open spec fn trim_end_of(s: Seq<char>) -> Seq<char>
    decreases s.len(),
{
    if s.len() > 0 && is_space(s.last()) {
        trim_end_of(s.drop_last())
    } else {
        s
    }
}

/// `s` without its leading and trailing separators.
pub open spec fn trimmed(s: Seq<char>) -> Seq<char> {
    trim_end_of(trim_start_of(s))
}

pub open spec fn views_of(v: Seq<String>) -> Seq<Seq<char>> {
    v.map_values(|t: String| t@)
}

pub fn is_space_char(c: char) -> (r: bool)
    ensures
        r == is_space(c),
{
    ('\t' <= c && c <= '\r') || c == ' ' || c == '\u{85}' || c == '\u{A0}' || c == '\u{1680}'
        || ('\u{2000}' <= c && c <= '\u{200A}') || c == '\u{2028}' || c == '\u{2029}'
        || c == '\u{202F}' || c == '\u{205F}' || c == '\u{3000}'
}

/// Whether two strings hold the same characters.
pub fn same_text(a: &str, b: &str) -> (r: bool)
    ensures
        r == (a@ == b@),
{
    let n = a.unicode_len();
    let m = b.unicode_len();
    if n != m {
        return false;
    }
    let mut i: usize = 0;
    while i < n
        invariant
            n == a@.len(),
            m == b@.len(),
            n == m,
            i <= n,
            a@.subrange(0, i as int) == b@.subrange(0, i as int),
        decreases n - i,
    {
        if a.get_char(i) != b.get_char(i) {
            assert(a@[i as int] != b@[i as int]);
            return false;
        }
        assert(a@.subrange(0, i + 1) == a@.subrange(0, i as int).push(a@[i as int]));
        assert(b@.subrange(0, i + 1) == b@.subrange(0, i as int).push(b@[i as int]));
        i = i + 1;
    }
    assert(a@.subrange(0, n as int) == a@);
    assert(b@.subrange(0, n as int) == b@);
    true
}

pub proof fn lemma_first_token_prefix(s: Seq<char>, i: int)
    requires
        0 <= i <= s.len(),
        has_no_space(s.subrange(0, i)),
    ensures
        i < s.len() && is_space(s[i]) ==> first_token_of(s) == s.subrange(0, i),
        i == s.len() ==> first_token_of(s) == s,
    decreases i,
{
    if i > 0 {
        let t = s.drop_first();
        assert(t.subrange(0, i - 1) =~= s.subrange(0, i).drop_first());
        assert(has_no_space(t.subrange(0, i - 1))) by {
            assert forall|k: int| 0 <= k < i - 1 implies !is_space(#[trigger] t.subrange(0, i - 1)[k]) by {
                assert(t.subrange(0, i - 1)[k] == s.subrange(0, i)[k + 1]);
            }
        }
        lemma_first_token_prefix(t, i - 1);
        assert(!is_space(s.subrange(0, i)[0]));
        if i < s.len() && is_space(s[i]) {
            assert(t[i - 1] == s[i]);
            assert(s.subrange(0, i) =~= seq![s[0]] + t.subrange(0, i - 1));
        }
        if i == s.len() {
            assert(s =~= seq![s[0]] + t);
        }
    }
}

/// The first token of `s`: what precedes its first separator.
pub fn first_token(s: &str) -> (r: &str)
    ensures
        r@ == first_token_of(s@),
{
    let n = s.unicode_len();
    let mut i: usize = 0;
    while i < n
        invariant
            n == s@.len(),
            i <= n,
            has_no_space(s@.subrange(0, i as int)),
        decreases n - i,
    {
        if is_space_char(s.get_char(i)) {
            proof {
                lemma_first_token_prefix(s@, i as int);
            }
            return s.substring_char(0, i);
        }
        assert(has_no_space(s@.subrange(0, i + 1))) by {
            assert forall|k: int| 0 <= k < i + 1 implies !is_space(#[trigger] s@.subrange(0, i + 1)[k]) by {
                if k < i {
                    assert(s@.subrange(0, i + 1)[k] == s@.subrange(0, i as int)[k]);
                }
            }
        }
        i = i + 1;
    }
    proof {
        lemma_first_token_prefix(s@, n as int);
        assert(s@.subrange(0, n as int) == s@);
    }
    s.substring_char(0, n)
}

/// `s` cut at every separator, in order (see `tokens_of`).
pub fn split_tokens(s: &str) -> (r: Vec<String>)
    ensures
        views_of(r@) == tokens_of(s@),
{
    let n = s.unicode_len();
    let mut out: Vec<String> = Vec::new();
    let mut start: usize = 0;
    let mut i: usize = 0;
    assert(s@.subrange(0, 0) =~= Seq::<char>::empty());
    assert(views_of(out@) =~= Seq::<Seq<char>>::empty());
    while i < n
        invariant
            n == s@.len(),
            start <= i <= n,
            tokens_of(s@.subrange(0, i as int)) == views_of(out@).push(
                s@.subrange(start as int, i as int),
            ),
        decreases n - i,
    {
        let c = s.get_char(i);
        let ghost p = s@.subrange(0, i + 1);
        assert(p.drop_last() =~= s@.subrange(0, i as int));
        assert(p.last() == c);
        if is_space_char(c) {
            let t = String::from_str(s.substring_char(start, i));
            let ghost before = out@;
            out.push(t);
            assert(views_of(out@) =~= views_of(before).push(t@));
            start = i + 1;
            assert(s@.subrange(start as int, start as int) =~= Seq::<char>::empty());
        } else {
            assert(s@.subrange(start as int, i + 1) =~= s@.subrange(start as int, i as int).push(c));
        }
        i = i + 1;
    }
    let t = String::from_str(s.substring_char(start, n));
    let ghost before = out@;
    out.push(t);
    assert(views_of(out@) =~= views_of(before).push(t@));
    assert(s@.subrange(0, n as int) =~= s@);
    out
}

/// `s` without leading and trailing separators, as a new string.
pub fn trim_output(s: &str) -> (r: String)
    ensures
        r@ == trimmed(s@),
{
    let n = s.unicode_len();
    let mut lo: usize = 0;
    assert(s@.subrange(0, n as int) =~= s@);
    while lo < n && is_space_char(s.get_char(lo))
        invariant
            n == s@.len(),
            lo <= n,
            trim_start_of(s@) == trim_start_of(s@.subrange(lo as int, n as int)),
        decreases n - lo,
    {
        assert(s@.subrange(lo as int, n as int).drop_first() =~= s@.subrange(lo + 1, n as int));
        lo = lo + 1;
    }
    assert(trim_start_of(s@) == s@.subrange(lo as int, n as int));
    let mut hi: usize = n;
    while hi > lo && is_space_char(s.get_char(hi - 1))
        invariant
            n == s@.len(),
            lo <= hi <= n,
            trim_end_of(s@.subrange(lo as int, n as int)) == trim_end_of(
                s@.subrange(lo as int, hi as int),
            ),
        decreases hi,
    {
        assert(s@.subrange(lo as int, hi as int).drop_last() =~= s@.subrange(lo as int, hi - 1));
        hi = hi - 1;
    }
    assert(trim_end_of(s@.subrange(lo as int, hi as int)) == s@.subrange(lo as int, hi as int));
    String::from_str(s.substring_char(lo, hi))
}

} // verus!
