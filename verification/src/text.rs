//! Plain text helpers with exact specifications.

use vstd::prelude::*;

verus! {

/// The Unicode `White_Space` property: the characters that `str::trim` removes.
pub open spec fn is_white_space(c: char) -> bool {
    ||| ('\u{9}' <= c && c <= '\u{d}')
    ||| c == ' '
    ||| c == '\u{85}'
    ||| c == '\u{a0}'
    ||| c == '\u{1680}'
    ||| ('\u{2000}' <= c && c <= '\u{200a}')
    ||| c == '\u{2028}'
    ||| c == '\u{2029}'
    ||| c == '\u{202f}'
    ||| c == '\u{205f}'
    ||| c == '\u{3000}'
}

/// `s` without its leading white space.
pub open spec fn trim_start_spec(s: Seq<char>) -> Seq<char>
    decreases s.len(),
{
    if s.len() > 0 && is_white_space(s[0]) {
        trim_start_spec(s.drop_first())
    } else {
        s
    }
}

/// `s` without its trailing white space.
pub open spec fn trim_end_spec(s: Seq<char>) -> Seq<char>
    decreases s.len(),
{
    if s.len() > 0 && is_white_space(s.last()) {
        trim_end_spec(s.drop_last())
    } else {
        s
    }
}

/// `s` without its leading and trailing white space.
pub open spec fn trim_spec(s: Seq<char>) -> Seq<char> {
    trim_end_spec(trim_start_spec(s))
}

proof fn lemma_trim_start_shape(s: Seq<char>)
    ensures
        trim_start_spec(s).len() == 0 || !is_white_space(trim_start_spec(s)[0]),
        trim_start_spec(s).len() <= s.len(),
        trim_start_spec(s) =~= s.subrange(s.len() - trim_start_spec(s).len(), s.len() as int),
    decreases s.len(),
{
    if s.len() > 0 && is_white_space(s[0]) {
        lemma_trim_start_shape(s.drop_first());
    }
}

proof fn lemma_trim_end_shape(s: Seq<char>)
    ensures
        trim_end_spec(s).len() == 0 || !is_white_space(trim_end_spec(s).last()),
        trim_end_spec(s).len() <= s.len(),
        trim_end_spec(s) =~= s.subrange(0, trim_end_spec(s).len() as int),
    decreases s.len(),
{
    if s.len() > 0 && is_white_space(s.last()) {
        lemma_trim_end_shape(s.drop_last());
    }
}

/// Trimming twice is trimming once: a trimmed text has no white space at
/// either end.
pub proof fn lemma_trim_idempotent(s: Seq<char>)
    ensures
        trim_spec(trim_spec(s)) == trim_spec(s),
        trim_spec(s).len() == 0 || (!is_white_space(trim_spec(s)[0]) && !is_white_space(
            trim_spec(s).last(),
        )),
{
    let a = trim_start_spec(s);
    let t = trim_end_spec(a);
    lemma_trim_start_shape(s);
    lemma_trim_end_shape(a);
    if t.len() > 0 {
        assert(t[0] == a[0]);
    }
    assert(trim_start_spec(t) == t);
    assert(trim_end_spec(t) == t);
}

/// What trimming does: it keeps one contiguous stretch of `s`, drops only white
/// space before and after it, and the stretch neither starts nor ends with
/// white space.
pub proof fn lemma_trim_keeps_the_middle(s: Seq<char>)
    ensures
        exists|i: int, j: int|
            0 <= i <= j <= s.len() && #[trigger] s.subrange(i, j) == trim_spec(s) && (forall|k: int|
                0 <= k < i ==> is_white_space(#[trigger] s[k])) && (forall|k: int|
                j <= k < s.len() ==> is_white_space(#[trigger] s[k])),
        trim_spec(s).len() > 0 ==> !is_white_space(trim_spec(s)[0]) && !is_white_space(
            trim_spec(s).last(),
        ),
{
    lemma_trim_start_dropped(s);
    let a = trim_start_spec(s);
    let i = s.len() - a.len();
    lemma_trim_end_dropped(a);
    let t = trim_end_spec(a);
    let j = i + t.len();
    lemma_trim_idempotent(s);
    assert(s.subrange(i, j) =~= t);
    assert forall|k: int| j <= k < s.len() implies is_white_space(#[trigger] s[k]) by {
        assert(s[k] == a[k - i]);
    }
}

proof fn lemma_trim_start_dropped(s: Seq<char>)
    ensures
        trim_start_spec(s).len() <= s.len(),
        trim_start_spec(s) == s.subrange(s.len() - trim_start_spec(s).len(), s.len() as int),
        forall|k: int|
            0 <= k < s.len() - trim_start_spec(s).len() ==> is_white_space(#[trigger] s[k]),
    decreases s.len(),
{
    if s.len() > 0 && is_white_space(s[0]) {
        lemma_trim_start_dropped(s.drop_first());
        assert forall|k: int|
            0 <= k < s.len() - trim_start_spec(s).len() implies is_white_space(#[trigger] s[k]) by {
            if k > 0 {
                assert(s[k] == s.drop_first()[k - 1]);
            }
        }
        assert(trim_start_spec(s) =~= s.subrange(
            s.len() - trim_start_spec(s).len(),
            s.len() as int,
        ));
    } else {
        assert(s =~= s.subrange(0, s.len() as int));
    }
}

proof fn lemma_trim_end_dropped(s: Seq<char>)
    ensures
        trim_end_spec(s).len() <= s.len(),
        trim_end_spec(s) == s.subrange(0, trim_end_spec(s).len() as int),
        forall|k: int| trim_end_spec(s).len() <= k < s.len() ==> is_white_space(#[trigger] s[k]),
    decreases s.len(),
{
    if s.len() > 0 && is_white_space(s.last()) {
        lemma_trim_end_dropped(s.drop_last());
        assert forall|k: int| trim_end_spec(s).len() <= k < s.len() implies is_white_space(
            #[trigger] s[k],
        ) by {
            if k < s.len() - 1 {
                assert(s[k] == s.drop_last()[k]);
            }
        }
        assert(trim_end_spec(s) =~= s.subrange(0, trim_end_spec(s).len() as int));
    } else {
        assert(s =~= s.subrange(0, s.len() as int));
    }
}

/// Whether `c` has the Unicode `White_Space` property.
pub fn white_space(c: char) -> (b: bool)
    ensures
        b == is_white_space(c),
{
    ('\u{9}' <= c && c <= '\u{d}') || c == ' ' || c == '\u{85}' || c == '\u{a0}' || c
        == '\u{1680}' || ('\u{2000}' <= c && c <= '\u{200a}') || c == '\u{2028}' || c
        == '\u{2029}' || c == '\u{202f}' || c == '\u{205f}' || c == '\u{3000}'
}

/// The slice of `s` between its leading and its trailing white space.
pub fn trim(s: &str) -> (r: &str)
    ensures
        r@ == trim_spec(s@),
{
    let n: usize = s.unicode_len();
    let mut i: usize = 0;
    assert(s@.subrange(0, n as int) =~= s@);
    while i < n && white_space(s.get_char(i))
        invariant
            n == s@.len(),
            i <= n,
            trim_start_spec(s@) == trim_start_spec(s@.subrange(i as int, n as int)),
        decreases n - i,
    {
        assert(s@.subrange(i as int, n as int).drop_first() =~= s@.subrange(i + 1, n as int));
        i = i + 1;
    }
    let ghost start = s@.subrange(i as int, n as int);
    assert(trim_start_spec(start) == start) by {
        if start.len() > 0 {
            assert(start[0] == s@[i as int]);
        }
    }
    let mut j: usize = n;
    while j > i && white_space(s.get_char(j - 1))
        invariant
            n == s@.len(),
            i <= j <= n,
            start == s@.subrange(i as int, n as int),
            trim_end_spec(start) == trim_end_spec(s@.subrange(i as int, j as int)),
        decreases j - i,
    {
        assert(s@.subrange(i as int, j as int).drop_last() =~= s@.subrange(i as int, j - 1));
        j = j - 1;
    }
    let ghost kept = s@.subrange(i as int, j as int);
    assert(trim_end_spec(kept) == kept) by {
        if kept.len() > 0 {
            assert(kept.last() == s@[j - 1]);
        }
    }
    s.substring_char(i, j)
}

} // verus!
