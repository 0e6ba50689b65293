//! Plain-text scanning for roster lines: first whitespace-delimited token
//! extraction and suffix matching.

use vstd::prelude::*;

verus! {

/// Whether `c` is ASCII whitespace as it occurs in protocol text lines.
pub open spec fn is_space_char(c: char) -> bool {
    c == ' ' || c == '\t' || c == '\r' || c == '\n'
}

/// The maximal run of non-whitespace characters at the start of `s`.
pub open spec fn leading_run(s: Seq<char>) -> Seq<char>
    decreases s.len(),
{
    if s.len() == 0 || is_space_char(s[0]) {
        Seq::empty()
    } else {
        seq![s[0]] + leading_run(s.drop_first())
    }
}

/// The first whitespace-delimited token of `s`; empty when `s` holds no
/// non-whitespace character.
pub open spec fn first_token(s: Seq<char>) -> Seq<char>
    decreases s.len(),
{
    if s.len() == 0 {
        Seq::empty()
    } else if is_space_char(s[0]) {
        first_token(s.drop_first())
    } else {
        leading_run(s)
    }
}

/// Whether `s` ends with `suffix`.
pub open spec fn ends_with(s: Seq<char>, suffix: Seq<char>) -> bool {
    suffix.len() <= s.len() && s.skip(s.len() - suffix.len()) == suffix
}

/// Executable counterpart of [`is_space_char`].
fn is_space(c: char) -> (b: bool)
    ensures
        b == is_space_char(c),
{
    c == ' ' || c == '\t' || c == '\r' || c == '\n'
}

/// Dropping a whitespace prefix does not change the first token.
proof fn lemma_first_token_skip_spaces(s: Seq<char>, i: int)
    requires
        0 <= i <= s.len(),
        forall|k: int| 0 <= k < i ==> is_space_char(#[trigger] s[k]),
    ensures
        first_token(s) == first_token(s.skip(i)),
    decreases i,
{
    if i == 0 {
        assert(s.skip(0) =~= s);
    } else {
        assert(s.len() > 0 && is_space_char(s[0]));
        let t = s.drop_first();
        assert(forall|k: int| 0 <= k < i - 1 ==> is_space_char(#[trigger] t[k]));
        lemma_first_token_skip_spaces(t, i - 1);
        assert(t.skip(i - 1) =~= s.skip(i));
    }
}

/// The leading run of a string whose first `m` characters are non-whitespace
/// and whose character `m` (if any) is whitespace is exactly those `m`
/// characters.
proof fn lemma_leading_run_exact(s: Seq<char>, m: int)
    requires
        0 <= m <= s.len(),
        forall|k: int| 0 <= k < m ==> !is_space_char(#[trigger] s[k]),
        m < s.len() ==> is_space_char(s[m]),
    ensures
        leading_run(s) == s.subrange(0, m),
    decreases m,
{
    if m == 0 {
        assert(s.subrange(0, 0) =~= Seq::<char>::empty());
    } else {
        let t = s.drop_first();
        assert(forall|k: int| 0 <= k < m - 1 ==> !is_space_char(#[trigger] t[k]));
        assert(m - 1 < t.len() ==> is_space_char(t[m - 1]));
        lemma_leading_run_exact(t, m - 1);
        assert(seq![s[0]] + t.subrange(0, m - 1) =~= s.subrange(0, m));
    }
}

/// Extracts the first whitespace-delimited token of `line`, or `None` when
/// the line holds no token at all.
pub fn extract_token(line: &str) -> (r: Option<String>)
    ensures
        match r {
            Some(t) => first_token(line@).len() > 0 && t@ == first_token(line@),
            None => first_token(line@).len() == 0,
        },
{
    let n = line.unicode_len();
    let mut i: usize = 0;
    loop
        invariant
            n == line@.len(),
            0 <= i <= n,
            forall|k: int| 0 <= k < i ==> is_space_char(#[trigger] line@[k]),
        ensures
            0 <= i <= n,
            forall|k: int| 0 <= k < i ==> is_space_char(#[trigger] line@[k]),
            i < n ==> !is_space_char(line@[i as int]),
        decreases n - i,
    {
        if i >= n {
            break;
        }
        if !is_space(line.get_char(i)) {
            break;
        }
        i = i + 1;
    }
    proof {
        lemma_first_token_skip_spaces(line@, i as int);
    }
    if i == n {
        proof {
            assert(line@.skip(n as int) =~= Seq::<char>::empty());
        }
        return None;
    }
    let start = i;
    loop
        invariant
            n == line@.len(),
            start <= i <= n,
            start < n,
            forall|k: int| start <= k < i ==> !is_space_char(#[trigger] line@[k]),
            !is_space_char(line@[start as int]),
        ensures
            start <= i <= n,
            forall|k: int| start <= k < i ==> !is_space_char(#[trigger] line@[k]),
            i < n ==> is_space_char(line@[i as int]),
        decreases n - i,
    {
        if i >= n {
            break;
        }
        if is_space(line.get_char(i)) {
            break;
        }
        i = i + 1;
    }
    let ghost rest = line@.skip(start as int);
    proof {
        assert(i < n ==> is_space_char(line@[i as int]));
        assert(forall|k: int| 0 <= k < i - start ==> rest[k] == line@[start + k]);
        assert(i - start < rest.len() ==> is_space_char(rest[i - start]));
        lemma_leading_run_exact(rest, i - start);
        assert(rest.subrange(0, i - start) =~= line@.subrange(start as int, i as int));
    }
    let tok = line.substring_char(start, i);
    Some(String::from_str(tok))
}

/// Whether `s` ends with the characters of `suffix`.
pub fn str_ends_with(s: &str, suffix: &str) -> (b: bool)
    ensures
        b == ends_with(s@, suffix@),
{
    let n = s.unicode_len();
    let m = suffix.unicode_len();
    if m > n {
        return false;
    }
    let off = n - m;
    let mut i: usize = 0;
    while i < m
        invariant
            n == s@.len(),
            m == suffix@.len(),
            m <= n,
            off == n - m,
            0 <= i <= m,
            forall|k: int| 0 <= k < i ==> s@[off + k] == #[trigger] suffix@[k],
        decreases m - i,
    {
        if s.get_char(off + i) != suffix.get_char(i) {
            proof {
                assert(s@.skip(off as int)[i as int] != suffix@[i as int]);
            }
            return false;
        }
        i = i + 1;
    }
    proof {
        assert(s@.skip(off as int) =~= suffix@);
    }
    true
}

} // verus!
