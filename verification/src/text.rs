//! Character-sequence model shared by the reference parser and the
//! extension-based language dispatch: whitespace trimming, searching for the
//! last occurrence of a character, and the substring relation.
use vstd::prelude::*;

verus! {

/// The whitespace characters that reference strings are trimmed of: the
/// Unicode `White_Space` set.
pub open spec fn is_ws(c: char) -> bool {
    let u = c as u32;
    (0x9 <= u && u <= 0xd) || u == 0x20 || u == 0x85 || u == 0xa0 || u == 0x1680 || (0x2000 <= u
        && u <= 0x200a) || u == 0x2028 || u == 0x2029 || u == 0x202f || u == 0x205f || u == 0x3000
}

/// Index of the first non-whitespace character at or after `i`, or `s.len()`
/// if every character from `i` on is whitespace.
pub open spec fn first_non_ws_from(s: Seq<char>, i: int) -> int
    decreases s.len() - i when 0 <= i <= s.len()
{
    if i >= s.len() {
        s.len() as int
    } else if !is_ws(s[i]) {
        i
    } else {
        first_non_ws_from(s, i + 1)
    }
}

/// Largest index `j < i` with `!is_ws(s[j])`, or `-1` if there is none.
pub open spec fn last_non_ws_before(s: Seq<char>, i: int) -> int
    decreases i when 0 <= i <= s.len()
{
    if i <= 0 {
        -1
    } else if !is_ws(s[i - 1]) {
        i - 1
    } else {
        last_non_ws_before(s, i - 1)
    }
}

/// Largest index `j < i` with `s[j] == c`, or `-1` if there is none.
pub open spec fn last_index_before(s: Seq<char>, i: int, c: char) -> int
    decreases i when 0 <= i <= s.len()
{
    if i <= 0 {
        -1
    } else if s[i - 1] == c {
        i - 1
    } else {
        last_index_before(s, i - 1, c)
    }
}

/// `s` with leading and trailing whitespace removed.
pub open spec fn trim_spec(s: Seq<char>) -> Seq<char> {
    let lo = first_non_ws_from(s, 0);
    let hi = last_non_ws_before(s, s.len() as int) + 1;
    if lo >= hi {
        Seq::empty()
    } else {
        s.subrange(lo, hi)
    }
}

/// `sub` occurs contiguously somewhere in `whole`.
pub open spec fn is_substring_of(sub: Seq<char>, whole: Seq<char>) -> bool {
    exists |j: int| 0 <= j && j + sub.len() <= whole.len() && sub =~= #[trigger] whole.subrange(j, j + sub.len() as int)
}

/// Runtime test for the whitespace set above.
pub fn is_ws_exec(c: char) -> (r: bool)
    ensures
        r == is_ws(c),
{
    let u = c as u32;
    (0x9 <= u && u <= 0xd) || u == 0x20 || u == 0x85 || u == 0xa0 || u == 0x1680 || (0x2000 <= u
        && u <= 0x200a) || u == 0x2028 || u == 0x2029 || u == 0x202f || u == 0x205f || u == 0x3000
}

/// Finds the last occurrence of `c` in `s`, as a character index.
pub fn rfind_char(s: &str, c: char) -> (r: Option<usize>)
    ensures
        match r {
            Some(i) => i < s@.len() && last_index_before(s@, s@.len() as int, c) == i as int,
            None => last_index_before(s@, s@.len() as int, c) == -1,
        },
{
    let n = s.unicode_len();
    let mut j: usize = n;
    while j > 0 && s.get_char(j - 1) != c
        invariant
            n == s@.len(),
            0 <= j <= n,
            last_index_before(s@, n as int, c) == last_index_before(s@, j as int, c),
        decreases j,
    {
        proof {
            lemma_last_index_before_step(s@, j as int, c);
        }
        j -= 1;
    }
    if j == 0 {
        None
    } else {
        Some(j - 1)
    }
}

/// `last_non_ws_before` is `-1` on an all-whitespace prefix.
pub proof fn lemma_last_non_ws_all_ws(s: Seq<char>, i: int)
    requires
        0 <= i <= s.len(),
        forall|k: int| 0 <= k < i ==> is_ws(s[k]),
    ensures
        last_non_ws_before(s, i) == -1,
    decreases i,
{
    if i > 0 {
        lemma_last_non_ws_all_ws(s, i - 1);
    }
}

pub proof fn lemma_last_index_before_bounds(s: Seq<char>, i: int, c: char)
    requires
        0 <= i <= s.len(),
    ensures
        -1 <= last_index_before(s, i, c) < i,
        last_index_before(s, i, c) >= 0 ==> s[last_index_before(s, i, c)] == c,
        forall|k: int| last_index_before(s, i, c) < k < i ==> s[k] != c,
    decreases i,
{
    if i > 0 && s[i - 1] != c {
        lemma_last_index_before_bounds(s, i - 1, c);
    }
}

/// A step of the scan: skipping a non-`c` character at `i - 1` keeps the
/// result of `last_index_before` unchanged.
pub proof fn lemma_last_index_before_step(s: Seq<char>, i: int, c: char)
    requires
        0 < i <= s.len(),
        s[i - 1] != c,
    ensures
        last_index_before(s, i, c) == last_index_before(s, i - 1, c),
{
}

} // verus!
