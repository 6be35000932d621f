//! Character-level text utilities: substring containment (used to recognise a
//! browser from the foreground application name) and whitespace trimming
//! (used to clean the automation bridge's raw output).

use vstd::prelude::*;

verus! {

/// `pat` occurs in `s` starting at position `i`.
pub open spec fn matches_at(s: Seq<char>, pat: Seq<char>, i: int) -> bool {
    0 <= i && i + pat.len() <= s.len() && s.subrange(i, i + pat.len()) == pat
}

/// `pat` occurs somewhere in `s` as a contiguous run of characters.
pub open spec fn contains_seq(s: Seq<char>, pat: Seq<char>) -> bool {
    exists|i: int| matches_at(s, pat, i)
}

/// Substring search: decides `contains_seq(s@, pat@)`.
pub fn contains_substr(s: &str, pat: &str) -> (r: bool)
    ensures
        r == contains_seq(s@, pat@),
{
    let n: usize = s.unicode_len();
    let m: usize = pat.unicode_len();
    if m > n {
        assert(forall|k: int| !matches_at(s@, pat@, k));
        return false;
    }
    if m == 0 {
        assert(matches_at(s@, pat@, 0)) by {
            assert(s@.subrange(0, 0) =~= pat@);
        }
        return true;
    }
    let mut i: usize = 0;
    loop
        invariant
            n == s@.len(),
            m == pat@.len(),
            1 <= m <= n,
            i <= n - m + 1,
            forall|k: int| 0 <= k < i ==> !matches_at(s@, pat@, k),
        decreases n - m + 1 - i,
    {
        if i > n - m {
            assert(forall|k: int| !matches_at(s@, pat@, k));
            return false;
        }
        let mut j: usize = 0;
        let mut mismatch = false;
        while j < m && !mismatch
            invariant
                n == s@.len(),
                m == pat@.len(),
                1 <= m <= n,
                i <= n - m,
                j <= m,
                !mismatch ==> forall|l: int| 0 <= l < j ==> s@[i + l] == pat@[l],
                mismatch ==> !matches_at(s@, pat@, i as int),
            decreases m - j + (if mismatch { 0int } else { 1int }),
        {
            if s.get_char(i + j) != pat.get_char(j) {
                assert(!matches_at(s@, pat@, i as int)) by {
                    if matches_at(s@, pat@, i as int) {
                        assert(s@.subrange(i as int, i + m)[j as int] == pat@[j as int]);
                        assert(s@.subrange(i as int, i + m)[j as int] == s@[i + j]);
                    }
                }
                mismatch = true;
            } else {
                j = j + 1;
            }
        }
        if !mismatch {
            assert(matches_at(s@, pat@, i as int)) by {
                assert(s@.subrange(i as int, i + m) =~= pat@);
            }
            return true;
        }
        i = i + 1;
    }
}

/// The whitespace characters that trimming removes.
pub open spec fn is_ws_char(c: char) -> bool {
    c == ' ' || c == '\n' || c == '\r' || c == '\t'
}

/// `s` with its leading whitespace removed.
pub open spec fn trim_front(s: Seq<char>) -> Seq<char>
    decreases s.len(),
{
    if s.len() > 0 && is_ws_char(s[0]) {
        trim_front(s.drop_first())
    } else {
        s
    }
}

/// `s` with its trailing whitespace removed.
pub open spec fn trim_back(s: Seq<char>) -> Seq<char>
    decreases s.len(),
{
    if s.len() > 0 && is_ws_char(s[s.len() - 1]) {
        trim_back(s.drop_last())
    } else {
        s
    }
}

/// `s` with whitespace removed from both ends.
pub open spec fn trim_seq(s: Seq<char>) -> Seq<char> {
    trim_back(trim_front(s))
}

/// Decides `is_ws_char(c)`.
pub fn is_ws(c: char) -> (r: bool)
    ensures
        r == is_ws_char(c),
{
    c == ' ' || c == '\n' || c == '\r' || c == '\t'
}

/// Returns `s` with whitespace removed from both ends, as a fresh `String`.
pub fn trim_ws(s: &str) -> (r: String)
    ensures
        r@ == trim_seq(s@),
{
    let n: usize = s.unicode_len();
    assert(s@ =~= s@.subrange(0, n as int));
    let mut start: usize = 0;
    while start < n && is_ws(s.get_char(start))
        invariant
            n == s@.len(),
            start <= n,
            trim_front(s@) == trim_front(s@.subrange(start as int, n as int)),
        decreases n - start,
    {
        assert(trim_front(s@.subrange(start as int, n as int))
            == trim_front(s@.subrange(start + 1, n as int))) by {
            let sub = s@.subrange(start as int, n as int);
            assert(sub[0] == s@[start as int]);
            assert(sub.drop_first() =~= s@.subrange(start + 1, n as int));
        }
        start = start + 1;
    }
    assert(trim_front(s@) == s@.subrange(start as int, n as int)) by {
        let sub = s@.subrange(start as int, n as int);
        if start < n {
            assert(sub[0] == s@[start as int]);
        }
    }
    let mut end: usize = n;
    while end > start && is_ws(s.get_char(end - 1))
        invariant
            n == s@.len(),
            start <= end <= n,
            trim_back(s@.subrange(start as int, n as int))
                == trim_back(s@.subrange(start as int, end as int)),
        decreases end,
    {
        assert(trim_back(s@.subrange(start as int, end as int))
            == trim_back(s@.subrange(start as int, end - 1))) by {
            let sub = s@.subrange(start as int, end as int);
            assert(sub[sub.len() - 1] == s@[end - 1]);
            assert(sub.drop_last() =~= s@.subrange(start as int, end - 1));
        }
        end = end - 1;
    }
    assert(trim_back(s@.subrange(start as int, n as int)) == s@.subrange(start as int, end as int)) by {
        let sub = s@.subrange(start as int, end as int);
        if end > start {
            assert(sub[sub.len() - 1] == s@[end - 1]);
        }
    }
    let t: &str = s.substring_char(start, end);
    String::from_str(t)
}

} // verus!
