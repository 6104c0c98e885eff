//! Plain text searching and rewriting for the menu labels.
//!
//! The title menu redraws its entries by looking for the entry's name inside
//! the drawn text and by stripping the highlight marker off entries the
//! highlight has left. Both walks over the text live here with exact
//! contracts over the character sequences.

use vstd::prelude::*;
use vstd::string::{StrSliceExecFns, StringExecFns};

verus! {

/// The pattern `p` occurs in `t` starting at position `i`.
pub open spec fn occurs_at(t: Seq<char>, p: Seq<char>, i: int) -> bool {
    0 <= i && i + p.len() <= t.len() && t.subrange(i, i + p.len() as int) == p
}

/// The pattern `p` occurs somewhere in `t`.
pub open spec fn contains_seq(t: Seq<char>, p: Seq<char>) -> bool {
    exists|i: int| occurs_at(t, p, i)
}

/// `t` with every occurrence of `p` replaced by `r`, scanning left to right
/// and never overlapping a replacement: the semantics of replacing a
/// non-empty pattern in a string.
pub open spec fn replaced(t: Seq<char>, p: Seq<char>, r: Seq<char>) -> Seq<char>
    recommends
        p.len() >= 1,
    decreases t.len(),
{
    if t.len() < p.len() || p.len() == 0 {
        t
    } else if t.subrange(0, p.len() as int) == p {
        r + replaced(t.skip(p.len() as int), p, r)
    } else {
        seq![t[0]] + replaced(t.skip(1), p, r)
    }
}

/// Whether `p` occurs in `t` at exactly position `i`.
fn matches_at(t: &str, p: &str, i: usize) -> (b: bool)
    requires
        i + p@.len() <= t@.len() <= usize::MAX,
    ensures
        b == occurs_at(t@, p@, i as int),
{
    let m = p.unicode_len();
    let mut j: usize = 0;
    while j < m
        invariant
            m == p@.len(),
            i + m <= t@.len() <= usize::MAX,
            0 <= j <= m,
            forall|q: int| 0 <= q < j ==> t@[i + q] == p@[q],
        decreases m - j,
    {
        if t.get_char(i + j) != p.get_char(j) {
            proof {
                assert(t@.subrange(i as int, i + m as int)[j as int] != p@[j as int]);
            }
            return false;
        }
        j += 1;
    }
    proof {
        assert(t@.subrange(i as int, i + m as int) =~= p@);
    }
    true
}

/// Whether `p` occurs anywhere in `t`.
pub fn contains_sub(t: &str, p: &str) -> (b: bool)
    ensures
        b == contains_seq(t@, p@),
{
    let n = t.unicode_len();
    let m = p.unicode_len();
    if m > n {
        proof {
            assert(forall|i: int| !occurs_at(t@, p@, i));
        }
        return false;
    }
    if m == 0 {
        proof {
            assert(t@.subrange(0, 0) =~= p@);
            assert(occurs_at(t@, p@, 0));
        }
        return true;
    }
    let mut i: usize = 0;
    while i <= n - m
        invariant
            n == t@.len(),
            m == p@.len(),
            1 <= m <= n,
            0 <= i <= n - m + 1,
            forall|q: int| 0 <= q < i ==> !occurs_at(t@, p@, q),
        decreases n - m + 1 - i,
    {
        if matches_at(t, p, i) {
            return true;
        }
        i += 1;
    }
    proof {
        assert(forall|q: int| !occurs_at(t@, p@, q));
    }
    false
}

/// Replacing at a match: when `p` occurs at the front of what is left of
/// `t`, the rewrite puts `r` there and goes on past the occurrence.
proof fn lemma_replaced_step_match(t: Seq<char>, p: Seq<char>, r: Seq<char>, i: int)
    requires
        p.len() >= 1,
        occurs_at(t, p, i),
    ensures
        replaced(t.skip(i), p, r) == r + replaced(t.skip(i + p.len()), p, r),
{
    let s = t.skip(i);
    assert(s.subrange(0, p.len() as int) =~= t.subrange(i, i + p.len() as int));
    assert(s.skip(p.len() as int) =~= t.skip(i + p.len()));
}

/// Passing a character: when `p` does not occur at the front of what is
/// left of `t`, the rewrite keeps the front character and moves on by one.
proof fn lemma_replaced_step_char(t: Seq<char>, p: Seq<char>, r: Seq<char>, i: int)
    requires
        p.len() >= 1,
        0 <= i < t.len(),
        !occurs_at(t, p, i),
    ensures
        replaced(t.skip(i), p, r) == t.subrange(i, i + 1) + replaced(t.skip(i + 1), p, r),
{
    let s = t.skip(i);
    assert(s.skip(1) =~= t.skip(i + 1));
    assert(t.subrange(i, i + 1) =~= seq![t[i]]);
    if i + p.len() <= t.len() {
        assert(s.subrange(0, p.len() as int) =~= t.subrange(i, i + p.len() as int));
        assert(s.subrange(0, p.len() as int) != p);
        assert(replaced(s, p, r) == seq![s[0]] + replaced(s.skip(1), p, r));
        assert(seq![s[0]] =~= t.subrange(i, i + 1));
    } else {
        assert(s.len() < p.len());
        assert(replaced(s, p, r) == s);
        assert(s.skip(1).len() < p.len());
        assert(replaced(s.skip(1), p, r) == s.skip(1));
        assert(s =~= t.subrange(i, i + 1) + s.skip(1));
    }
}

/// `t` with every occurrence of the non-empty pattern `p` replaced by `r`,
/// scanning left to right over non-overlapping occurrences.
pub fn replace_all(t: &str, p: &str, r: &str) -> (res: String)
    requires
        p@.len() >= 1,
    ensures
        res@ == replaced(t@, p@, r@),
{
    let n = t.unicode_len();
    let m = p.unicode_len();
    let mut res = String::new();
    let mut i: usize = 0;
    proof {
        assert(t@.skip(0) =~= t@);
        assert(Seq::<char>::empty() + replaced(t@, p@, r@) =~= replaced(t@, p@, r@));
    }
    while i < n
        invariant
            n == t@.len(),
            m == p@.len(),
            m >= 1,
            0 <= i <= n,
            replaced(t@, p@, r@) == res@ + replaced(t@.skip(i as int), p@, r@),
        decreases n - i,
    {
        if m <= n - i && matches_at(t, p, i) {
            proof {
                lemma_replaced_step_match(t@, p@, r@, i as int);
            }
            res.append(r);
            i += m;
        } else {
            proof {
                lemma_replaced_step_char(t@, p@, r@, i as int);
            }
            let ghost pre = res@;
            res.append(t.substring_char(i, i + 1));
            proof {
                assert(pre + t@.subrange(i as int, i + 1) + replaced(t@.skip(i + 1), p@, r@)
                    =~= pre + (t@.subrange(i as int, i + 1) + replaced(t@.skip(i + 1), p@, r@)));
            }
            i += 1;
        }
    }
    proof {
        assert(t@.skip(n as int) =~= Seq::<char>::empty());
        assert(replaced(t@.skip(n as int), p@, r@) == Seq::<char>::empty());
        assert(res@ + Seq::<char>::empty() =~= res@);
    }
    res
}

} // verus!
