//! Finding and counting one text in another.

use vstd::prelude::*;
use crate::text::chars_of;

verus! {

/// `p` stands in `s` at position `i`.
pub open spec fn occurs_at(s: Seq<char>, p: Seq<char>, i: int) -> bool {
    0 <= i && i + p.len() <= s.len() && s.subrange(i, i + p.len()) =~= p
}

/// `s` begins with `p`.
pub open spec fn starts_with(s: Seq<char>, p: Seq<char>) -> bool {
    occurs_at(s, p, 0)
}

/// `s` ends with `p`.
pub open spec fn ends_with(s: Seq<char>, p: Seq<char>) -> bool {
    occurs_at(s, p, s.len() - p.len())
}

/// The first position at or after `from` where `p` stands in `s`.
pub open spec fn find_from(s: Seq<char>, p: Seq<char>, from: int) -> Option<int>
    decreases s.len() - from,
{
    if from < 0 || from + p.len() > s.len() {
        None
    } else if occurs_at(s, p, from) {
        Some(from)
    } else {
        find_from(s, p, from + 1)
    }
}

/// The first position where `p` stands in `s`.
pub open spec fn find(s: Seq<char>, p: Seq<char>) -> Option<int> {
    find_from(s, p, 0)
}

/// `p` stands somewhere in `s`.
pub open spec fn contains(s: Seq<char>, p: Seq<char>) -> bool {
    find(s, p) is Some
}

/// `find_from` returns the least position of an occurrence, and `None`
/// exactly when there is none.
pub proof fn lemma_find_from(s: Seq<char>, p: Seq<char>, from: int)
    requires
        0 <= from,
    ensures
        match find_from(s, p, from) {
            Some(i) => from <= i && occurs_at(s, p, i) && forall|j: int|
                from <= j < i ==> !occurs_at(s, p, j),
            None => forall|j: int| from <= j ==> !occurs_at(s, p, j),
        },
    decreases s.len() - from,
{
    if from + p.len() > s.len() {
    } else if occurs_at(s, p, from) {
    } else {
        lemma_find_from(s, p, from + 1);
    }
}

/// A position is the first occurrence at or after `from` exactly when
/// `find_from` returns it.
pub proof fn lemma_find_from_unique(s: Seq<char>, p: Seq<char>, from: int, i: int)
    requires
        0 <= from <= i,
        occurs_at(s, p, i),
        forall|j: int| from <= j < i ==> !occurs_at(s, p, j),
    ensures
        find_from(s, p, from) == Some(i),
{
    lemma_find_from(s, p, from);
}

pub proof fn lemma_find_from_none(s: Seq<char>, p: Seq<char>, from: int)
    requires
        0 <= from,
        forall|j: int| from <= j ==> !occurs_at(s, p, j),
    ensures
        find_from(s, p, from) is None,
{
    lemma_find_from(s, p, from);
}

/// Whether `p` stands in `v` at position `at`.
pub fn matches_at(v: &Vec<char>, p: &Vec<char>, at: usize) -> (b: bool)
    ensures
        b == occurs_at(v@, p@, at as int),
{
    if p.len() > v.len() || at > v.len() - p.len() {
        return false;
    }
    let mut k: usize = 0;
    while k < p.len()
        invariant
            k <= p.len(),
            at + p.len() <= v.len(),
            forall|j: int| 0 <= j < k ==> v@[at + j] == p@[j],
        decreases p.len() - k,
    {
        if v[at + k] != p[k] {
            proof {
                assert(v@.subrange(at as int, at + p.len())[k as int] == v@[at + k]);
            }
            return false;
        }
        k += 1;
    }
    proof {
        assert(v@.subrange(at as int, at + p.len()) =~= p@);
    }
    true
}

/// The first position at or after `from` where `p` stands in `v`.
pub fn find_in(v: &Vec<char>, p: &Vec<char>, from: usize) -> (r: Option<usize>)
    ensures
        match r {
            Some(i) => find_from(v@, p@, from as int) == Some(i as int) && from <= i && i + p.len()
                <= v.len(),
            None => find_from(v@, p@, from as int) is None,
        },
{
    if p.len() > v.len() {
        proof {
            lemma_find_from_none(v@, p@, from as int);
        }
        return None;
    }
    let last: usize = v.len() - p.len();
    let mut i: usize = from;
    while i <= last
        invariant
            from <= i,
            last == v.len() - p.len(),
            p.len() <= v.len(),
            forall|j: int| from <= j < i ==> !occurs_at(v@, p@, j),
        decreases last + 1 - i,
    {
        if matches_at(v, p, i) {
            proof {
                lemma_find_from_unique(v@, p@, from as int, i as int);
            }
            return Some(i);
        }
        if i == last {
            proof {
                lemma_find_from_none(v@, p@, from as int);
            }
            return None;
        }
        i += 1;
    }
    proof {
        lemma_find_from_none(v@, p@, from as int);
    }
    None
}

/// The number of occurrences of `p` in `s` from `from` on, counted from the
/// left without overlap.
pub open spec fn count_from(s: Seq<char>, p: Seq<char>, from: int) -> nat
    decreases s.len() + 1 - from,
{
    match find_from(s, p, from) {
        Some(i) => if from <= i && i + p.len() <= s.len() {
            1 + count_from(
                s,
                p,
                i + if p.len() == 0 {
                    1
                } else {
                    p.len() as int
                },
            )
        } else {
            0
        },
        None => 0,
    }
}

/// The number of occurrences of `p` in `s`, counted from the left without
/// overlap.
pub open spec fn count_matches(s: Seq<char>, p: Seq<char>) -> nat {
    count_from(s, p, 0)
}

/// Occurrences do not overlap: together they are no longer than the text.
pub proof fn lemma_count_weight(s: Seq<char>, p: Seq<char>, from: int)
    requires
        0 <= from,
        p.len() > 0,
    ensures
        count_from(s, p, from) * p.len() <= if from <= s.len() {
            s.len() - from
        } else {
            0
        },
    decreases s.len() + 1 - from,
{
    lemma_find_from(s, p, from);
    match find_from(s, p, from) {
        Some(i) => {
            lemma_count_weight(s, p, i + p.len());
            let rest = count_from(s, p, i + p.len());
            assert((1 + rest) * p.len() == p.len() + rest * p.len()) by (nonlinear_arith);
        },
        None => {
            assert(0 * p.len() == 0) by (nonlinear_arith);
        },
    }
}

/// The number of occurrences of `p` in `v`. (An empty `p` occurs once more
/// than `v` has characters; should that not fit, the greatest number is
/// returned.)
pub fn count_in(v: &Vec<char>, p: &Vec<char>) -> (n: usize)
    ensures
        n == count_matches(v@, p@) || (p@.len() == 0 && v@.len() == usize::MAX && n
            == usize::MAX),
{
    let mut n: usize = 0;
    let mut from: usize = 0;
    loop
        invariant
            from <= v.len(),
            n <= from,
            n + count_from(v@, p@, from as int) == count_matches(v@, p@),
        decreases v.len() + 1 - from,
    {
        match find_in(v, p, from) {
            Some(i) => {
                let step: usize = if p.len() == 0 {
                    1
                } else {
                    p.len()
                };
                proof {
                    lemma_find_from(v@, p@, from as int);
                }
                if i >= v.len() {
                    proof {
                        assert(find_from(v@, p@, i + step) is None);
                        assert(count_from(v@, p@, i + step) == 0);
                    }
                    if n == usize::MAX {
                        return n;
                    }
                    return n + 1;
                }
                n += 1;
                from = i + step;
            },
            None => {
                return n;
            },
        }
    }
}

/// Whether `p` stands somewhere in `v`.
pub fn contains_in(v: &Vec<char>, p: &Vec<char>) -> (b: bool)
    ensures
        b == contains(v@, p@),
{
    find_in(v, p, 0).is_some()
}

/// Whether `s` contains the text `p`.
pub fn str_contains(s: &str, p: &str) -> (b: bool)
    ensures
        b == contains(s@, p@),
{
    let v = chars_of(s);
    let q = chars_of(p);
    contains_in(&v, &q)
}

/// `s` without `p` at its end, as often as `p` stands there.
pub open spec fn without_suffix(s: Seq<char>, p: Seq<char>) -> Seq<char>
    decreases s.len(),
{
    if p.len() > 0 && ends_with(s, p) {
        without_suffix(s.take(s.len() - p.len()), p)
    } else {
        s
    }
}

/// How much of `v` is left when `p` is taken from its end as often as it
/// stands there.
pub fn suffix_stripped_len(v: &Vec<char>, p: &Vec<char>) -> (n: usize)
    ensures
        n <= v.len(),
        v@.take(n as int) == without_suffix(v@, p@),
{
    let mut n: usize = v.len();
    proof {
        assert(v@.take(n as int) =~= v@);
    }
    if p.len() == 0 {
        return n;
    }
    while n >= p.len() && matches_at(v, p, n - p.len())
        invariant
            n <= v.len(),
            p.len() > 0,
            without_suffix(v@, p@) == without_suffix(v@.take(n as int), p@),
        decreases n,
    {
        proof {
            let t = v@.take(n as int);
            assert(t.subrange(t.len() - p@.len(), t.len() as int) =~= v@.subrange(
                n - p@.len(),
                n as int,
            ));
            assert(t.take(t.len() - p@.len()) =~= v@.take(n - p@.len()));
        }
        n -= p.len();
    }
    proof {
        let t = v@.take(n as int);
        if n >= p.len() {
            assert(t.subrange(t.len() - p@.len(), t.len() as int) =~= v@.subrange(
                n - p@.len(),
                n as int,
            ));
        }
        assert(without_suffix(t, p@) == t);
    }
    n
}

} // verus!
