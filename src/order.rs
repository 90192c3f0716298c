use vstd::prelude::*;

use crate::text::{reversed, text_cmp};

verus! {

/// Rows that a list screen can order by a column of type `C`.
pub trait Ranked<C>: Sized {
    /// How `self` compares with `other` under column `col`.
    spec fn spec_cmp(&self, other: &Self, col: C) -> core::cmp::Ordering;

    fn compare(&self, other: &Self, col: &C) -> (r: core::cmp::Ordering)
        ensures
            r == self.spec_cmp(other, *col);

    /// Swapping the rows swaps the outcome.
    proof fn lemma_cmp_antisymmetric(a: &Self, b: &Self, col: C)
        ensures
            a.spec_cmp(b, col) == reversed(b.spec_cmp(a, col));

    /// Ordering by the comparison is transitive.
    proof fn lemma_cmp_transitive(a: &Self, b: &Self, c: &Self, col: C)
        ensures
            a.spec_cmp(b, col) != core::cmp::Ordering::Greater && b.spec_cmp(c, col) != core::cmp::Ordering::Greater
                ==> a.spec_cmp(c, col) != core::cmp::Ordering::Greater;
}

pub proof fn lemma_text_cmp_antisymmetric(a: Seq<char>, b: Seq<char>)
    ensures
        text_cmp(a, b) == reversed(text_cmp(b, a)),
    decreases a.len(),
{
    if a.len() > 0 && b.len() > 0 && (a[0] as u32) == (b[0] as u32) {
        lemma_text_cmp_antisymmetric(a.drop_first(), b.drop_first());
    }
}

pub proof fn lemma_text_cmp_transitive(a: Seq<char>, b: Seq<char>, c: Seq<char>)
    ensures
        text_cmp(a, b) != core::cmp::Ordering::Greater && text_cmp(b, c) != core::cmp::Ordering::Greater
            ==> text_cmp(a, c) != core::cmp::Ordering::Greater,
    decreases a.len(),
{
    if a.len() > 0 && b.len() > 0 && c.len() > 0 && (a[0] as u32) == (b[0] as u32) && (b[0] as u32) == (c[0] as u32) {
        lemma_text_cmp_transitive(a.drop_first(), b.drop_first(), c.drop_first());
    }
}

/// What ordering three texts needs, in both directions.
pub proof fn lemma_text_order(x: Seq<char>, y: Seq<char>, z: Seq<char>)
    ensures
        text_cmp(x, y) == reversed(text_cmp(y, x)),
        text_cmp(y, z) == reversed(text_cmp(z, y)),
        text_cmp(x, z) == reversed(text_cmp(z, x)),
        text_cmp(x, y) != core::cmp::Ordering::Greater && text_cmp(y, z) != core::cmp::Ordering::Greater
            ==> text_cmp(x, z) != core::cmp::Ordering::Greater,
        text_cmp(z, y) != core::cmp::Ordering::Greater && text_cmp(y, x) != core::cmp::Ordering::Greater
            ==> text_cmp(z, x) != core::cmp::Ordering::Greater,
{
    lemma_text_cmp_antisymmetric(x, y);
    lemma_text_cmp_antisymmetric(y, z);
    lemma_text_cmp_antisymmetric(x, z);
    lemma_text_cmp_transitive(x, y, z);
    lemma_text_cmp_transitive(z, y, x);
}

/// No row is ordered after a row that follows it.
pub open spec fn sorted_by<C, T: Ranked<C>>(s: Seq<T>, col: C) -> bool {
    forall|i: int, j: int| #![trigger s[i], s[j]]
        0 <= i < j < s.len() ==> s[i].spec_cmp(&s[j], col) != core::cmp::Ordering::Greater
}

/// `r` is `s` rearranged by `p` (row `i` of `r` is row `p[i]` of `s`), and rows that
/// compare equal keep their order.
pub open spec fn stable_permutation<C, T: Ranked<C>>(r: Seq<T>, s: Seq<T>, p: Seq<int>, col: C) -> bool {
    &&& p.len() == s.len()
    &&& r.len() == s.len()
    &&& forall|i: int| 0 <= i < p.len() ==> 0 <= #[trigger] p[i] < s.len()
    &&& forall|i: int, j: int| 0 <= i < j < p.len() ==> #[trigger] p[i] != #[trigger] p[j]
    &&& forall|i: int| 0 <= i < r.len() ==> #[trigger] r[i] == s[p[i]]
    &&& forall|i: int, j: int| #![trigger r[i], r[j]]
        0 <= i < j < r.len() && r[i].spec_cmp(&r[j], col) == core::cmp::Ordering::Equal ==> p[i] < p[j]
}

/// `r` holds the rows of `s`, ordered by the comparison, rows that compare equal in
/// their order in `s`.
pub open spec fn sorted_from<C, T: Ranked<C>>(r: Seq<T>, s: Seq<T>, col: C) -> bool {
    &&& r.to_multiset() == s.to_multiset()
    &&& sorted_by(r, col)
    &&& exists|p: Seq<int>| stable_permutation(r, s, p, col)
}

/// Relies on std's `slice::sort_by`: a stable sort (documented so) that permutes the
/// rows so that they are ordered by the comparison, which `Ranked` requires to be a
/// total order.
#[verifier::external_body]
pub fn sort_ranked<C, T: Ranked<C>>(v: &mut Vec<T>, col: &C)
    ensures
        sorted_from(final(v)@, old(v)@, *col),
{
    v.sort_by(|a, b| a.compare(b, col))
}

/// When the first two of three texts compare equal, the first compares with the third
/// as the second does.
pub proof fn lemma_text_equal(a: Seq<char>, b: Seq<char>, c: Seq<char>)
    ensures
        text_cmp(a, b) == core::cmp::Ordering::Equal ==> text_cmp(a, c) == text_cmp(b, c),
        text_cmp(b, c) == core::cmp::Ordering::Equal ==> text_cmp(a, c) == text_cmp(a, b),
    decreases a.len(),
{
    if a.len() > 0 && b.len() > 0 && c.len() > 0 {
        lemma_text_equal(a.drop_first(), b.drop_first(), c.drop_first());
    }
}

} // verus!
