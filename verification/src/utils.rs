//! Sequence predicates behind the two static analyses: disjointness of two
//! role sequences and uniqueness of a sequence's elements.

use vstd::prelude::*;
use crate::types::{Label, RoleId};

verus! {

/// No element of `a` occurs in `b`. Defined recursively: the empty sequence
/// is disjoint from anything; a nonempty one is disjoint from `b` when its
/// head is absent from `b` and its tail is disjoint from `b`. Order and
/// multiplicity of either sequence do not matter; see
/// [`lemma_disjoint_characterisation`] and
/// [`crate::laws::lemma_disjoint_symmetric`].
pub open spec fn spec_disjoint<A>(a: Seq<A>, b: Seq<A>) -> bool
    decreases a.len(),
{
    if a.len() == 0 {
        true
    } else {
        !b.contains(a[0]) && spec_disjoint(a.drop_first(), b)
    }
}

/// No two distinct positions of `s` hold equal elements. Defined recursively:
/// the empty sequence is unique; a nonempty one is unique when its head does
/// not occur in its tail and its tail is unique. See
/// [`lemma_unique_characterisation`].
pub open spec fn spec_unique<A>(s: Seq<A>) -> bool
    decreases s.len(),
{
    if s.len() == 0 {
        true
    } else {
        !s.drop_first().contains(s[0]) && spec_unique(s.drop_first())
    }
}

/// The recursive disjointness predicate says exactly that no element of `a`
/// occurs in `b`.
pub proof fn lemma_disjoint_characterisation<A>(a: Seq<A>, b: Seq<A>)
    ensures
        spec_disjoint(a, b) <==> (forall|i: int| 0 <= i < a.len() ==> !b.contains(a[i])),
    decreases a.len(),
{
    if a.len() > 0 {
        lemma_disjoint_characterisation(a.drop_first(), b);
        if forall|i: int| 0 <= i < a.len() ==> !b.contains(a[i]) {
            assert forall|i: int| 0 <= i < a.drop_first().len() implies !b.contains(
                a.drop_first()[i],
            ) by {
                assert(a.drop_first()[i] == a[i + 1]);
            }
        }
        if spec_disjoint(a, b) {
            assert forall|i: int| 0 <= i < a.len() implies !b.contains(a[i]) by {
                if i > 0 {
                    assert(a[i] == a.drop_first()[i - 1]);
                }
            }
        }
    }
}

/// The recursive uniqueness predicate says exactly that no two distinct
/// positions hold equal elements.
pub proof fn lemma_unique_characterisation<A>(s: Seq<A>)
    ensures
        spec_unique(s) <==> (forall|i: int, j: int| 0 <= i < j < s.len() ==> s[i] != s[j]),
    decreases s.len(),
{
    if s.len() > 0 {
        let t = s.drop_first();
        lemma_unique_characterisation(t);
        if spec_unique(s) {
            assert forall|i: int, j: int| 0 <= i < j < s.len() implies s[i] != s[j] by {
                if i == 0 {
                    assert(t.contains(s[j])) by {
                        assert(t[j - 1] == s[j]);
                    }
                } else {
                    assert(t[i - 1] == s[i] && t[j - 1] == s[j]);
                }
            }
        }
        if forall|i: int, j: int| 0 <= i < j < s.len() ==> s[i] != s[j] {
            assert forall|i: int, j: int| 0 <= i < j < t.len() implies t[i] != t[j] by {
                assert(t[i] == s[i + 1] && t[j] == s[j + 1]);
            }
            assert(!t.contains(s[0])) by {
                if t.contains(s[0]) {
                    let k = choose|k: int| 0 <= k < t.len() && t[k] == s[0];
                    assert(s[k + 1] == s[0]);
                }
            }
        }
    }
}

/// Whether `x` occurs among the roles of `v`.
pub fn contains_role_value(v: &Vec<RoleId>, x: RoleId) -> (r: bool)
    ensures
        r == v@.contains(x),
{
    let mut i: usize = 0;
    while i < v.len()
        invariant
            0 <= i <= v@.len(),
            forall|k: int| 0 <= k < i ==> v@[k] != x,
        decreases v@.len() - i,
    {
        if v[i] == x {
            return true;
        }
        i = i + 1;
    }
    false
}

/// The one-directional primitive of the disjointness analysis; the
/// parallel-composition check applies it in both directions.
pub trait Disjoint {
    /// Whether no element of this sequence occurs in `other`.
    fn disjoint(&self, other: &Self) -> bool;
}

/// The uniqueness analysis: no element may occur at two distinct positions.
pub trait UniqueList {
    /// Whether no two distinct positions hold equal elements.
    fn unique_list(&self) -> bool;
}

impl Disjoint for Vec<RoleId> {
    fn disjoint(&self, other: &Self) -> (r: bool)
        ensures
            r == spec_disjoint(self@, other@),
    {
        proof {
            lemma_disjoint_characterisation(self@, other@);
        }
        let mut i: usize = 0;
        while i < self.len()
            invariant
                0 <= i <= self@.len(),
                forall|k: int| 0 <= k < i ==> !other@.contains(self@[k]),
            decreases self@.len() - i,
        {
            if contains_role_value(other, self[i]) {
                proof {
                    lemma_disjoint_characterisation(self@, other@);
                }
                return false;
            }
            i = i + 1;
        }
        true
    }
}

impl UniqueList for Vec<Label> {
    fn unique_list(&self) -> (r: bool)
        ensures
            r == spec_unique(self@),
    {
        proof {
            lemma_unique_characterisation(self@);
        }
        let mut i: usize = 0;
        while i < self.len()
            invariant
                0 <= i <= self@.len(),
                forall|p: int, q: int| 0 <= p < q < self@.len() && p < i ==> self@[p] != self@[q],
            decreases self@.len() - i,
        {
            let mut j: usize = i + 1;
            while j < self.len()
                invariant
                    0 <= i < j <= self@.len(),
                    forall|q: int| i < q < j ==> self@[i as int] != self@[q],
                decreases self@.len() - j,
            {
                if self[i] == self[j] {
                    proof {
                        lemma_unique_characterisation(self@);
                    }
                    return false;
                }
                j = j + 1;
            }
            i = i + 1;
        }
        true
    }
}

impl UniqueList for Vec<RoleId> {
    fn unique_list(&self) -> (r: bool)
        ensures
            r == spec_unique(self@),
    {
        proof {
            lemma_unique_characterisation(self@);
        }
        let mut i: usize = 0;
        while i < self.len()
            invariant
                0 <= i <= self@.len(),
                forall|p: int, q: int| 0 <= p < q < self@.len() && p < i ==> self@[p] != self@[q],
            decreases self@.len() - i,
        {
            let mut j: usize = i + 1;
            while j < self.len()
                invariant
                    0 <= i < j <= self@.len(),
                    forall|q: int| i < q < j ==> self@[i as int] != self@[q],
                decreases self@.len() - j,
            {
                if self[i] == self[j] {
                    proof {
                        lemma_unique_characterisation(self@);
                    }
                    return false;
                }
                j = j + 1;
            }
            i = i + 1;
        }
        true
    }
}

} // verus!
