//! Merging of independent "expect exactly this value" constraints.

use vstd::prelude::*;
use vstd::laws_eq::obeys_concrete_eq;
use vstd::std_specs::cmp::PartialEqSpec;

verus! {

/// A marker for a request that expects a specific value.
#[derive(Debug)]
pub enum Exactly<Id> {
    /// No constraint.
    Empty,
    /// Expect a specific value.
    Exactly(Id),
    /// Two conflicting constraints (or more) have been put on the value.
    Conflict,
}

impl<T> Exactly<T> {
    /// The merge of two constraints, where `same` says whether two pinned
    /// values count as equal. `same` is only consulted when both sides pin a
    /// value.
    pub open spec fn combine_when(self, other: Self, same: bool) -> Self {
        match (self, other) {
            (Exactly::Conflict, _) => Exactly::Conflict,
            (_, Exactly::Conflict) => Exactly::Conflict,
            (Exactly::Empty, x) => x,
            (x, Exactly::Empty) => x,
            (Exactly::Exactly(_), Exactly::Exactly(y)) => if same {
                Exactly::Exactly(y)
            } else {
                Exactly::Conflict
            },
        }
    }

    /// The merge of two constraints under mathematical equality of the
    /// pinned values.
    pub open spec fn combine(self, other: Self) -> Self {
        self.combine_when(other, self == other)
    }
}

impl<T: PartialEq> Exactly<T> {
    /// What `eq_spec` of `T` answers for the values pinned by the two
    /// constraints; `true` when one of them pins none.
    pub open spec fn agrees(self, other: Self) -> bool {
        match (self, other) {
            (Exactly::Exactly(x), Exactly::Exactly(y)) => x.eq_spec(&y),
            _ => true,
        }
    }

    /// Combine two constraints.
    ///
    /// Whatever `==` of `T` does, the result is the merge under one of its
    /// two possible answers; where `==` of `T` answers as `eq_spec` says,
    /// under that answer; and where it is mathematical equality, the result
    /// is the merge as such.
    pub fn and(self, other: Self) -> (r: Self)
        ensures
            r == self.combine_when(other, true) || r == self.combine_when(other, false),
            T::obeys_eq_spec() ==> r == self.combine_when(other, self.agrees(other)),
            obeys_concrete_eq::<T>() ==> r == self.combine(other),
    {
        proof {
            reveal(obeys_concrete_eq);
        }
        match (self, other) {
            (Exactly::Conflict, _) => Exactly::Conflict,
            (_, Exactly::Conflict) => Exactly::Conflict,
            (Exactly::Empty, x) => x,
            (x, Exactly::Empty) => x,
            (Exactly::Exactly(x), Exactly::Exactly(y)) => if x == y {
                Exactly::Exactly(y)
            } else {
                Exactly::Conflict
            },
        }
    }
}

impl<T: Clone> Clone for Exactly<T> {
    fn clone(&self) -> (r: Self)
        ensures
            match *self {
                Exactly::Empty => r is Empty,
                Exactly::Exactly(x) => r matches Exactly::Exactly(y) && cloned(x, y),
                Exactly::Conflict => r is Conflict,
            },
    {
        match self {
            Exactly::Empty => Exactly::Empty,
            Exactly::Exactly(x) => Exactly::Exactly(x.clone()),
            Exactly::Conflict => Exactly::Conflict,
        }
    }
}

impl<T> Default for Exactly<T> {
    fn default() -> (r: Self)
        ensures
            r == Exactly::<T>::Empty,
    {
        Exactly::Empty
    }
}

/// The merge of a whole sequence of constraints, taken from left to right
/// starting from no constraint.
pub open spec fn combine_all<T>(constraints: Seq<Exactly<T>>) -> Exactly<T>
    decreases constraints.len(),
{
    if constraints.len() == 0 {
        Exactly::Empty
    } else {
        combine_all(constraints.drop_last()).combine(constraints.last())
    }
}

/// Merging does not depend on the order of its two arguments.
pub proof fn lemma_combine_commutative<T>(a: Exactly<T>, b: Exactly<T>)
    ensures
        a.combine(b) == b.combine(a),
{
}

/// Merging three constraints gives the same result however they are grouped.
pub proof fn lemma_combine_associative<T>(a: Exactly<T>, b: Exactly<T>, c: Exactly<T>)
    ensures
        a.combine(b).combine(c) == a.combine(b.combine(c)),
{
}

/// The empty constraint is neutral on both sides.
pub proof fn lemma_combine_empty<T>(x: Exactly<T>)
    ensures
        Exactly::<T>::Empty.combine(x) == x,
        x.combine(Exactly::<T>::Empty) == x,
{
}

/// Asking twice for the same value asks for that value.
pub proof fn lemma_combine_same<T>(a: T)
    ensures
        Exactly::Exactly(a).combine(Exactly::Exactly(a)) == Exactly::Exactly(a),
{
}

/// Asking for two different values is a conflict.
pub proof fn lemma_combine_different<T>(a: T, b: T)
    requires
        a != b,
    ensures
        Exactly::Exactly(a).combine(Exactly::Exactly(b)) == Exactly::<T>::Conflict,
{
}

/// A conflict absorbs whatever it is merged with.
pub proof fn lemma_combine_conflict<T>(x: Exactly<T>)
    ensures
        Exactly::<T>::Conflict.combine(x) == Exactly::<T>::Conflict,
        x.combine(Exactly::<T>::Conflict) == Exactly::<T>::Conflict,
{
}

/// Once the merge of a sequence is a conflict, it stays one whatever
/// constraints follow.
pub proof fn lemma_conflict_persists<T>(before: Seq<Exactly<T>>, after: Seq<Exactly<T>>)
    requires
        combine_all(before) is Conflict,
    ensures
        combine_all(before + after) is Conflict,
    decreases after.len(),
{
    if after.len() == 0 {
        assert(before + after =~= before);
    } else {
        lemma_conflict_persists(before, after.drop_last());
        assert((before + after).drop_last() =~= before + after.drop_last());
        assert((before + after).last() == after.last());
    }
}

/// A sequence that holds a conflict anywhere merges to a conflict.
pub proof fn lemma_conflict_anywhere<T>(constraints: Seq<Exactly<T>>, i: int)
    requires
        0 <= i < constraints.len(),
        constraints[i] is Conflict,
    ensures
        combine_all(constraints) is Conflict,
{
    let before = constraints.subrange(0, i + 1);
    let after = constraints.subrange(i + 1, constraints.len() as int);
    assert(before.last() == constraints[i]);
    assert(combine_all(before) is Conflict);
    lemma_conflict_persists(before, after);
    assert(before + after =~= constraints);
}

} // verus!
