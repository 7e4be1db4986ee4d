//! Sequences of values with views, and moving the elements of a vector out
//! in order.

use vstd::prelude::*;

verus! {

/// The views of the elements of `s`, in order.
pub open spec fn views<T: View>(s: Seq<T>) -> Seq<T::V> {
    Seq::new(s.len(), |i: int| s[i]@)
}

/// Pushing an element pushes its view.
pub proof fn lemma_views_push<T: View>(s: Seq<T>, t: T)
    ensures
        views(s.push(t)) == views(s).push(t@),
{
    assert(views(s.push(t)) =~= views(s).push(t@));
}

/// The views of no elements.
pub proof fn lemma_views_empty<T: View>()
    ensures
        views(Seq::<T>::empty()) == Seq::<T::V>::empty(),
{
    assert(views(Seq::<T>::empty()) =~= Seq::<T::V>::empty());
}

/// The elements of `v` in the opposite order, so that popping from the
/// result walks `v` from its first element to its last.
pub fn reversed<T>(v: Vec<T>) -> (r: Vec<T>)
    ensures
        r@ == v@.reverse(),
{
    let mut rest = v;
    let mut r: Vec<T> = Vec::new();
    while rest.len() > 0
        invariant
            rest@.len() + r@.len() == v@.len(),
            rest@ == v@.take(rest@.len() as int),
            forall|j: int| 0 <= j < r@.len() ==> r@[j] == v@[v@.len() - 1 - j],
        decreases rest@.len(),
    {
        let ghost before = rest@;
        let last = rest.pop();
        match last {
            Some(x) => {
                r.push(x);
            },
            None => {},
        }
        proof {
            assert(rest@ =~= v@.take(rest@.len() as int));
        }
    }
    proof {
        assert(r@ =~= v@.reverse());
    }
    r
}

} // verus!
