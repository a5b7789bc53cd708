//! The laws the capability obeys, stated over the contracts of the wirings
//! and proved once and for all.

use std::collections::HashMap;
use vstd::prelude::*;

use crate::traversal::ItemCursor;
use crate::traversal::SliceCursor;
use crate::traversal::Traversal;
use crate::traversal::VecCursor;
use crate::view::IterView;

verus! {

/// A traversal of a populated dynamic array yields a reference to each
/// element, in original order, and two traversals of the same unmutated
/// array yield identical value sequences.
pub proof fn lemma_vec_traversal<'a, T>(
    v: &'a Vec<T>,
    it1: SliceCursor<'a, T>,
    it2: SliceCursor<'a, T>,
)
    requires
        v.produces(it1),
        v.produces(it2),
    ensures
        it1.remaining().unref() == v@,
        it1.remaining().unref() == it2.remaining().unref(),
{
}

/// A traversal of a fixed-size array yields a reference to each element,
/// in original order, and two traversals of the same unmutated array yield
/// identical value sequences.
pub proof fn lemma_array_traversal<'a, T, const N: usize>(
    a: &'a [T; N],
    it1: SliceCursor<'a, T>,
    it2: SliceCursor<'a, T>,
)
    requires
        a.produces(it1),
        a.produces(it2),
    ensures
        it1.remaining().unref() == a@,
        it1.remaining().unref() == it2.remaining().unref(),
{
}

/// A traversal of a slice view yields a reference to each element, in
/// original order, and two traversals of the same unmutated slice yield
/// identical value sequences.
pub proof fn lemma_slice_traversal<'a, T>(
    s: &'a [T],
    it1: SliceCursor<'a, T>,
    it2: SliceCursor<'a, T>,
)
    requires
        s.produces(it1),
        s.produces(it2),
    ensures
        it1.remaining().unref() == s@,
        it1.remaining().unref() == it2.remaining().unref(),
{
}

/// A traversal of an optional-value container holding `v` yields exactly
/// one element referencing `v`; a traversal of an absent one yields zero
/// elements.
pub proof fn lemma_option_traversal<'a, T>(o: &'a Option<T>, it: ItemCursor<'a, T>)
    requires
        o.produces(it),
    ensures
        match *o {
            Some(v) => it.remaining().len() == 1 && it.remaining().unref() == seq![v],
            None => it.remaining().len() == 0,
        },
{
    assert(it.remaining().unref().len() == it.remaining().len());
}

/// A traversal of a success/failure container in the success state holding
/// `v` yields exactly one element referencing `v`; in the failure state it
/// yields zero elements, whatever the failure payload.
pub proof fn lemma_result_traversal<'a, T, E>(r: &'a Result<T, E>, it: ItemCursor<'a, T>)
    requires
        r.produces(it),
    ensures
        match *r {
            Ok(v) => it.remaining().len() == 1 && it.remaining().unref() == seq![v],
            Err(_) => it.remaining().len() == 0,
        },
{
    assert(it.remaining().unref().len() == it.remaining().len());
}

/// A traversal of a hash map yields exactly one pair for each entry, each
/// pairing a key reference with its corresponding value reference and
/// covering every key, and two traversals of the same unmutated map yield
/// identical pair sequences.
pub proof fn lemma_hash_map_traversal<'a, K: Eq + std::hash::Hash, V>(
    m: &'a HashMap<K, V>,
    it1: VecCursor<(&'a K, &'a V)>,
    it2: VecCursor<(&'a K, &'a V)>,
)
    requires
        m.produces(it1),
        m.produces(it2),
    ensures
        it1.remaining().len() == m@.dom().len(),
        it1.remaining().no_duplicates(),
        forall|i: int|
            0 <= i < it1.remaining().len() ==> #[trigger] m@.contains_key(*it1.remaining()[i].0)
                && *it1.remaining()[i].1 == m@[*it1.remaining()[i].0],
        forall|k: K| #[trigger] m@.contains_key(k) ==> it1.remaining().contains((&k, &m@[k])),
        it1.remaining().unref() == it2.remaining().unref(),
{
}

/// A traversal of a boxed indirection wrapping a capability-satisfying
/// value is a traversal the inner value itself produces, so its output is
/// identical, element for element, to traversing the unwrapped value.
pub proof fn lemma_box_delegates<'a, T: IterView<'a>>(b: &'a Box<T>, it: T::Iter)
    ensures
        b.produces(it) <==> (**b).produces(it),
        b.wf() <==> (**b).wf(),
{
}

/// A traversal of a borrowed reference to a capability-satisfying value is
/// a traversal the referent itself produces: the wiring is transparent.
pub proof fn lemma_ref_delegates<'a, T: 'a + IterView<'a> + ?Sized>(r: &'a &'a T, it: T::Iter)
    ensures
        r.produces(it) <==> (**r).produces(it),
        r.wf() <==> (**r).wf(),
{
}

} // verus!
