//! Wirings of the hash-based containers.
//!
//! A hash map or hash set exposes no positional access, so these wirings
//! walk the container's own iterator once, inside the capability, and hand
//! out a [`VecCursor`] over the collected element references.  Traversal
//! order is unspecified, but it is a function of the container value alone,
//! so two traversals of the same unmutated container yield the same
//! sequence.

use std::collections::HashMap;
use std::collections::HashSet;
use vstd::prelude::*;
use vstd::std_specs::hash::builds_valid_hashers;
use vstd::std_specs::hash::into_iter;
use vstd::std_specs::hash::into_iter_hash_keys;
use vstd::std_specs::hash::obeys_key_model;
use vstd::std_specs::hash::spec_hash_keys_iter;
use vstd::std_specs::hash::spec_hash_map_iter;
use vstd::std_specs::iter::IteratorSpec;

use crate::traversal::Traversal;
use crate::traversal::VecCursor;
use crate::view::IterView;

verus! {

broadcast use vstd::std_specs::hash::group_hash_axioms;

/// The entries of the hash map, in the order its traversal yields them:
/// unspecified, but a function of the map value alone.
pub open spec fn map_entries<K, V>(m: &HashMap<K, V>) -> Seq<(K, V)> {
    into_iter(spec_hash_map_iter(m))
}

/// The members of the hash set, in the order its traversal yields them:
/// unspecified, but a function of the set value alone.
pub open spec fn set_members<K>(s: &HashSet<K>) -> Seq<K> {
    into_iter_hash_keys(spec_hash_keys_iter(s))
}

impl<'a, K: 'a + Eq + std::hash::Hash, V: 'a> IterView<'a> for HashMap<K, V> {
    type Item = (&'a K, &'a V);

    type Iter = VecCursor<(&'a K, &'a V)>;

    /// Verified reasoning about a hash map asks that the key type obey the
    /// hash-table key model and that the hasher be valid; the primitive
    /// integer key types obey the model, and the default hasher is valid.
    open spec fn wf(&self) -> bool {
        &&& obeys_key_model::<K>()
        &&& builds_valid_hashers::<std::collections::hash_map::RandomState>()
    }

    /// The traversal yields each entry of the map exactly once, as a pair
    /// of a key reference and the corresponding value reference, in the
    /// map's fixed traversal order.
    open spec fn produces(&self, it: VecCursor<(&'a K, &'a V)>) -> bool {
        let v = it.remaining();
        &&& v.unref() == map_entries(self)
        &&& v.len() == self@.dom().len()
        &&& v.no_duplicates()
        &&& forall|i: int|
            0 <= i < v.len() ==> #[trigger] self@.contains_key(*v[i].0) && *v[i].1
                == self@[*v[i].0]
        &&& forall|k: K| #[trigger] self@.contains_key(k) ==> v.contains((&k, &self@[k]))
    }

    fn iter(&'a self) -> (it: VecCursor<(&'a K, &'a V)>) {
        let entries = HashMap::iter(self);
        let mut pairs: Vec<(&'a K, &'a V)> = Vec::new();
        for p in walker: entries
            invariant
                pairs@ == walker.history(),
        {
            pairs.push(p);
        }
        proof {
            let v = pairs@;
            assert(v.unref() =~= map_entries(self));
            assert(v.len() == self@.dom().len());
            assert(v.no_duplicates());
            assert(forall|i: int|
                0 <= i < v.len() ==> #[trigger] self@.contains_key(*v[i].0) && *v[i].1
                    == self@[*v[i].0]);
            assert forall|k: K| #[trigger] self@.contains_key(k) implies v.contains(
                (&k, &self@[k]),
            ) by {
                let r = spec_hash_map_iter(self).remaining();
                assert(r.contains((&k, &self@[k])));
                let i = choose|i: int| 0 <= i < r.len() && r[i] == (&k, &self@[k]);
                assert(v[i] == r[i]);
            }
        }
        VecCursor::new(pairs)
    }
}

impl<'a, K: 'a + Eq + std::hash::Hash> IterView<'a> for HashSet<K> {
    type Item = &'a K;

    type Iter = VecCursor<&'a K>;

    /// Verified reasoning about a hash set asks that the member type obey
    /// the hash-table key model and that the hasher be valid.
    open spec fn wf(&self) -> bool {
        &&& obeys_key_model::<K>()
        &&& builds_valid_hashers::<std::collections::hash_map::RandomState>()
    }

    /// The traversal yields a reference to each member of the set exactly
    /// once, in the set's fixed traversal order.
    open spec fn produces(&self, it: VecCursor<&'a K>) -> bool {
        let v = it.remaining();
        &&& v.unref() == set_members(self)
        &&& v.len() == self@.len()
        &&& v.no_duplicates()
        &&& v.unref().to_set() == self@
    }

    fn iter(&'a self) -> (it: VecCursor<&'a K>) {
        let members = HashSet::iter(self);
        let mut elems: Vec<&'a K> = Vec::new();
        for k in walker: members
            invariant
                elems@ == walker.history(),
        {
            elems.push(k);
        }
        proof {
            assert(elems@.unref() =~= set_members(self));
        }
        VecCursor::new(elems)
    }
}

} // verus!
