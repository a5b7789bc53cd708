//! The read-only-view capability and its wirings for the standard
//! containers.

use vstd::prelude::*;

use crate::traversal::DequeCursor;
use crate::traversal::ItemCursor;
use crate::traversal::SliceCursor;
use crate::traversal::Traversal;

verus! {

/// The read-only-view capability: like the standard conversion into an
/// iterator, but taking only an immutable borrow, so the value is untouched
/// and can be asked for a fresh traversal again and again.
///
/// The lifetime parameter is the lifetime of the borrow; the traversal
/// cannot outlive it.  [`IterView::produces`] says what holds of every
/// traversal that [`IterView::iter`] hands out; for the containers wired in
/// this crate it pins the traversal's elements down exactly, so two
/// traversals of the same unmutated value yield identical sequences.
pub trait IterView<'a> {
    /// The type of the elements a traversal yields.
    type Item;

    /// The concrete traversal type handed out by [`IterView::iter`].
    type Iter: Traversal<Elem = Self::Item>;

    /// Whether the value is ready to produce a traversal.  True for every
    /// container; the function-backed adapter asks that its projection
    /// function's own precondition hold of the anchor.
    spec fn wf(&self) -> bool;

    /// What holds of a traversal handed out by [`IterView::iter`].
    spec fn produces(&self, it: Self::Iter) -> bool;

    /// Produce a fresh traversal over the value's elements from an
    /// immutable borrow.
    fn iter(&'a self) -> (it: Self::Iter)
        requires
            self.wf(),
        ensures
            self.produces(it),
    ;
}

impl<'a, T: 'a> IterView<'a> for Vec<T> {
    type Item = &'a T;

    type Iter = SliceCursor<'a, T>;

    open spec fn wf(&self) -> bool {
        true
    }

    /// The traversal yields a reference to each element, in order.
    open spec fn produces(&self, it: SliceCursor<'a, T>) -> bool {
        it.remaining().unref() == self@
    }

    fn iter(&'a self) -> (it: SliceCursor<'a, T>) {
        SliceCursor::new(self.as_slice())
    }
}

impl<'a, T: 'a, const N: usize> IterView<'a> for [T; N] {
    type Item = &'a T;

    type Iter = SliceCursor<'a, T>;

    open spec fn wf(&self) -> bool {
        true
    }

    /// The traversal yields a reference to each element, in order.
    open spec fn produces(&self, it: SliceCursor<'a, T>) -> bool {
        it.remaining().unref() == self@
    }

    fn iter(&'a self) -> (it: SliceCursor<'a, T>) {
        SliceCursor::new(self.as_slice())
    }
}

impl<'a, T: 'a> IterView<'a> for [T] {
    type Item = &'a T;

    type Iter = SliceCursor<'a, T>;

    open spec fn wf(&self) -> bool {
        true
    }

    /// The traversal yields a reference to each element, in order.
    open spec fn produces(&self, it: SliceCursor<'a, T>) -> bool {
        it.remaining().unref() == self@
    }

    fn iter(&'a self) -> (it: SliceCursor<'a, T>) {
        SliceCursor::new(self)
    }
}

impl<'a, T: 'a> IterView<'a> for Option<T> {
    type Item = &'a T;

    type Iter = ItemCursor<'a, T>;

    open spec fn wf(&self) -> bool {
        true
    }

    /// The traversal yields one reference to the contained value if one is
    /// present, and nothing otherwise.
    open spec fn produces(&self, it: ItemCursor<'a, T>) -> bool {
        match *self {
            Some(v) => it.remaining().unref() == seq![v],
            None => it.remaining() == Seq::<&'a T>::empty(),
        }
    }

    fn iter(&'a self) -> (it: ItemCursor<'a, T>) {
        let it = ItemCursor::new(self.as_ref());
        proof {
            if let Some(v) = self {
                assert(it.remaining().unref() =~= seq![*v]);
            }
        }
        it
    }
}

impl<'a, T: 'a, E: 'a> IterView<'a> for Result<T, E> {
    type Item = &'a T;

    type Iter = ItemCursor<'a, T>;

    open spec fn wf(&self) -> bool {
        true
    }

    /// The traversal yields one reference to the success value if the
    /// container is in the success state, and nothing otherwise, whatever
    /// the failure payload.
    open spec fn produces(&self, it: ItemCursor<'a, T>) -> bool {
        match *self {
            Ok(v) => it.remaining().unref() == seq![v],
            Err(_) => it.remaining() == Seq::<&'a T>::empty(),
        }
    }

    fn iter(&'a self) -> (it: ItemCursor<'a, T>) {
        let item = match self {
            Ok(v) => Some(v),
            Err(_) => None,
        };
        let it = ItemCursor::new(item);
        proof {
            if let Ok(v) = self {
                assert(it.remaining().unref() =~= seq![*v]);
            }
        }
        it
    }
}

impl<'a, T: 'a> IterView<'a> for std::collections::VecDeque<T> {
    type Item = &'a T;

    type Iter = DequeCursor<'a, T>;

    open spec fn wf(&self) -> bool {
        true
    }

    /// The traversal yields a reference to each element, from front to
    /// back.
    open spec fn produces(&self, it: DequeCursor<'a, T>) -> bool {
        it.remaining().unref() == self@
    }

    fn iter(&'a self) -> (it: DequeCursor<'a, T>) {
        DequeCursor::new(self)
    }
}

impl<'a, T: IterView<'a>> IterView<'a> for Box<T> {
    type Item = T::Item;

    type Iter = T::Iter;

    /// Delegates entirely to the boxed value.
    open spec fn wf(&self) -> bool {
        (**self).wf()
    }

    /// The traversal is exactly the boxed value's own traversal.
    open spec fn produces(&self, it: T::Iter) -> bool {
        (**self).produces(it)
    }

    fn iter(&'a self) -> (it: T::Iter) {
        (&**self).iter()
    }
}

impl<'a, T: 'a + IterView<'a> + ?Sized> IterView<'a> for &'a T {
    type Item = T::Item;

    type Iter = T::Iter;

    /// Delegates entirely to the referent.
    open spec fn wf(&self) -> bool {
        (**self).wf()
    }

    /// The traversal is exactly the referent's own traversal.
    open spec fn produces(&self, it: T::Iter) -> bool {
        (**self).produces(it)
    }

    fn iter(&'a self) -> (it: T::Iter) {
        (*self).iter()
    }
}

} // verus!
