//! The traversal contract and the concrete cursor types.

use vstd::prelude::*;

verus! {

/// A transient, read-only cursor over a sequence of elements.
///
/// A traversal is created fresh by a capability (see `IterView`), consumed
/// by repeated [`Traversal::next`] calls, and discarded.  Its whole
/// behaviour is captured by [`Traversal::remaining`]: each `next` call
/// yields the head of `remaining` and drops it, until `remaining` is empty,
/// after which `next` reports completion by returning `None`.
pub trait Traversal: Sized {
    /// The type of the elements the traversal yields.
    type Elem;

    /// The elements this traversal has yet to yield, in yield order.
    spec fn remaining(&self) -> Seq<Self::Elem>;

    /// Yield the next element, or `None` once the traversal is complete.
    fn next(&mut self) -> (r: Option<Self::Elem>)
        ensures
            match r {
                Some(e) => {
                    &&& old(self).remaining().len() > 0
                    &&& e == old(self).remaining()[0]
                    &&& final(self).remaining() == old(self).remaining().drop_first()
                },
                None => {
                    &&& old(self).remaining().len() == 0
                    &&& final(self).remaining() == old(self).remaining()
                },
            },
    ;
}

/// A cursor over a borrowed slice, yielding a reference to each element in
/// order.
pub struct SliceCursor<'a, T> {
    s: &'a [T],
    pos: usize,
}

impl<'a, T> SliceCursor<'a, T> {
    /// Build a cursor positioned at the first element of `s`.
    pub fn new(s: &'a [T]) -> (c: Self)
        ensures
            c.remaining().unref() == s@,
    {
        let c = SliceCursor { s, pos: 0 };
        proof {
            assert(c.remaining().unref() =~= s@);
        }
        c
    }
}

/// A cursor over an owned vector of elements, yielding them in order.
///
/// The hash-based containers expose no positional access, so their wirings
/// collect the element references up front and hand out this cursor over
/// the collected vector.
pub struct VecCursor<E> {
    items: Vec<E>,
}

impl<E> VecCursor<E> {
    /// Build a cursor positioned at the first element of `items`.
    pub fn new(items: Vec<E>) -> (c: Self)
        ensures
            c.remaining() == items@,
    {
        VecCursor { items }
    }
}

impl<E> Traversal for VecCursor<E> {
    type Elem = E;

    closed spec fn remaining(&self) -> Seq<E> {
        self.items@
    }

    fn next(&mut self) -> (r: Option<E>) {
        if self.items.len() > 0 {
            let e = self.items.remove(0);
            proof {
                assert(self.remaining() =~= old(self).remaining().drop_first());
            }
            Some(e)
        } else {
            None
        }
    }
}

/// A cursor over a borrowed double-ended queue, yielding a reference to
/// each element from front to back.
pub struct DequeCursor<'a, T> {
    q: &'a std::collections::VecDeque<T>,
    pos: usize,
}

impl<'a, T> DequeCursor<'a, T> {
    /// Build a cursor positioned at the front element of `q`.
    pub fn new(q: &'a std::collections::VecDeque<T>) -> (c: Self)
        ensures
            c.remaining().unref() == q@,
    {
        let c = DequeCursor { q, pos: 0 };
        proof {
            assert(c.remaining().unref() =~= q@);
        }
        c
    }
}

impl<'a, T> Traversal for DequeCursor<'a, T> {
    type Elem = &'a T;

    closed spec fn remaining(&self) -> Seq<&'a T> {
        if self.pos <= self.q@.len() {
            Seq::new((self.q@.len() - self.pos) as nat, |i: int| &self.q@[self.pos + i])
        } else {
            Seq::empty()
        }
    }

    fn next(&mut self) -> (r: Option<&'a T>) {
        if self.pos < self.q.len() {
            let e = &self.q[self.pos];
            self.pos = self.pos + 1;
            proof {
                assert(self.remaining() =~= old(self).remaining().drop_first());
            }
            Some(e)
        } else {
            None
        }
    }
}

/// The integers of the half-open range from `start` up to, excluding,
/// `end`, in increasing order; empty when `end <= start`.
pub open spec fn range_elems(start: usize, end: usize) -> Seq<usize> {
    if start <= end {
        Seq::new((end - start) as nat, |i: int| (start + i) as usize)
    } else {
        Seq::empty()
    }
}

/// A cursor over the integers of a half-open range, yielding them by value:
/// a ready-made traversal for the function-backed adapter, which has no
/// container to borrow elements from.
pub struct RangeCursor {
    cur: usize,
    end: usize,
}

impl RangeCursor {
    /// Build a cursor that yields the integers from `start` up to,
    /// excluding, `end`.
    pub fn new(start: usize, end: usize) -> (c: Self)
        ensures
            c.remaining() == range_elems(start, end),
    {
        RangeCursor { cur: start, end }
    }
}

impl Traversal for RangeCursor {
    type Elem = usize;

    closed spec fn remaining(&self) -> Seq<usize> {
        range_elems(self.cur, self.end)
    }

    fn next(&mut self) -> (r: Option<usize>) {
        if self.cur < self.end {
            let e = self.cur;
            self.cur = self.cur + 1;
            proof {
                assert(self.remaining() =~= old(self).remaining().drop_first());
            }
            Some(e)
        } else {
            None
        }
    }
}

/// A cursor over at most one borrowed value: the natural traversal of the
/// optional-value and success/failure containers.
pub struct ItemCursor<'a, T> {
    item: Option<&'a T>,
}

impl<'a, T> ItemCursor<'a, T> {
    /// Build a cursor that yields the referenced value if one is present,
    /// and nothing otherwise.
    pub fn new(item: Option<&'a T>) -> (c: Self)
        ensures
            match item {
                Some(v) => c.remaining() == seq![v],
                None => c.remaining() == Seq::<&'a T>::empty(),
            },
    {
        ItemCursor { item }
    }
}

impl<'a, T> Traversal for ItemCursor<'a, T> {
    type Elem = &'a T;

    closed spec fn remaining(&self) -> Seq<&'a T> {
        match self.item {
            Some(v) => seq![v],
            None => Seq::empty(),
        }
    }

    fn next(&mut self) -> (r: Option<&'a T>) {
        let r = self.item;
        self.item = None;
        proof {
            if r is Some {
                assert(self.remaining() =~= old(self).remaining().drop_first());
            }
        }
        r
    }
}

impl<'a, T> Traversal for SliceCursor<'a, T> {
    type Elem = &'a T;

    closed spec fn remaining(&self) -> Seq<&'a T> {
        if self.pos <= self.s@.len() {
            Seq::new((self.s@.len() - self.pos) as nat, |i: int| &self.s@[self.pos + i])
        } else {
            Seq::empty()
        }
    }

    fn next(&mut self) -> (r: Option<&'a T>) {
        if self.pos < self.s.len() {
            let e = &self.s[self.pos];
            self.pos = self.pos + 1;
            proof {
                assert(self.remaining() =~= old(self).remaining().drop_first());
            }
            Some(e)
        } else {
            None
        }
    }
}

} // verus!
