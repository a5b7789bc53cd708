//! The function-backed adapter: the capability built out of an arbitrary
//! projection function.

use core::marker::PhantomData;
use vstd::prelude::*;

use crate::traversal::Traversal;
use crate::view::IterView;

verus! {

/// A value satisfying the capability built out of an anchor value and a
/// projection function mapping a borrow of the anchor to a traversal, for
/// cases with no natural container (such as deriving a numeric range from a
/// borrowed bound).  Build it with [`iter`].
///
/// The wrapper holds only the anchor reference, the projection function and
/// two phantom markers that pin the element and traversal types down at the
/// type level.
pub struct FuncIterView<'a, T, O, F, I> {
    f: F,
    o: &'a O,
    t: PhantomData<T>,
    i: PhantomData<I>,
}

impl<'a, T, O, F, I> FuncIterView<'a, T, O, F, I> {
    /// The anchor that the projection function is applied to.
    pub closed spec fn anchor(self) -> &'a O {
        self.o
    }

    /// The projection function.
    pub closed spec fn func(self) -> F {
        self.f
    }
}

/// Build the function-backed adapter out of an anchor value and a
/// projection function; see [`FuncIterView`].
pub fn iter<'a, T, O, F, I>(o: &'a O, f: F) -> (r: FuncIterView<'a, T, O, F, I>)
    ensures
        r.anchor() == o,
        r.func() == f,
{
    FuncIterView { f, o, t: PhantomData, i: PhantomData }
}

impl<'a, T, O, F, I> IterView<'a> for FuncIterView<'a, T, O, F, I> where
    F: Fn(&'a O) -> I,
    I: Traversal<Elem = T>,
 {
    type Item = T;

    type Iter = I;

    /// The projection function's own precondition must hold of the anchor.
    open spec fn wf(&self) -> bool {
        call_requires(self.func(), (self.anchor(),))
    }

    /// The traversal is whatever the projection function's own
    /// postcondition admits on the anchor.
    open spec fn produces(&self, it: I) -> bool {
        call_ensures(self.func(), (self.anchor(),), it)
    }

    fn iter(&'a self) -> (it: I) {
        (self.f)(self.o)
    }
}

/// What the adapter's readiness means: the projection function's own
/// precondition holds of the anchor.
pub broadcast proof fn lemma_func_iter_view_wf<'a, T, O, F: Fn(&'a O) -> I, I: Traversal<
    Elem = T,
>>(fv: FuncIterView<'a, T, O, F, I>)
    ensures
        #[trigger] fv.wf() <==> call_requires(fv.func(), (fv.anchor(),)),
{
}

/// What the adapter's traversals are: exactly what the projection
/// function's own postcondition admits on the anchor.
pub broadcast proof fn lemma_func_iter_view_produces<'a, T, O, F: Fn(&'a O) -> I, I: Traversal<
    Elem = T,
>>(fv: FuncIterView<'a, T, O, F, I>, it: I)
    ensures
        #[trigger] fv.produces(it) <==> call_ensures(fv.func(), (fv.anchor(),), it),
{
}

} // verus!
