//! A read-only-view capability for container-like values.
//!
//! The standard way to turn a value into an iterator consumes the value,
//! which is unusable for a caller that only holds an immutable borrow and
//! needs to traverse the value repeatedly.  This crate defines [`IterView`],
//! a capability that produces a fresh traversal from an immutable borrow,
//! wires it to the standard containers, and offers a function-backed
//! adapter ([`FuncIterView`], built by [`iter`]) for ad hoc traversals.
//!
//! Every traversal is a [`Traversal`]: a cursor whose contract pins down,
//! element for element, the sequence it yields before reporting completion.

mod func;
mod hash;
mod laws;
mod traversal;
mod view;

pub use func::iter;
pub use func::lemma_func_iter_view_produces;
pub use func::lemma_func_iter_view_wf;
pub use func::FuncIterView;
pub use hash::map_entries;
pub use hash::set_members;
pub use laws::lemma_array_traversal;
pub use laws::lemma_box_delegates;
pub use laws::lemma_hash_map_traversal;
pub use laws::lemma_option_traversal;
pub use laws::lemma_ref_delegates;
pub use laws::lemma_result_traversal;
pub use laws::lemma_slice_traversal;
pub use laws::lemma_vec_traversal;
pub use traversal::range_elems;
pub use traversal::DequeCursor;
pub use traversal::ItemCursor;
pub use traversal::RangeCursor;
pub use traversal::SliceCursor;
pub use traversal::Traversal;
pub use traversal::VecCursor;
pub use view::IterView;
