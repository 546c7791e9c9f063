//! Layouts, and the traits through which a value is borrowed as a view in
//! a given layout.

use vstd::prelude::*;

verus! {

/// A way of laying out the elements of an array in memory.
pub trait Layout {

}

/// The dense layout: every element is stored, addressed by shape, stride
/// and offset.
pub struct Dense;

impl Layout for Dense {

}

/// A value that can be borrowed for reading as a view in layout `L`.
pub trait View<'a, L: Layout> {
    /// The view that is handed out.
    type V;

    /// Whether a view can be taken of this value.
    spec fn viewable(&self) -> bool;

    /// Borrows this value as a view, storing its elements first where they
    /// were only described.
    fn view(&'a mut self) -> (v: Self::V)
        requires
            old(self).viewable(),
    ;
}

/// A value that can be borrowed for writing as a view in layout `L`.
pub trait ViewMut<'a, L: Layout> {
    /// The view that is handed out.
    type VM;

    /// Whether a mutable view can be taken of this value.
    spec fn viewable_mut(&self) -> bool;

    /// Borrows this value as a mutable view of elements that no other value
    /// shares.
    fn view_mut(&'a mut self) -> (vm: Self::VM)
        requires
            old(self).viewable_mut(),
    ;
}

} // verus!
