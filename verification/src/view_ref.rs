//! A second pair of view traits, with the viewer types as associated types
//! named after the direction of the borrow.

use vstd::prelude::*;

verus! {

/// Read-only view into a record.
pub trait ViewRef<'a> {
    type RefView;

    fn view(&'a self) -> Self::RefView where
        Self::RefView: 'a,
    ;
}

/// Mutable view into a record.
pub trait ViewMut<'a>: ViewRef<'a> {
    type MutView;

    fn view_mut(&'a mut self) -> Self::MutView where
        Self::MutView: 'a,
    ;
}

} // verus!
