//! Traits implemented by a record together with its generated viewer types.

use vstd::prelude::*;

verus! {

/// Read-only view into a record: `view` hands out a companion value whose
/// fields borrow the record's fields.
pub trait RefView<'a> {
    type Viewer;

    fn view(&'a self) -> Self::Viewer where
        Self::Viewer: 'a,
    ;
}

/// Mutable view into a record: `view_mut` hands out a companion value whose
/// fields borrow the record's fields mutably.
pub trait RefViewMut<'a>: RefView<'a> {
    type ViewerMut;

    fn view_mut(&'a mut self) -> Self::ViewerMut where
        Self::ViewerMut: 'a,
    ;
}

} // verus!
