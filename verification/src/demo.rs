//! Hand-expanded examples of the code the generator describes: a record with
//! named fields and one with positional fields, each with its viewer types
//! and `RefView` / `RefViewMut` impls, plus functions exercising them.

use vstd::prelude::*;
use crate::view_traits::RefView;
use crate::view_traits::RefViewMut;

verus! {

/// A sample record with named fields.
pub struct DataStruct {
    pub field0: i64,
    pub field1: u64,
    pub field2: isize,
    pub field3: Vec<Box<usize>>,
}

/// The read-only viewer of [`DataStruct`]: one reference per field.
pub struct DataStructViewer<'a> {
    pub field0: &'a i64,
    pub field1: &'a u64,
    pub field2: &'a isize,
    pub field3: &'a Vec<Box<usize>>,
}

/// The mutable viewer of [`DataStruct`].
pub struct DataStructViewerMut<'a> {
    pub field1: &'a mut u64,
    pub field2: &'a mut isize,
}

impl<'a> RefView<'a> for DataStruct {
    type Viewer = DataStructViewer<'a>;

    fn view(&'a self) -> (r: Self::Viewer) where
        Self::Viewer: 'a,
        ensures
            *r.field0 == self.field0,
            *r.field1 == self.field1,
            *r.field2 == self.field2,
            *r.field3 == self.field3,
    {
        DataStructViewer {
            field0: &self.field0,
            field1: &self.field1,
            field2: &self.field2,
            field3: &self.field3,
        }
    }
}

impl<'a> RefViewMut<'a> for DataStruct {
    type ViewerMut = DataStructViewerMut<'a>;

    fn view_mut(&'a mut self) -> (r: Self::ViewerMut) where
        Self::ViewerMut: 'a,
        ensures
            *r.field1 == old(self).field1,
            *r.field2 == old(self).field2,
            final(self).field0 == old(self).field0,
            final(self).field3 == old(self).field3,
            final(self).field1 == *final(r.field1),
            final(self).field2 == *final(r.field2),
    {
        DataStructViewerMut {
            field1: &mut self.field1,
            field2: &mut self.field2,
        }
    }
}

/// Builds a [`DataStruct`], takes its read-only view, and checks that each
/// viewer field equals the record field it borrows.
pub fn test_view_struct() {
    let data = DataStruct {
        field0: 1,
        field1: 2,
        field2: -5,
        field3: Vec::new(),
    };

    let v = data.view();

    assert(*v.field0 == data.field0);
    assert(*v.field1 == data.field1);
    assert(*v.field2 == data.field2);
    assert(*v.field3 == data.field3);
}

/// Builds a [`DataStruct`], writes through its mutable view, and checks that
/// the writes landed in the record while untouched fields kept their values.
pub fn test_view_mut_struct() {
    let mut data = DataStruct {
        field0: 1,
        field1: 2,
        field2: -5,
        field3: Vec::new(),
    };

    let vm = data.view_mut();
    *vm.field1 = 5;
    *vm.field2 = 5;

    let v = data.view();

    assert(*v.field0 == 1);
    assert(*v.field1 == 5);
    assert(*v.field2 == 5);
    assert(*v.field3 == data.field3);
}

/// A sample record with positional fields.
pub struct DataTuple(pub i64, pub u64, pub isize, pub Vec<Box<usize>>);

/// The read-only viewer of [`DataTuple`]: one reference per field.
pub struct DataTupleViewer<'a>(
    pub &'a i64,
    pub &'a u64,
    pub &'a isize,
    pub &'a Vec<Box<usize>>,
);

/// The mutable viewer of [`DataTuple`].
pub struct DataTupleViewerMut<'a>(pub &'a mut u64, pub &'a mut isize);

impl<'a> RefView<'a> for DataTuple {
    type Viewer = DataTupleViewer<'a>;

    fn view(&'a self) -> (r: Self::Viewer) where
        Self::Viewer: 'a,
        ensures
            *r.0 == self.0,
            *r.1 == self.1,
            *r.2 == self.2,
            *r.3 == self.3,
    {
        DataTupleViewer(&self.0, &self.1, &self.2, &self.3)
    }
}

impl<'a> RefViewMut<'a> for DataTuple {
    type ViewerMut = DataTupleViewerMut<'a>;

    fn view_mut(&'a mut self) -> (r: Self::ViewerMut) where
        Self::ViewerMut: 'a,
        ensures
            *r.0 == old(self).1,
            *r.1 == old(self).2,
            final(self).0 == old(self).0,
            final(self).3 == old(self).3,
            final(self).1 == *final(r.0),
            final(self).2 == *final(r.1),
    {
        DataTupleViewerMut(&mut self.1, &mut self.2)
    }
}

/// Builds a [`DataTuple`], takes its read-only view, and checks that each
/// viewer field equals the record field it borrows.
pub fn test_view_tuple() {
    let data = DataTuple(1, 2, -5, Vec::new());

    let v = data.view();

    assert(*v.0 == data.0);
    assert(*v.1 == data.1);
    assert(*v.2 == data.2);
    assert(*v.3 == data.3);
}

/// Builds a [`DataTuple`], writes through its mutable view, and checks that
/// the writes landed in the record while untouched fields kept their values.
pub fn test_view_mut_tuple() {
    let mut data = DataTuple(1, 2, -5, Vec::new());

    let vm = data.view_mut();
    *vm.0 = 5;
    *vm.1 = 5;

    let v = data.view();

    assert(*v.0 == 1);
    assert(*v.1 == 5);
    assert(*v.2 == 5);
    assert(*v.3 == data.3);
}

} // verus!
