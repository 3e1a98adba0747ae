//! Generation of reference "viewer" records.
//!
//! A viewer record is a companion type whose fields borrow the fields of a
//! source record. This crate holds the traits such viewers implement
//! ([`RefView`], [`RefViewMut`], [`ViewRef`], [`ViewMut`]), a plain-value
//! model of a record declaration ([`RecordInput`]), and verified functions
//! that synthesize the source text of a viewer record and its trait impl
//! from that model.

pub mod demo;
pub mod emit;
pub mod model;
pub mod parse;
pub mod view_ref;
pub mod view_traits;

pub use view_traits::RefView;
pub use view_traits::RefViewMut;
pub use view_ref::ViewRef;
pub use view_ref::ViewMut;
pub use model::DeriveError;
pub use model::NamedField;
pub use model::RecordFields;
pub use model::RecordData;
pub use model::RecordInput;
pub use parse::lower_input;
pub use parse::parse_record;
pub use emit::derive_ref_view;
pub use emit::derive_ref_view_mut;
pub use demo::DataStruct;
pub use demo::DataTuple;
pub use demo::test_view_struct;
pub use demo::test_view_mut_struct;
pub use demo::test_view_tuple;
pub use demo::test_view_mut_tuple;
