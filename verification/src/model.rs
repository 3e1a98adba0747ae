//! A plain-value model of a record declaration: just what the generator
//! reads — the record's name and, for each field, its name (if any) and the
//! text of its type.

use vstd::prelude::*;

verus! {

/// A named field: its identifier and the text of its type.
pub struct NamedField {
    pub name: String,
    pub ty: String,
}

/// The fields of a record declaration.
pub enum RecordFields {
    /// Braced record: each field has a name and a type.
    Named(Vec<NamedField>),
    /// Positional record: each field has only a type.
    Unnamed(Vec<String>),
    /// Record with no fields at all.
    Unit,
}

/// The body of a type declaration the generator may be handed.
pub enum RecordData {
    /// A record: the one supported shape.
    Struct(RecordFields),
    /// A variant type: rejected.
    Enum,
    /// An untagged union: rejected.
    Union,
}

/// A type declaration handed to the generator: its name and its body.
pub struct RecordInput {
    pub name: String,
    pub data: RecordData,
}

/// Why a declaration was rejected.
#[derive(Debug)]
pub enum DeriveError {
    /// Viewers can only be generated for records, not variant types or unions.
    UnsupportedShape,
}

} // verus!
