//! Lowering of a parsed declaration to the plain-value model.
//!
//! syn does the parsing; the trusted wrappers below each make one call into
//! it and hand back plain values or opaque syn values, which the verified
//! code assembles into a [`RecordInput`].

use vstd::prelude::*;
use crate::model::NamedField;
use crate::model::RecordData;
use crate::model::RecordFields;
use crate::model::RecordInput;

verus! {

#[verifier::external_type_specification]
#[verifier::external_body]
pub struct ExDeriveInput(syn::DeriveInput);

#[verifier::external_type_specification]
#[verifier::external_body]
pub struct ExField(syn::Field);

/// The shape of a parsed declaration's body, as far as the generator cares.
pub enum DataShape {
    StructNamed,
    StructUnnamed,
    StructUnit,
    EnumData,
    UnionData,
}

/// Relies on syn::parse_str::<syn::DeriveInput>: parses the source text of
/// one type declaration; `None` when the text is not one.
#[verifier::external_body]
fn parse_derive_input(src: &str) -> Option<syn::DeriveInput> {
    match syn::parse_str::<syn::DeriveInput>(src) {
        Ok(input) => Some(input),
        Err(_) => None,
    }
}

/// Relies on proc_macro2::Ident's Display impl (through ToString): the text
/// of the declaration's name.
#[verifier::external_body]
fn input_name(input: &syn::DeriveInput) -> String {
    input.ident.to_string()
}

/// Tells the variants of syn::Data and syn::Fields apart, one arm each.
#[verifier::external_body]
fn data_shape(input: &syn::DeriveInput) -> DataShape {
    match &input.data {
        syn::Data::Struct(s) => match &s.fields {
            syn::Fields::Named(_) => DataShape::StructNamed,
            syn::Fields::Unnamed(_) => DataShape::StructUnnamed,
            syn::Fields::Unit => DataShape::StructUnit,
        },
        syn::Data::Enum(_) => DataShape::EnumData,
        syn::Data::Union(_) => DataShape::UnionData,
    }
}

/// Relies on syn::Fields::iter: the declaration's fields in declaration
/// order, one for one; no fields when the declaration is not a struct.
#[verifier::external_body]
fn input_fields(input: &syn::DeriveInput) -> Vec<syn::Field> {
    match &input.data {
        syn::Data::Struct(s) => s.fields.iter().cloned().collect(),
        _ => Vec::new(),
    }
}

/// Relies on proc_macro2::Ident's Display impl (through ToString): the text
/// of the field's name; `None` for a positional field.
#[verifier::external_body]
fn field_name(f: &syn::Field) -> Option<String> {
    match &f.ident {
        Some(id) => Some(id.to_string()),
        None => None,
    }
}

/// Relies on quote::ToTokens and proc_macro2::TokenStream's Display impl:
/// the text of the field's type, one token stream rendered as text.
#[verifier::external_body]
fn field_type_text(f: &syn::Field) -> String {
    quote::ToTokens::to_token_stream(&f.ty).to_string()
}

/// Lowers a parsed declaration to the plain-value model the generator reads:
/// its name and, per field, the field's name (if any) and type text.
pub fn lower_input(input: &syn::DeriveInput) -> (r: RecordInput) {
    let name = input_name(input);
    match data_shape(input) {
        DataShape::StructNamed => {
            let fields = input_fields(input);
            let mut v: Vec<NamedField> = Vec::new();
            let n: usize = fields.len();
            let mut i: usize = 0;
            while i < n
                invariant
                    n == fields@.len(),
                    i <= n,
                decreases n - i,
            {
                let fname = match field_name(&fields[i]) {
                    Some(s) => s,
                    None => String::new(),
                };
                let fty = field_type_text(&fields[i]);
                v.push(NamedField { name: fname, ty: fty });
                i += 1;
            }
            RecordInput { name, data: RecordData::Struct(RecordFields::Named(v)) }
        },
        DataShape::StructUnnamed => {
            let fields = input_fields(input);
            let mut v: Vec<String> = Vec::new();
            let n: usize = fields.len();
            let mut i: usize = 0;
            while i < n
                invariant
                    n == fields@.len(),
                    i <= n,
                decreases n - i,
            {
                let fty = field_type_text(&fields[i]);
                v.push(fty);
                i += 1;
            }
            RecordInput { name, data: RecordData::Struct(RecordFields::Unnamed(v)) }
        },
        DataShape::StructUnit => RecordInput { name, data: RecordData::Struct(RecordFields::Unit) },
        DataShape::EnumData => RecordInput { name, data: RecordData::Enum },
        DataShape::UnionData => RecordInput { name, data: RecordData::Union },
    }
}

/// Parses the source text of one type declaration and lowers it to the
/// model; `None` when the text is not a type declaration.
pub fn parse_record(src: &str) -> (r: Option<RecordInput>) {
    match parse_derive_input(src) {
        Some(input) => Some(lower_input(&input)),
        None => None,
    }
}

} // verus!
