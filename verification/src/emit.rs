//! Synthesis of viewer source text from a [`RecordInput`].
//!
//! For a record `R`, the generator emits a viewer record `RViewer<'a>` (or
//! `RViewerMut<'a>`) with one reference field per field of `R`, together with
//! the `RefView` (or `RefViewMut`) impl whose method populates the viewer
//! from a borrow of `R`. The spec functions below pin the emitted text down
//! to the character.

use vstd::prelude::*;
use vstd::string::StringExecFns;
use crate::model::DeriveError;
use crate::model::NamedField;
use crate::model::RecordData;
use crate::model::RecordFields;
use crate::model::RecordInput;

verus! {

/// The decimal digit `d` as a character, for `d < 10`.
pub open spec fn dec_digit(d: nat) -> char {
    if d == 0 {
        '0'
    } else if d == 1 {
        '1'
    } else if d == 2 {
        '2'
    } else if d == 3 {
        '3'
    } else if d == 4 {
        '4'
    } else if d == 5 {
        '5'
    } else if d == 6 {
        '6'
    } else if d == 7 {
        '7'
    } else if d == 8 {
        '8'
    } else {
        '9'
    }
}

/// The decimal rendering of `n`, without a sign and without leading zeros
/// (except for `n == 0` itself).
pub open spec fn dec_str(n: nat) -> Seq<char>
    decreases n,
{
    if n < 10 {
        seq![dec_digit(n)]
    } else {
        dec_str(n / 10) + seq![dec_digit(n % 10)]
    }
}

/// The text `mut ` when the viewer borrows mutably, nothing otherwise.
pub open spec fn mut_text(mutable: bool) -> Seq<char> {
    if mutable {
        "mut "@
    } else {
        Seq::<char>::empty()
    }
}

/// The reference type a viewer field gets: `&'a TY` or `&'a mut TY`.
pub open spec fn ref_ty_text(ty: Seq<char>, mutable: bool) -> Seq<char> {
    "&'a "@ + mut_text(mutable) + ty
}

/// One named field of the viewer declaration: `pub NAME: &'a [mut ]TY, `.
pub open spec fn named_field_decl_text(f: NamedField, mutable: bool) -> Seq<char> {
    "pub "@ + f.name@ + ": "@ + ref_ty_text(f.ty@, mutable) + ", "@
}

/// All named fields of the viewer declaration, in declaration order.
pub open spec fn named_fields_decl_text(fs: Seq<NamedField>, mutable: bool) -> Seq<char>
    decreases fs.len(),
{
    if fs.len() == 0 {
        Seq::<char>::empty()
    } else {
        named_fields_decl_text(fs.drop_last(), mutable) + named_field_decl_text(fs.last(), mutable)
    }
}

/// One positional field of the viewer declaration: `pub &'a [mut ]TY, `.
pub open spec fn unnamed_field_decl_text(ty: Seq<char>, mutable: bool) -> Seq<char> {
    "pub "@ + ref_ty_text(ty, mutable) + ", "@
}

/// All positional fields of the viewer declaration, in declaration order.
pub open spec fn unnamed_fields_decl_text(tys: Seq<String>, mutable: bool) -> Seq<char>
    decreases tys.len(),
{
    if tys.len() == 0 {
        Seq::<char>::empty()
    } else {
        unnamed_fields_decl_text(tys.drop_last(), mutable) + unnamed_field_decl_text(
            tys.last()@,
            mutable,
        )
    }
}

/// One named field of the viewer constructor: `NAME: &[mut ]self.NAME, `.
pub open spec fn named_field_ref_text(f: NamedField, mutable: bool) -> Seq<char> {
    f.name@ + ": &"@ + mut_text(mutable) + "self."@ + f.name@ + ", "@
}

/// All named fields of the viewer constructor, in declaration order.
pub open spec fn named_fields_ref_text(fs: Seq<NamedField>, mutable: bool) -> Seq<char>
    decreases fs.len(),
{
    if fs.len() == 0 {
        Seq::<char>::empty()
    } else {
        named_fields_ref_text(fs.drop_last(), mutable) + named_field_ref_text(fs.last(), mutable)
    }
}

/// One positional field of the viewer constructor: `&[mut ]self.I, `.
pub open spec fn unnamed_field_ref_text(i: nat, mutable: bool) -> Seq<char> {
    "&"@ + mut_text(mutable) + "self."@ + dec_str(i) + ", "@
}

/// The first `n` positional fields of the viewer constructor.
pub open spec fn unnamed_fields_ref_text(n: nat, mutable: bool) -> Seq<char>
    decreases n,
{
    if n == 0 {
        Seq::<char>::empty()
    } else {
        unnamed_fields_ref_text((n - 1) as nat, mutable) + unnamed_field_ref_text(
            (n - 1) as nat,
            mutable,
        )
    }
}

/// The field list of the viewer declaration: braced for named fields,
/// parenthesized (with the closing `;`) for positional ones, empty for a
/// record without fields.
pub open spec fn struct_fields_text(data: RecordData, mutable: bool) -> Seq<char> {
    match data {
        RecordData::Struct(fields) => match fields {
            RecordFields::Named(v) => "{ "@ + named_fields_decl_text(v@, mutable) + "}"@,
            RecordFields::Unnamed(v) => "( "@ + unnamed_fields_decl_text(v@, mutable) + ");"@,
            RecordFields::Unit => Seq::<char>::empty(),
        },
        RecordData::Enum => Seq::<char>::empty(),
        RecordData::Union => Seq::<char>::empty(),
    }
}

/// The field list of the viewer constructor.
pub open spec fn ref_fields_text(data: RecordData, mutable: bool) -> Seq<char> {
    match data {
        RecordData::Struct(fields) => match fields {
            RecordFields::Named(v) => "{ "@ + named_fields_ref_text(v@, mutable) + "}"@,
            RecordFields::Unnamed(v) => "( "@ + unnamed_fields_ref_text(v@.len(), mutable) + ")"@,
            RecordFields::Unit => Seq::<char>::empty(),
        },
        RecordData::Enum => Seq::<char>::empty(),
        RecordData::Union => Seq::<char>::empty(),
    }
}

/// The name of the generated viewer record: `NAMEViewer` or `NAMEViewerMut`.
pub open spec fn viewer_name_text(name: Seq<char>, mutable: bool) -> Seq<char> {
    if mutable {
        name + "ViewerMut"@
    } else {
        name + "Viewer"@
    }
}

/// The whole expansion for the read-only viewer of a record declaration.
pub open spec fn ref_view_expansion(input: RecordInput) -> Seq<char> {
    "pub struct "@ + viewer_name_text(input.name@, false) + "<'a> "@ + struct_fields_text(
        input.data,
        false,
    ) + " impl<'a> refview::RefView<'a> for "@ + input.name@ + " { type Viewer = "@
        + viewer_name_text(input.name@, false)
        + "<'a>; fn view(&'a self) -> Self::Viewer where Self::Viewer: 'a { "@ + viewer_name_text(
        input.name@,
        false,
    ) + " "@ + ref_fields_text(input.data, false) + " } }"@
}

/// The whole expansion for the mutable viewer of a record declaration.
pub open spec fn ref_view_mut_expansion(input: RecordInput) -> Seq<char> {
    "pub struct "@ + viewer_name_text(input.name@, true) + "<'a> "@ + struct_fields_text(
        input.data,
        true,
    ) + " impl<'a> refview::RefViewMut<'a> for "@ + input.name@ + " { type ViewerMut = "@
        + viewer_name_text(input.name@, true)
        + "<'a>; fn view_mut(&'a mut self) -> Self::ViewerMut where Self::ViewerMut: 'a { "@
        + viewer_name_text(input.name@, true) + " "@ + ref_fields_text(input.data, true) + " } }"@
}

/// The decimal digit `d < 10` as a one-character string slice.
fn digit_str(d: usize) -> (s: &'static str)
    requires
        d < 10,
    ensures
        s@ == seq![dec_digit(d as nat)],
{
    let s: &'static str = match d {
        0 => "0",
        1 => "1",
        2 => "2",
        3 => "3",
        4 => "4",
        5 => "5",
        6 => "6",
        7 => "7",
        8 => "8",
        _ => "9",
    };
    proof {
        reveal_strlit("0");
        reveal_strlit("1");
        reveal_strlit("2");
        reveal_strlit("3");
        reveal_strlit("4");
        reveal_strlit("5");
        reveal_strlit("6");
        reveal_strlit("7");
        reveal_strlit("8");
        reveal_strlit("9");
        assert(s@ =~= seq![dec_digit(d as nat)]);
    }
    s
}

/// Appends the decimal rendering of `n` to `out`.
fn append_dec(out: &mut String, n: usize)
    ensures
        final(out)@ == old(out)@ + dec_str(n as nat),
    decreases n,
{
    if n >= 10 {
        append_dec(out, n / 10);
    }
    let d: &'static str = digit_str(n % 10);
    out.append(d);
    proof {
        assert(final(out)@ =~= old(out)@ + dec_str(n as nat));
    }
}

/// Appends `&'a TY` or `&'a mut TY` to `out`.
fn append_ref_ty(out: &mut String, ty: &String, mutable: bool)
    ensures
        final(out)@ == old(out)@ + ref_ty_text(ty@, mutable),
{
    if mutable {
        out.append("&'a mut ");
        proof {
            reveal_strlit("&'a mut ");
            reveal_strlit("&'a ");
            reveal_strlit("mut ");
            assert("&'a mut "@ =~= "&'a "@ + "mut "@);
        }
    } else {
        out.append("&'a ");
    }
    out.append(ty.as_str());
    proof {
        assert(final(out)@ =~= old(out)@ + ref_ty_text(ty@, mutable));
    }
}

/// Emits the viewer declaration's field list for named fields.
fn named_struct_fields(v: &Vec<NamedField>, mutable: bool) -> (r: String)
    ensures
        r@ == "{ "@ + named_fields_decl_text(v@, mutable) + "}"@,
{
    let mut out = String::new();
    out.append("{ ");
    proof {
        assert(out@ =~= "{ "@ + named_fields_decl_text(v@.take(0), mutable));
    }
    let n: usize = v.len();
    let mut i: usize = 0;
    while i < n
        invariant
            i <= n,
            n == v@.len(),
            out@ == "{ "@ + named_fields_decl_text(v@.take(i as int), mutable),
        decreases n - i,
    {
        out.append("pub ");
        out.append(v[i].name.as_str());
        out.append(": ");
        append_ref_ty(&mut out, &v[i].ty, mutable);
        out.append(", ");
        proof {
            assert(v@.take(i + 1).drop_last() =~= v@.take(i as int));
            assert(v@.take(i + 1).last() == v@[i as int]);
            assert(out@ =~= "{ "@ + named_fields_decl_text(v@.take(i + 1), mutable));
        }
        i += 1;
    }
    proof {
        assert(v@.take(n as int) =~= v@);
    }
    out.append("}");
    out
}

/// Emits the viewer declaration's field list for positional fields.
fn unnamed_struct_fields(v: &Vec<String>, mutable: bool) -> (r: String)
    ensures
        r@ == "( "@ + unnamed_fields_decl_text(v@, mutable) + ");"@,
{
    let mut out = String::new();
    out.append("( ");
    proof {
        assert(out@ =~= "( "@ + unnamed_fields_decl_text(v@.take(0), mutable));
    }
    let n: usize = v.len();
    let mut i: usize = 0;
    while i < n
        invariant
            i <= n,
            n == v@.len(),
            out@ == "( "@ + unnamed_fields_decl_text(v@.take(i as int), mutable),
        decreases n - i,
    {
        out.append("pub ");
        append_ref_ty(&mut out, &v[i], mutable);
        out.append(", ");
        proof {
            assert(v@.take(i + 1).drop_last() =~= v@.take(i as int));
            assert(v@.take(i + 1).last() == v@[i as int]);
            assert(out@ =~= "( "@ + unnamed_fields_decl_text(v@.take(i + 1), mutable));
        }
        i += 1;
    }
    proof {
        assert(v@.take(n as int) =~= v@);
    }
    out.append(");");
    out
}

/// Emits the viewer constructor's field list for named fields.
fn named_ref_fields(v: &Vec<NamedField>, mutable: bool) -> (r: String)
    ensures
        r@ == "{ "@ + named_fields_ref_text(v@, mutable) + "}"@,
{
    let mut out = String::new();
    out.append("{ ");
    proof {
        assert(out@ =~= "{ "@ + named_fields_ref_text(v@.take(0), mutable));
    }
    let n: usize = v.len();
    let mut i: usize = 0;
    while i < n
        invariant
            i <= n,
            n == v@.len(),
            out@ == "{ "@ + named_fields_ref_text(v@.take(i as int), mutable),
        decreases n - i,
    {
        out.append(v[i].name.as_str());
        out.append(": &");
        if mutable {
            out.append("mut ");
        }
        out.append("self.");
        out.append(v[i].name.as_str());
        out.append(", ");
        proof {
            assert(v@.take(i + 1).drop_last() =~= v@.take(i as int));
            assert(v@.take(i + 1).last() == v@[i as int]);
            assert(out@ =~= "{ "@ + named_fields_ref_text(v@.take(i + 1), mutable));
        }
        i += 1;
    }
    proof {
        assert(v@.take(n as int) =~= v@);
    }
    out.append("}");
    out
}

/// Emits the viewer constructor's field list for positional fields.
fn unnamed_ref_fields(n_fields: usize, mutable: bool) -> (r: String)
    ensures
        r@ == "( "@ + unnamed_fields_ref_text(n_fields as nat, mutable) + ")"@,
{
    let mut out = String::new();
    out.append("( ");
    proof {
        assert(out@ =~= "( "@ + unnamed_fields_ref_text(0, mutable));
    }
    let mut i: usize = 0;
    while i < n_fields
        invariant
            i <= n_fields,
            out@ == "( "@ + unnamed_fields_ref_text(i as nat, mutable),
        decreases n_fields - i,
    {
        out.append("&");
        if mutable {
            out.append("mut ");
        }
        out.append("self.");
        append_dec(&mut out, i);
        out.append(", ");
        proof {
            assert(out@ =~= "( "@ + unnamed_fields_ref_text((i + 1) as nat, mutable));
        }
        i += 1;
    }
    out.append(")");
    out
}

/// Emits the field list of the viewer record declaration for a record
/// declaration's body: one `pub` reference field per field of the record.
pub fn struct_fields(data: &RecordData, mutable: bool) -> (r: String)
    requires
        data is Struct,
    ensures
        r@ == struct_fields_text(*data, mutable),
{
    match data {
        RecordData::Struct(fields) => match fields {
            RecordFields::Named(v) => named_struct_fields(v, mutable),
            RecordFields::Unnamed(v) => unnamed_struct_fields(v, mutable),
            RecordFields::Unit => String::new(),
        },
        RecordData::Enum => {
            assert(false);
            String::new()
        },
        RecordData::Union => {
            assert(false);
            String::new()
        },
    }
}

/// Emits the field list of the viewer constructor for a record declaration's
/// body: one borrow of the corresponding record field per field.
pub fn ref_fields(data: &RecordData, mutable: bool) -> (r: String)
    requires
        data is Struct,
    ensures
        r@ == ref_fields_text(*data, mutable),
{
    match data {
        RecordData::Struct(fields) => match fields {
            RecordFields::Named(v) => named_ref_fields(v, mutable),
            RecordFields::Unnamed(v) => unnamed_ref_fields(v.len(), mutable),
            RecordFields::Unit => String::new(),
        },
        RecordData::Enum => {
            assert(false);
            String::new()
        },
        RecordData::Union => {
            assert(false);
            String::new()
        },
    }
}

/// The name of the generated viewer record.
fn viewer_name(name: &String, mutable: bool) -> (r: String)
    ensures
        r@ == viewer_name_text(name@, mutable),
{
    let mut r = name.clone();
    if mutable {
        r.append("ViewerMut");
    } else {
        r.append("Viewer");
    }
    r
}

/// Generates the read-only viewer for a declaration: the viewer record and
/// the `RefView` impl wiring it up. Rejects variant types and unions.
pub fn derive_ref_view(input: &RecordInput) -> (r: Result<String, DeriveError>)
    ensures
        match r {
            Ok(s) => input.data is Struct && s@ == ref_view_expansion(*input),
            Err(e) => !(input.data is Struct) && e is UnsupportedShape,
        },
{
    match &input.data {
        RecordData::Struct(_) => {
            let vname = viewer_name(&input.name, false);
            let sf = struct_fields(&input.data, false);
            let rf = ref_fields(&input.data, false);
            let mut out = String::new();
            out.append("pub struct ");
            out.append(vname.as_str());
            out.append("<'a> ");
            out.append(sf.as_str());
            out.append(" impl<'a> refview::RefView<'a> for ");
            out.append(input.name.as_str());
            out.append(" { type Viewer = ");
            out.append(vname.as_str());
            out.append("<'a>; fn view(&'a self) -> Self::Viewer where Self::Viewer: 'a { ");
            out.append(vname.as_str());
            out.append(" ");
            out.append(rf.as_str());
            out.append(" } }");
            proof {
                assert(out@ =~= ref_view_expansion(*input));
            }
            Ok(out)
        },
        RecordData::Enum => Err(DeriveError::UnsupportedShape),
        RecordData::Union => Err(DeriveError::UnsupportedShape),
    }
}

/// Generates the mutable viewer for a declaration: the viewer record and the
/// `RefViewMut` impl wiring it up. Rejects variant types and unions.
pub fn derive_ref_view_mut(input: &RecordInput) -> (r: Result<String, DeriveError>)
    ensures
        match r {
            Ok(s) => input.data is Struct && s@ == ref_view_mut_expansion(*input),
            Err(e) => !(input.data is Struct) && e is UnsupportedShape,
        },
{
    match &input.data {
        RecordData::Struct(_) => {
            let vname = viewer_name(&input.name, true);
            let sf = struct_fields(&input.data, true);
            let rf = ref_fields(&input.data, true);
            let mut out = String::new();
            out.append("pub struct ");
            out.append(vname.as_str());
            out.append("<'a> ");
            out.append(sf.as_str());
            out.append(" impl<'a> refview::RefViewMut<'a> for ");
            out.append(input.name.as_str());
            out.append(" { type ViewerMut = ");
            out.append(vname.as_str());
            out.append(
                "<'a>; fn view_mut(&'a mut self) -> Self::ViewerMut where Self::ViewerMut: 'a { ",
            );
            out.append(vname.as_str());
            out.append(" ");
            out.append(rf.as_str());
            out.append(" } }");
            proof {
                assert(out@ =~= ref_view_mut_expansion(*input));
            }
            Ok(out)
        },
        RecordData::Enum => Err(DeriveError::UnsupportedShape),
        RecordData::Union => Err(DeriveError::UnsupportedShape),
    }
}

} // verus!
