use refview::emit::ref_fields;
use refview::emit::struct_fields;
use refview::derive_ref_view;
use refview::derive_ref_view_mut;
use refview::DeriveError;
use refview::NamedField;
use refview::RecordData;
use refview::RecordFields;
use refview::RecordInput;

fn named_input(name: &str, fields: &[(&str, &str)]) -> RecordInput {
    let mut v: Vec<NamedField> = Vec::new();
    for (fname, fty) in fields {
        v.push(NamedField {
            name: fname.to_string(),
            ty: fty.to_string(),
        });
    }
    RecordInput {
        name: name.to_string(),
        data: RecordData::Struct(RecordFields::Named(v)),
    }
}

fn unnamed_input(name: &str, tys: &[&str]) -> RecordInput {
    let v: Vec<String> = tys.iter().map(|t| t.to_string()).collect();
    RecordInput {
        name: name.to_string(),
        data: RecordData::Struct(RecordFields::Unnamed(v)),
    }
}

#[test]
fn derive_named_single_field() {
    let input = named_input("Foo", &[("x", "u64")]);
    let out = derive_ref_view(&input).unwrap();
    assert_eq!(
        out,
        "pub struct FooViewer<'a> { pub x: &'a u64, } \
         impl<'a> refview::RefView<'a> for Foo { type Viewer = FooViewer<'a>; \
         fn view(&'a self) -> Self::Viewer where Self::Viewer: 'a { \
         FooViewer { x: &self.x, } } }"
    );
}

#[test]
fn derive_mut_named_single_field() {
    let input = named_input("Foo", &[("x", "u64")]);
    let out = derive_ref_view_mut(&input).unwrap();
    assert_eq!(
        out,
        "pub struct FooViewerMut<'a> { pub x: &'a mut u64, } \
         impl<'a> refview::RefViewMut<'a> for Foo { type ViewerMut = FooViewerMut<'a>; \
         fn view_mut(&'a mut self) -> Self::ViewerMut where Self::ViewerMut: 'a { \
         FooViewerMut { x: &mut self.x, } } }"
    );
}

#[test]
fn derive_named_several_fields() {
    let input = named_input(
        "DataStruct",
        &[
            ("field0", "f64"),
            ("field1", "u64"),
            ("field2", "isize"),
            ("field3", "Vec<Box<usize>>"),
        ],
    );
    let out = derive_ref_view(&input).unwrap();
    assert!(out.starts_with(
        "pub struct DataStructViewer<'a> { \
         pub field0: &'a f64, pub field1: &'a u64, \
         pub field2: &'a isize, pub field3: &'a Vec<Box<usize>>, }"
    ));
    assert!(out.ends_with(
        "{ DataStructViewer { field0: &self.field0, field1: &self.field1, \
         field2: &self.field2, field3: &self.field3, } } }"
    ));
}

#[test]
fn derive_tuple_record() {
    let input = unnamed_input("Pair", &["u8", "i32"]);
    let out = derive_ref_view(&input).unwrap();
    assert_eq!(
        out,
        "pub struct PairViewer<'a> ( pub &'a u8, pub &'a i32, ); \
         impl<'a> refview::RefView<'a> for Pair { type Viewer = PairViewer<'a>; \
         fn view(&'a self) -> Self::Viewer where Self::Viewer: 'a { \
         PairViewer ( &self.0, &self.1, ) } }"
    );
}

#[test]
fn derive_mut_tuple_record() {
    let input = unnamed_input("Pair", &["u8", "i32"]);
    let out = derive_ref_view_mut(&input).unwrap();
    assert_eq!(
        out,
        "pub struct PairViewerMut<'a> ( pub &'a mut u8, pub &'a mut i32, ); \
         impl<'a> refview::RefViewMut<'a> for Pair { type ViewerMut = PairViewerMut<'a>; \
         fn view_mut(&'a mut self) -> Self::ViewerMut where Self::ViewerMut: 'a { \
         PairViewerMut ( &mut self.0, &mut self.1, ) } }"
    );
}

#[test]
fn derive_unit_record() {
    let input = RecordInput {
        name: "Empty".to_string(),
        data: RecordData::Struct(RecordFields::Unit),
    };
    let out = derive_ref_view(&input).unwrap();
    assert_eq!(
        out,
        "pub struct EmptyViewer<'a>  \
         impl<'a> refview::RefView<'a> for Empty { type Viewer = EmptyViewer<'a>; \
         fn view(&'a self) -> Self::Viewer where Self::Viewer: 'a { \
         EmptyViewer  } }"
    );
}

#[test]
fn derive_named_record_without_fields() {
    let input = named_input("Bare", &[]);
    let out = derive_ref_view(&input).unwrap();
    assert_eq!(
        out,
        "pub struct BareViewer<'a> { } \
         impl<'a> refview::RefView<'a> for Bare { type Viewer = BareViewer<'a>; \
         fn view(&'a self) -> Self::Viewer where Self::Viewer: 'a { \
         BareViewer { } } }"
    );
}

#[test]
fn derive_rejects_enum() {
    let input = RecordInput {
        name: "Choice".to_string(),
        data: RecordData::Enum,
    };
    assert!(matches!(
        derive_ref_view(&input),
        Err(DeriveError::UnsupportedShape)
    ));
    assert!(matches!(
        derive_ref_view_mut(&input),
        Err(DeriveError::UnsupportedShape)
    ));
}

#[test]
fn derive_rejects_union() {
    let input = RecordInput {
        name: "Raw".to_string(),
        data: RecordData::Union,
    };
    assert!(matches!(
        derive_ref_view(&input),
        Err(DeriveError::UnsupportedShape)
    ));
    assert!(matches!(
        derive_ref_view_mut(&input),
        Err(DeriveError::UnsupportedShape)
    ));
}

#[test]
fn field_lists_for_named_record() {
    let input = named_input("Foo", &[("a", "u8"), ("b", "String")]);
    let sf = struct_fields(&input.data, true);
    assert_eq!(sf, "{ pub a: &'a mut u8, pub b: &'a mut String, }");
    let rf = ref_fields(&input.data, true);
    assert_eq!(rf, "{ a: &mut self.a, b: &mut self.b, }");
}

#[test]
fn tuple_indices_beyond_one_digit() {
    let tys: Vec<&str> = vec![
        "u8", "u8", "u8", "u8", "u8", "u8", "u8", "u8", "u8", "u8", "u8", "u8",
    ];
    let input = unnamed_input("Wide", &tys);
    let rf = ref_fields(&input.data, false);
    assert_eq!(
        rf,
        "( &self.0, &self.1, &self.2, &self.3, &self.4, &self.5, \
         &self.6, &self.7, &self.8, &self.9, &self.10, &self.11, )"
    );
}

#[test]
fn demo_functions_run() {
    refview::test_view_struct();
    refview::test_view_mut_struct();
    refview::test_view_tuple();
    refview::test_view_mut_tuple();
}
