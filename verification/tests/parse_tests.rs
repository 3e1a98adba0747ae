use refview::derive_ref_view;
use refview::derive_ref_view_mut;
use refview::parse_record;
use refview::DeriveError;
use refview::RecordData;

#[test]
fn parse_and_derive_named_struct() {
    let input = parse_record("struct Foo { x: u64 }").unwrap();
    let out = derive_ref_view(&input).unwrap();
    assert_eq!(
        out,
        "pub struct FooViewer<'a> { pub x: &'a u64, } \
         impl<'a> refview::RefView<'a> for Foo { type Viewer = FooViewer<'a>; \
         fn view(&'a self) -> Self::Viewer where Self::Viewer: 'a { \
         FooViewer { x: &self.x, } } }"
    );
}

#[test]
fn parse_and_derive_mut_tuple_struct() {
    let input = parse_record("struct Pair(u8, i32);").unwrap();
    let out = derive_ref_view_mut(&input).unwrap();
    assert_eq!(
        out,
        "pub struct PairViewerMut<'a> ( pub &'a mut u8, pub &'a mut i32, ); \
         impl<'a> refview::RefViewMut<'a> for Pair { type ViewerMut = PairViewerMut<'a>; \
         fn view_mut(&'a mut self) -> Self::ViewerMut where Self::ViewerMut: 'a { \
         PairViewerMut ( &mut self.0, &mut self.1, ) } }"
    );
}

#[test]
fn parse_unit_struct() {
    let input = parse_record("struct Empty;").unwrap();
    assert!(matches!(
        input.data,
        RecordData::Struct(refview::RecordFields::Unit)
    ));
}

#[test]
fn parse_enum_is_rejected_by_derive() {
    let input = parse_record("enum Choice { A, B }").unwrap();
    assert!(matches!(input.data, RecordData::Enum));
    assert!(matches!(
        derive_ref_view(&input),
        Err(DeriveError::UnsupportedShape)
    ));
}

#[test]
fn parse_union_is_rejected_by_derive() {
    let input = parse_record("union Raw { a: u32, b: f32 }").unwrap();
    assert!(matches!(input.data, RecordData::Union));
    assert!(matches!(
        derive_ref_view_mut(&input),
        Err(DeriveError::UnsupportedShape)
    ));
}

#[test]
fn parse_rejects_non_declarations() {
    assert!(parse_record("fn main() {}").is_none());
    assert!(parse_record("not rust at all").is_none());
}
