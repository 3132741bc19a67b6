use proc_macro2::TokenStream;
use try_v2::derive::{impl_derive, impl_derive_is_defined, try_parse_is_defined};
use try_v2::parse::TryEnum as ParseTryEnum;
use try_v2::read::read_derive_input;
use try_v2::syntax::{
    FieldDef, FieldList, GenericDef, ItemData, PathSegment, SegmentArguments, SynType, TypeArgument,
    TypePath,
};
use try_v2::unit_derive::unit_derive_is_defined;

fn tokens(text: &str) -> TokenStream {
    text.parse().unwrap()
}

fn path(ident: &str) -> SynType {
    SynType::Path(TypePath {
        leading_colon: false,
        segments: vec![PathSegment { ident: ident.to_string(), arguments: SegmentArguments::Empty }],
    })
}

#[test]
fn read_enum_item() {
    let parsed = read_derive_input(tokens(
        "enum MyResult<'r, T: Clone, E> where E: Copy { Ok(&'r T), Err { e: Vec<E> }, Unknown }",
    ))
    .unwrap();
    let model = &parsed.model;
    assert_eq!(model.ident, "MyResult");
    assert_eq!(
        model.generics.params,
        vec![
            GenericDef::Lifetime("'r".to_string()),
            GenericDef::Type("T".to_string()),
            GenericDef::Type("E".to_string()),
        ]
    );
    assert!(model.generics.has_where_clause);
    let ItemData::Enum(variants) = &model.data else { panic!("expected an enum") };
    assert_eq!(variants.len(), 3);
    assert_eq!(variants[0].ident, "Ok");
    assert_eq!(
        variants[0].fields,
        FieldList::Unnamed(vec![FieldDef {
            ident: None,
            ty: SynType::Reference { lifetime: Some("'r".to_string()), elem: Box::new(path("T")) },
        }])
    );
    let vec_e = SynType::Path(TypePath {
        leading_colon: false,
        segments: vec![PathSegment {
            ident: "Vec".to_string(),
            arguments: SegmentArguments::AngleBracketed(vec![TypeArgument::Type(path("E"))]),
        }],
    });
    assert_eq!(
        variants[1].fields,
        FieldList::Named(vec![FieldDef { ident: Some("e".to_string()), ty: vec_e }])
    );
    assert_eq!(variants[2].fields, FieldList::Unit);
    assert_eq!(parsed.syntax.ident.to_string(), "MyResult");
}

#[test]
fn read_other_items() {
    let parsed = read_derive_input(tokens("struct S<T>(T);")).unwrap();
    assert_eq!(parsed.model.data, ItemData::Struct);
    let parsed = read_derive_input(tokens("union U { a: u8 }")).unwrap();
    assert_eq!(parsed.model.data, ItemData::Union);
    let parsed = read_derive_input(tokens("enum E<T> { Ok(::std::T), No(!) }")).unwrap();
    let ItemData::Enum(variants) = &parsed.model.data else { panic!("expected an enum") };
    match &variants[0].fields {
        FieldList::Unnamed(f) => match &f[0].ty {
            SynType::Path(tp) => {
                assert!(tp.leading_colon);
                assert_eq!(tp.segments.len(), 2);
            }
            _ => panic!("expected a path"),
        },
        _ => panic!("expected unnamed fields"),
    }
    match &variants[1].fields {
        FieldList::Unnamed(f) => assert_eq!(f[0].ty, SynType::Other),
        _ => panic!("expected unnamed fields"),
    }
}

/// The same tokens give the same model.
#[test]
fn same_tokens_same_model() {
    let text = "enum E<'a, T, const N: usize> { Ok(&'a T), Err(::std::vec::Vec<u8>) }";
    let a = read_derive_input(tokens(text)).expect("an item");
    let b = read_derive_input(tokens(text)).expect("an item");
    assert_eq!(a.model, b.model);
}

#[test]
fn read_refuses_non_items() {
    assert!(read_derive_input(tokens("fn f() {}")).is_none());
    assert!(read_derive_input(tokens("1 + 2")).is_none());
}

#[test]
fn read_then_derive() {
    let parsed = read_derive_input(tokens("enum Exit<T> { Ok(T), TestsFailed }")).unwrap();
    assert!(impl_derive_is_defined(&parsed.model));
    assert!(try_parse_is_defined(&parsed.model));
    assert!(unit_derive_is_defined(&parsed.model));
    let derived = impl_derive(&parsed.model).unwrap();
    assert_eq!(derived.output_variant, "Ok");
    assert_eq!(derived.branch_arms.len(), 2);
}

#[test]
fn undefined_inputs_are_detected() {
    // A reference to something other than a path, as the single output field.
    let parsed = read_derive_input(tokens("enum E<'a, T> { Ok(&'a [T]), Err }")).unwrap();
    assert!(!try_parse_is_defined(&parsed.model));
    assert!(!impl_derive_is_defined(&parsed.model));
    // The first generic parameter is a lifetime.
    let parsed = read_derive_input(tokens("enum E<'a, T> { Ok(&'a T), Err }")).unwrap();
    assert!(!unit_derive_is_defined(&parsed.model));
    assert!(impl_derive_is_defined(&parsed.model));
}

#[test]
fn generics_helpers() {
    let parsed = read_derive_input(tokens("enum E<'a, T, E> where T: Copy { Ok(&'a T), Err(E) }")).unwrap();
    let te = ParseTryEnum::parse(&parsed.model).unwrap();
    let g = te.generics(|mut g| {
        g.params.push(GenericDef::Type("X".to_string()));
        g
    });
    assert_eq!(g.params.len(), 4);
    assert_eq!(g.params[3], GenericDef::Type("X".to_string()));
    assert!(g.has_where_clause);
    let g = te.generics_with_params(|ps| {
        ps.into_iter().filter(|p| !matches!(p, GenericDef::Lifetime(_))).collect()
    });
    assert_eq!(g.params, vec![GenericDef::Type("T".to_string()), GenericDef::Type("E".to_string())]);
    assert!(g.has_where_clause);
}
