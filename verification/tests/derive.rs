use try_v2::arms::{Bindings, BranchArm, ResidualArm};
use try_v2::derive::{impl_convert_result, impl_derive, ImplParam, TryEnum as DeriveTryEnum, TryImpl};
use try_v2::parse::TryEnum as ParseTryEnum;
use try_v2::syntax::{
    generate_residual, ItemData, ItemDef, FieldDef, FieldList, GenericDef, GenericList, SegmentArguments,
    PathSegment, ResidualArg, ResidualType, SynType, TypePath, VariantDef,
};
use try_v2::unit_derive::{impl_try_trait_v2, UnitTryImpl};

fn s(text: &str) -> String {
    text.to_string()
}

fn path(ident: &str) -> SynType {
    SynType::Path(TypePath {
        leading_colon: false,
        segments: vec![PathSegment { ident: s(ident), arguments: SegmentArguments::Empty }],
    })
}

fn reference(lifetime: &str, ident: &str) -> SynType {
    SynType::Reference { lifetime: Some(s(lifetime)), elem: Box::new(path(ident)) }
}

fn unnamed(types: Vec<SynType>) -> FieldList {
    FieldList::Unnamed(types.into_iter().map(|ty| FieldDef { ident: None, ty }).collect())
}

fn named(fields: Vec<(&str, SynType)>) -> FieldList {
    FieldList::Named(fields.into_iter().map(|(n, ty)| FieldDef { ident: Some(s(n)), ty }).collect())
}

fn variant(ident: &str, fields: FieldList) -> VariantDef {
    VariantDef { ident: s(ident), fields }
}

fn enum_input(ident: &str, params: Vec<GenericDef>, variants: Vec<VariantDef>) -> ItemDef {
    ItemDef {
        ident: s(ident),
        generics: GenericList { params, has_where_clause: false },
        data: ItemData::Enum(variants),
    }
}

fn ty(ident: &str) -> GenericDef {
    GenericDef::Type(s(ident))
}

fn lt(name: &str) -> GenericDef {
    GenericDef::Lifetime(s(name))
}

fn residual(name: &str, args: Vec<ResidualArg>) -> ResidualType {
    ResidualType { name: s(name), args }
}

/// `enum Exit<T> { Ok(T), TestsFailed }`
fn exit_t() -> ItemDef {
    enum_input(
        "Exit",
        vec![ty("T")],
        vec![variant("Ok", unnamed(vec![path("T")])), variant("TestsFailed", FieldList::Unit)],
    )
}

/// `enum Exit<T, E> { Ok(T), TestsFailed(E) }`
fn exit_t_e() -> ItemDef {
    enum_input(
        "Exit",
        vec![ty("T"), ty("E")],
        vec![
            variant("Ok", unnamed(vec![path("T")])),
            variant("TestsFailed", unnamed(vec![path("E")])),
        ],
    )
}

/// `enum MyResult<T: 'static, E> { Ok(&'static T), Err(E) }`
fn static_ref() -> ItemDef {
    enum_input(
        "MyResult",
        vec![ty("T"), ty("E")],
        vec![
            variant("Ok", unnamed(vec![reference("'static", "T")])),
            variant("Err", unnamed(vec![path("E")])),
        ],
    )
}

/// `enum MyResult<'r, T, E> { Ok(&'r T), Err(&'r E) }`
fn lifetime_ref() -> ItemDef {
    enum_input(
        "MyResult",
        vec![lt("'r"), ty("T"), ty("E")],
        vec![
            variant("Ok", unnamed(vec![reference("'r", "T")])),
            variant("Err", unnamed(vec![reference("'r", "E")])),
        ],
    )
}

/// `enum MyResult<'t, 'e, T, E> { Ok(&'t T), Err(&'e E) }`
fn multiple_lifetimes_ref() -> ItemDef {
    enum_input(
        "MyResult",
        vec![lt("'t"), lt("'e"), ty("T"), ty("E")],
        vec![
            variant("Ok", unnamed(vec![reference("'t", "T")])),
            variant("Err", unnamed(vec![reference("'e", "E")])),
        ],
    )
}

fn check_residual_both_ways(input: ItemDef, expected: ResidualType) {
    assert_eq!(expected, generate_residual(&input));
    let parsed = DeriveTryEnum::try_parse(&input).unwrap();
    assert_eq!(expected, parsed.residual_type);
    let parsed = ParseTryEnum::parse(&input).unwrap();
    assert_eq!(expected, parsed.residual_type);
}

#[test]
fn lib_simple_residual() {
    check_residual_both_ways(exit_t(), residual("Exit", vec![ResidualArg::Never]));
}

#[test]
fn parse_simple_residual() {
    let item = exit_t();
    let expected = residual("Exit", vec![ResidualArg::Never]);
    assert_eq!(expected, generate_residual(&item));
    assert_eq!(expected, ParseTryEnum::parse(&item).unwrap().residual_type);
}

#[test]
fn lib_multiple_generics_residual() {
    check_residual_both_ways(
        exit_t_e(),
        residual("Exit", vec![ResidualArg::Never, ResidualArg::Type(s("E"))]),
    );
}

#[test]
fn parse_multiple_generics_residual() {
    let item = exit_t_e();
    let expected = residual("Exit", vec![ResidualArg::Never, ResidualArg::Type(s("E"))]);
    assert_eq!(expected, generate_residual(&item));
    assert_eq!(expected, ParseTryEnum::parse(&item).unwrap().residual_type);
}

#[test]
fn lib_static_ref_residual() {
    check_residual_both_ways(
        static_ref(),
        residual("MyResult", vec![ResidualArg::Never, ResidualArg::Type(s("E"))]),
    );
}

#[test]
fn parse_static_ref_residual() {
    let item = static_ref();
    let expected = residual("MyResult", vec![ResidualArg::Never, ResidualArg::Type(s("E"))]);
    assert_eq!(expected, generate_residual(&item));
    assert_eq!(expected, ParseTryEnum::parse(&item).unwrap().residual_type);
}

#[test]
fn lib_lifetime_ref_residual() {
    check_residual_both_ways(
        lifetime_ref(),
        residual(
            "MyResult",
            vec![ResidualArg::Lifetime(s("'r")), ResidualArg::Never, ResidualArg::Type(s("E"))],
        ),
    );
}

#[test]
fn parse_lifetime_ref_residual() {
    let item = lifetime_ref();
    let expected = residual(
        "MyResult",
        vec![ResidualArg::Lifetime(s("'r")), ResidualArg::Never, ResidualArg::Type(s("E"))],
    );
    assert_eq!(expected, generate_residual(&item));
    assert_eq!(expected, ParseTryEnum::parse(&item).unwrap().residual_type);
}

#[test]
fn lib_multiple_lifetimes_ref_residual() {
    check_residual_both_ways(
        multiple_lifetimes_ref(),
        residual(
            "MyResult",
            vec![
                ResidualArg::Lifetime(s("'t")),
                ResidualArg::Lifetime(s("'e")),
                ResidualArg::Never,
                ResidualArg::Type(s("E")),
            ],
        ),
    );
}

#[test]
fn parse_multiple_lifetimes_ref_residual() {
    let item = multiple_lifetimes_ref();
    let expected = residual(
        "MyResult",
        vec![
            ResidualArg::Lifetime(s("'t")),
            ResidualArg::Lifetime(s("'e")),
            ResidualArg::Never,
            ResidualArg::Type(s("E")),
        ],
    );
    assert_eq!(expected, generate_residual(&item));
    assert_eq!(expected, ParseTryEnum::parse(&item).unwrap().residual_type);
}

/// `enum Exit<T: Termination> { Ok(T), TestsFailed, OtherError(String),
/// NamedError{err: String, text: String} }` (bounds are kept by the caller).
#[test]
fn lib_derive() {
    let item = enum_input(
        "Exit",
        vec![ty("T")],
        vec![
            variant("Ok", unnamed(vec![path("T")])),
            variant("TestsFailed", FieldList::Unit),
            variant("OtherError", unnamed(vec![path("String")])),
            variant("NamedError", named(vec![("err", path("String")), ("text", path("String"))])),
        ],
    );
    let derived = impl_derive(&item).unwrap();

    let (exit, ok, tests_failed, other_error, named_error) =
        (s("Exit"), s("Ok"), s("TestsFailed"), s("OtherError"), s("NamedError"));
    let (err, text) = (s("err"), s("text"));
    let t = path("T");
    let expected = TryImpl {
        name: &exit,
        generics: &item.generics,
        output_type: &t,
        output_variant: &ok,
        residual_type: residual("Exit", vec![ResidualArg::Never]),
        branch_arms: vec![
            BranchArm { variant: &ok, bindings: Bindings::Positional(1), continues: true },
            BranchArm { variant: &tests_failed, bindings: Bindings::Unit, continues: false },
            BranchArm { variant: &other_error, bindings: Bindings::Positional(1), continues: false },
            BranchArm {
                variant: &named_error,
                bindings: Bindings::Named(vec![&err, &text]),
                continues: false,
            },
        ],
        residual_arms: vec![
            None,
            Some(ResidualArm::Rebuild { variant: &tests_failed, bindings: Bindings::Unit }),
            Some(ResidualArm::Rebuild { variant: &other_error, bindings: Bindings::Positional(1) }),
            Some(ResidualArm::Rebuild {
                variant: &named_error,
                bindings: Bindings::Named(vec![&err, &text]),
            }),
        ],
    };
    assert_eq!(expected, derived);
}

/// `enum Exit<T: Termination> { Ok(T), TestsFailed }`
#[test]
fn derive_derive() {
    let item = enum_input(
        "Exit",
        vec![ty("T")],
        vec![variant("Ok", unnamed(vec![path("T")])), variant("TestsFailed", FieldList::Unit)],
    );
    let (exit, t, ok, tests_failed) = (s("Exit"), s("T"), s("Ok"), s("TestsFailed"));
    let expected = UnitTryImpl {
        name: &exit,
        generics: &item.generics,
        output_ty: &t,
        output_variant: &ok,
        residual_variants: vec![&tests_failed],
    };
    assert_eq!(expected, impl_try_trait_v2(&item));
}

/// `enum Exit<T: Termination, E> { Ok(T), TestsFailed, OtherError(E) }`
#[test]
fn convert_result() {
    let item = enum_input(
        "Exit",
        vec![ty("T"), ty("E")],
        vec![
            variant("Ok", unnamed(vec![path("T")])),
            variant("TestsFailed", FieldList::Unit),
            variant("OtherError", unnamed(vec![path("E")])),
        ],
    );
    let impls = impl_convert_result(&item);
    assert_eq!(impls.name, "Exit");
    assert_eq!(impls.generics, &item.generics);
    assert_eq!(
        impls.residual_type,
        residual("Exit", vec![ResidualArg::Never, ResidualArg::Type(s("E"))])
    );
    assert_eq!(
        impls.from_result_params,
        vec![ImplParam::Item(0), ImplParam::Item(1), ImplParam::ResultEIntoSelf]
    );
    assert_eq!(
        impls.to_result_params,
        vec![ImplParam::Item(1), ImplParam::ResultT, ImplParam::ResultEFromResidual]
    );
}
