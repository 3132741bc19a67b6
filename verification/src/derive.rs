//! Deriving `Try` (and conversion to and from `Result`) for an enum whose
//! output variant holds its first type parameter, or a reference to it.
use crate::arms::{
    is_output_branch_arm, is_residual_variant_arms, named_fields_have_names,
    residual_variant_arms, Bindings, BranchArm, ResidualArm,
};
use crate::diagnostic::{Diagnostic, ErrorKind, Help, HelpText, Span};
use crate::syntax::{
    first_type_param, first_type_param_ident, generate_residual, get_ident, is_residual_of,
    every_named_field_named, names_ident, same_ident, ItemData, ItemDef, FieldDef, FieldList,
    GenericDef, GenericList,
    ResidualType, SynType, VariantDef,
};
use vstd::prelude::*;

verus! {

/// An enum that `Try` can be derived for, taken apart.
#[derive(Debug, PartialEq, Eq)]
pub struct TryEnum<'ast> {
    pub name: &'ast String,
    pub enum_data: &'ast Vec<VariantDef>,
    pub output_variant: &'ast String,
    pub output_type: &'ast SynType,
    pub output_type_name: &'ast String,
    pub residual_type: ResidualType,
}

/// Whether a field type refers to the identifier `first`, directly or
/// behind a reference.
pub open spec fn refers_to(ty: SynType, first: String) -> bool {
    match ty {
        SynType::Path(_) => names_ident(ty, first),
        SynType::Reference { elem, .. } => *elem is Path && names_ident(*elem, first),
        SynType::Other => false,
    }
}

/// FieldDef types that can be looked at while searching for the `Output` type:
/// paths and references to paths.
pub open spec fn searchable(ty: SynType) -> bool {
    ty is Path || (ty matches SynType::Reference { elem, .. } && *elem is Path)
}

/// The index of the first field at or after `from` that refers to `first`.
pub open spec fn first_reference_from(fields: Seq<FieldDef>, first: String, from: int) -> Option<int>
    decreases fields.len() - from,
{
    if from < 0 || from >= fields.len() {
        None
    } else if refers_to(fields[from].ty, first) {
        Some(from)
    } else {
        first_reference_from(fields, first, from + 1)
    }
}

proof fn lemma_first_reference_from(fields: Seq<FieldDef>, first: String, from: int)
    requires
        0 <= from <= fields.len(),
    ensures
        first_reference_from(fields, first, from) matches Some(j) ==> from <= j < fields.len()
            && refers_to(fields[j].ty, first) && forall|i: int|
            from <= i < j ==> !refers_to(#[trigger] fields[i].ty, first),
        first_reference_from(fields, first, from) is None ==> forall|i: int|
            from <= i < fields.len() ==> !refers_to(#[trigger] fields[i].ty, first),
    decreases fields.len() - from,
{
    if from < fields.len() {
        lemma_first_reference_from(fields, first, from + 1);
    }
}

/// The number of fields looked at while searching for the `Output` type.
pub open spec fn searched_fields(fields: Seq<FieldDef>, first: String) -> int {
    match first_reference_from(fields, first, 0) {
        Some(j) => j + 1,
        None => fields.len() as int,
    }
}

/// The items on which `TryEnum::try_parse` fails by an assertion.
pub open spec fn try_parse_fails(ast: ItemDef) -> bool {
    &&& ast.data matches ItemData::Enum(variants)
    &&& first_type_param(ast.generics.params@) matches Some(k)
    &&& variants@.len() > 0
    &&& variants@[0].fields matches FieldList::Unnamed(fields)
    &&& {
        let first = ast.generics.params@[k]->Type_0;
        if fields@.len() == 1 {
            fields@[0].ty matches SynType::Reference { elem, .. } && !(*elem is Path)
        } else {
            (exists|i: int|
                0 <= i < searched_fields(fields@, first) && !searchable(
                    #[trigger] fields@[i].ty,
                )) || (first_reference_from(fields@, first, 0) matches Some(j)
                && fields@[j].ty matches SynType::Reference { lifetime, .. } && lifetime is None)
        }
    }
}

/// What checking the single field type `ty` of the output variant gives.
pub open spec fn single_field_outcome<'a>(ty: SynType, first: &'a String) -> Option<
    (ErrorKind, Seq<Help<'a>>),
> {
    let path = match ty {
        SynType::Reference { elem, .. } => *elem,
        _ => ty,
    };
    let helps = seq![
        Help { span: Span::FirstGeneric, text: HelpText::OutputDefinedHere },
        Help { span: Span::OutputType, text: HelpText::ChangeTo(first) },
    ];
    // A mismatched identifier is pointed at itself: behind a reference, that
    // is the referenced type rather than the whole field.
    let mismatch_span = if ty is Reference {
        Span::ReferencedType
    } else {
        Span::OutputType
    };
    match path {
        SynType::Path(tp) => match crate::syntax::path_ident(tp) {
            Some(id) => if id@ == first@ {
                None
            } else {
                Some(
                    (
                        ErrorKind::OutputGenericMismatch,
                        seq![
                            Help { span: Span::FirstGeneric, text: HelpText::OutputDefinedHere },
                            Help { span: mismatch_span, text: HelpText::ChangeTo(first) },
                        ],
                    ),
                )
            },
            None => Some((ErrorKind::MissingOutputGeneric, helps)),
        },
        _ => Some((ErrorKind::MissingOutputGeneric, helps)),
    }
}

/// What `TryEnum::try_parse` gives: nothing when `Try` can be derived,
/// otherwise the error.
pub open spec fn try_parse_error<'a>(ast: &'a ItemDef) -> Option<(ErrorKind, Seq<Help<'a>>)> {
    match ast.data {
        ItemData::Struct => Some(
            (
                ErrorKind::NotAnEnum,
                seq![Help { span: Span::StructToken, text: HelpText::NotAnEnum }],
            ),
        ),
        ItemData::Union => Some(
            (
                ErrorKind::NotAnEnum,
                seq![Help { span: Span::UnionToken, text: HelpText::NotAnEnum }],
            ),
        ),
        ItemData::Enum(variants) => match first_type_param(ast.generics.params@) {
            None => Some(
                (
                    ErrorKind::MissingOutputGeneric,
                    seq![Help { span: Span::Name, text: HelpText::AddGeneric }],
                ),
            ),
            Some(k) => {
                let first = &ast.generics.params@[k]->Type_0;
                if variants@.len() == 0 {
                    Some(
                        (
                            ErrorKind::NoVariants,
                            seq![Help { span: Span::Brace, text: HelpText::AddVariants }],
                        ),
                    )
                } else {
                    match variants@[0].fields {
                        FieldList::Unnamed(fields) => if fields@.len() == 1 {
                            single_field_outcome(fields@[0].ty, first)
                        } else {
                            let text = match first_reference_from(fields@, *first, 0) {
                                Some(j) => match fields@[j].ty {
                                    SynType::Reference { lifetime, .. } => HelpText::ChangeToRefTuple(
                                        &lifetime->0,
                                        first,
                                    ),
                                    _ => HelpText::ChangeToTuple(first),
                                },
                                None => HelpText::ChangeToTuple(first),
                            };
                            Some(
                                (
                                    ErrorKind::SingleOutputRequired,
                                    seq![
                                        Help {
                                            span: Span::FirstGeneric,
                                            text: HelpText::OutputDefinedHere,
                                        },
                                        Help { span: Span::OutputFields, text },
                                    ],
                                ),
                            )
                        },
                        FieldList::Unit => Some(
                            (
                                ErrorKind::MissingOutputGeneric,
                                seq![
                                    Help {
                                        span: Span::OutputVariant,
                                        text: HelpText::AddTupleAfter(first),
                                    },
                                ],
                            ),
                        ),
                        FieldList::Named(_) => Some(
                            (
                                ErrorKind::UnnamedOutputRequired,
                                seq![
                                    Help {
                                        span: Span::OutputFields,
                                        text: HelpText::ChangeToTuple(first),
                                    },
                                ],
                            ),
                        ),
                    }
                }
            },
        },
    }
}

/// `t` takes `ast` apart: the enum's name and variants, the output variant
/// (the first), the type it holds, the first type parameter and the
/// residual type.
pub open spec fn takes_apart(t: TryEnum, ast: ItemDef) -> bool {
    let variants = ast.data->Enum_0@;
    &&& *t.name == ast.ident
    &&& *t.enum_data == ast.data->Enum_0
    &&& *t.output_variant == variants[0].ident
    &&& *t.output_type == variants[0].fields->Unnamed_0@[0].ty
    &&& *t.output_type_name == ast.generics.params@[first_type_param(ast.generics.params@)->0]->Type_0
    &&& is_residual_of(t.residual_type, ast)
}

/// Checks the single field type of the output variant against `first`.
fn check_single_field<'ast>(ty: &'ast SynType, first: &'ast String) -> (r: Option<
    Diagnostic<'ast>,
>)
    requires
        !(*ty matches SynType::Reference { elem, .. } && !(*elem is Path)),
    ensures
        match single_field_outcome(*ty, first) {
            None => r is None,
            Some((kind, helps)) => r matches Some(d) && d.kind == kind && d.helps@ == helps,
        },
{
    let (path, mismatch_span): (&SynType, Span) = match ty {
        SynType::Reference { elem, .. } => (elem, Span::ReferencedType),
        _ => (ty, Span::OutputType),
    };
    let defined = Help { span: Span::FirstGeneric, text: HelpText::OutputDefinedHere };
    let change = Help { span: Span::OutputType, text: HelpText::ChangeTo(first) };
    match path {
        SynType::Path(tp) => match get_ident(tp) {
            Some(var_ty) => if same_ident(var_ty, first) {
                None
            } else {
                let mismatch = Help { span: mismatch_span, text: HelpText::ChangeTo(first) };
                Some(Diagnostic::with_helps(ErrorKind::OutputGenericMismatch, defined, Some(mismatch)))
            },
            None => Some(Diagnostic::with_helps(ErrorKind::MissingOutputGeneric, defined, Some(change))),
        },
        _ => Some(Diagnostic::with_helps(ErrorKind::MissingOutputGeneric, defined, Some(change))),
    }
}

/// The help text for an output variant whose unnamed fields are not exactly
/// one: suggests the form of the first field that refers to `first`.
fn several_fields_text<'ast>(fields: &'ast Vec<FieldDef>, first: &'ast String) -> (r: HelpText<'ast>)
    requires
        forall|i: int|
            0 <= i < searched_fields(fields@, *first) ==> searchable(#[trigger] fields@[i].ty),
        !(first_reference_from(fields@, *first, 0) matches Some(j)
            && fields@[j].ty matches SynType::Reference { lifetime, .. } && lifetime is None),
    ensures
        r == match first_reference_from(fields@, *first, 0) {
            Some(j) => match fields@[j].ty {
                SynType::Reference { lifetime, .. } => HelpText::ChangeToRefTuple(
                    &lifetime->0,
                    first,
                ),
                _ => HelpText::ChangeToTuple(first),
            },
            None => HelpText::ChangeToTuple(first),
        },
{
    proof {
        lemma_first_reference_from(fields@, *first, 0);
    }
    let mut i: usize = 0;
    while i < fields.len()
        invariant
            0 <= i <= fields@.len(),
            forall|j: int| 0 <= j < i ==> !refers_to(#[trigger] fields@[j].ty, *first),
            forall|j: int|
                0 <= j < searched_fields(fields@, *first) ==> searchable(#[trigger] fields@[j].ty),
            first_reference_from(fields@, *first, 0) matches Some(j) ==> i <= j,
            !(first_reference_from(fields@, *first, 0) matches Some(j)
                && fields@[j].ty matches SynType::Reference { lifetime, .. } && lifetime is None),
        decreases fields@.len() - i,
    {
        proof {
            lemma_first_reference_from(fields@, *first, 0);
        }
        let ty: &'ast SynType = &fields[i].ty;
        let found = match ty {
            SynType::Path(_) => crate::syntax::type_names_ident(ty, first),
            SynType::Reference { elem, .. } => match &**elem {
                SynType::Path(_) => crate::syntax::type_names_ident(elem, first),
                _ => vstd::pervasive::unreached(),
            },
            SynType::Other => vstd::pervasive::unreached(),
        };
        if found {
            assert(first_reference_from(fields@, *first, 0) == Some(i as int));
            return match ty {
                SynType::Reference { lifetime, .. } => match lifetime {
                    Some(l) => HelpText::ChangeToRefTuple(l, first),
                    None => vstd::pervasive::unreached(),
                },
                _ => HelpText::ChangeToTuple(first),
            };
        }
        i = i + 1;
    }
    proof {
        lemma_first_reference_from(fields@, *first, 0);
    }
    HelpText::ChangeToTuple(first)
}

/// Whether `ty` is a path or a reference to a path.
fn is_searchable(ty: &SynType) -> (r: bool)
    ensures
        r == searchable(*ty),
{
    match ty {
        SynType::Path(_) => true,
        SynType::Reference { elem, .. } => match &**elem {
            SynType::Path(_) => true,
            _ => false,
        },
        SynType::Other => false,
    }
}

/// Whether `ty` refers to the identifier `first`, directly or behind a
/// reference.
fn type_refers_to(ty: &SynType, first: &String) -> (r: bool)
    ensures
        r == refers_to(*ty, *first),
{
    match ty {
        SynType::Path(_) => crate::syntax::type_names_ident(ty, first),
        SynType::Reference { elem, .. } => match &**elem {
            SynType::Path(_) => crate::syntax::type_names_ident(elem, first),
            _ => false,
        },
        SynType::Other => false,
    }
}

/// Whether `TryEnum::try_parse` is defined on `ast` (it fails by an
/// assertion on the items described by `try_parse_fails`).
#[verifier::loop_isolation(false)]
pub fn try_parse_is_defined(ast: &ItemDef) -> (r: bool)
    ensures
        r == !try_parse_fails(*ast),
{
    let variants = match &ast.data {
        ItemData::Enum(variants) => variants,
        _ => {
            return true;
        },
    };
    let first = match first_type_param_ident(&ast.generics) {
        Some(first) => first,
        None => {
            return true;
        },
    };
    if variants.len() == 0 {
        return true;
    }
    let fields = match &variants[0].fields {
        FieldList::Unnamed(fields) => fields,
        _ => {
            return true;
        },
    };
    if fields.len() == 1 {
        return match &fields[0].ty {
            SynType::Reference { elem, .. } => match &**elem {
                SynType::Path(_) => true,
                _ => false,
            },
            _ => true,
        };
    }
    proof {
        lemma_first_reference_from(fields@, *first, 0);
    }
    let mut i: usize = 0;
    while i < fields.len()
        invariant
            0 <= i <= fields@.len(),
            forall|j: int|
                0 <= j < i ==> searchable(#[trigger] fields@[j].ty) && !refers_to(
                    fields@[j].ty,
                    *first,
                ),
        decreases fields@.len() - i,
    {
        proof {
            lemma_first_reference_from(fields@, *first, 0);
        }
        let ty = &fields[i].ty;
        if !is_searchable(ty) {
            return false;
        }
        if type_refers_to(ty, first) {
            assert(first_reference_from(fields@, *first, 0) == Some(i as int));
            assert forall|j: int| 0 <= j < searched_fields(fields@, *first) implies searchable(
                #[trigger] fields@[j].ty,
            ) by {
                if j < i {
                }
            }
            return match ty {
                SynType::Reference { lifetime, .. } => lifetime.is_some(),
                _ => true,
            };
        }
        i = i + 1;
    }
    proof {
        lemma_first_reference_from(fields@, *first, 0);
    }
    true
}

/// Whether `impl_derive` is defined on `ast`: `try_parse` is defined, and
/// every named field of every variant has a name.
#[verifier::loop_isolation(false)]
pub fn impl_derive_is_defined(ast: &ItemDef) -> (r: bool)
    ensures
        r == (!try_parse_fails(*ast) && (ast.data matches ItemData::Enum(variants)
            ==> all_named_fields_have_names(variants@))),
        every_named_field_named(*ast) ==> r == !try_parse_fails(*ast),
{
    proof {
        if every_named_field_named(*ast) {
            crate::laws::law_named_fields_do_not_limit_derive(*ast);
        }
    }
    if !try_parse_is_defined(ast) {
        return false;
    }
    match &ast.data {
        ItemData::Enum(variants) => {
            let mut i: usize = 0;
            while i < variants.len()
                invariant
                    0 <= i <= variants@.len(),
                    forall|k: int|
                        0 <= k < i ==> named_fields_have_names((#[trigger] variants@[k]).fields),
                decreases variants@.len() - i,
            {
                if !crate::arms::fields_are_named(&variants[i].fields) {
                    assert(!named_fields_have_names(variants@[i as int].fields));
                    return false;
                }
                i = i + 1;
            }
            true
        },
        _ => true,
    }
}

impl<'ast> TryEnum<'ast> {
    /// Checks that `Try` can be derived for `ast`, and takes it apart.
    pub fn try_parse(ast: &'ast ItemDef) -> (r: Result<Self, Diagnostic<'ast>>)
        requires
            !try_parse_fails(*ast),
        ensures
            match try_parse_error(ast) {
                None => r matches Ok(t) && takes_apart(t, *ast),
                Some((kind, helps)) => r matches Err(d) && d.kind == kind && d.helps@ == helps,
            },
    {
        let enum_data: &'ast Vec<VariantDef> = match &ast.data {
            ItemData::Enum(enum_data) => enum_data,
            ItemData::Struct => {
                return Err(
                    Diagnostic::with_helps(
                        ErrorKind::NotAnEnum,
                        Help { span: Span::StructToken, text: HelpText::NotAnEnum },
                        None,
                    ),
                );
            },
            ItemData::Union => {
                return Err(
                    Diagnostic::with_helps(
                        ErrorKind::NotAnEnum,
                        Help { span: Span::UnionToken, text: HelpText::NotAnEnum },
                        None,
                    ),
                );
            },
        };
        let name: &'ast String = &ast.ident;
        let first_generic_type: &'ast String = match first_type_param_ident(&ast.generics) {
            Some(first) => first,
            None => {
                return Err(
                    Diagnostic::with_helps(
                        ErrorKind::MissingOutputGeneric,
                        Help { span: Span::Name, text: HelpText::AddGeneric },
                        None,
                    ),
                );
            },
        };
        if enum_data.len() == 0 {
            return Err(
                Diagnostic::with_helps(
                    ErrorKind::NoVariants,
                    Help { span: Span::Brace, text: HelpText::AddVariants },
                    None,
                ),
            );
        }
        let output_variant: &'ast VariantDef = &enum_data[0];
        let output_type: &'ast SynType = match &output_variant.fields {
            FieldList::Unnamed(fields) => {
                if fields.len() == 1 {
                    let ty: &'ast SynType = &fields[0].ty;
                    match check_single_field(ty, first_generic_type) {
                        Some(d) => {
                            return Err(d);
                        },
                        None => ty,
                    }
                } else {
                    let text = several_fields_text(fields, first_generic_type);
                    return Err(
                        Diagnostic::with_helps(
                            ErrorKind::SingleOutputRequired,
                            Help { span: Span::FirstGeneric, text: HelpText::OutputDefinedHere },
                            Some(Help { span: Span::OutputFields, text }),
                        ),
                    );
                }
            },
            FieldList::Unit => {
                return Err(
                    Diagnostic::with_helps(
                        ErrorKind::MissingOutputGeneric,
                        Help {
                            span: Span::OutputVariant,
                            text: HelpText::AddTupleAfter(first_generic_type),
                        },
                        None,
                    ),
                );
            },
            FieldList::Named(_) => {
                return Err(
                    Diagnostic::with_helps(
                        ErrorKind::UnnamedOutputRequired,
                        Help {
                            span: Span::OutputFields,
                            text: HelpText::ChangeToTuple(first_generic_type),
                        },
                        None,
                    ),
                );
            },
        };
        let residual_type = generate_residual(ast);
        Ok(
            TryEnum {
                name,
                enum_data,
                output_variant: &output_variant.ident,
                output_type,
                output_type_name: first_generic_type,
                residual_type,
            },
        )
    }
}

/// The arm of `from_residual` for the output variant: none when the output
/// variant holds the `Output` type itself, `Name::V(never) => *never` when it
/// holds a reference.
pub open spec fn output_residual_arm<'a>(output_type: SynType, variant: &'a String) -> Option<
    ResidualArm<'a>,
> {
    if output_type is Path {
        None
    } else {
        Some(ResidualArm::DerefNever { variant })
    }
}

/// `arms` are the arms generated for `variants`: the first variant is the
/// output variant, every other one short-circuits.
pub open spec fn arms_for<'a>(
    branch_arms: Seq<BranchArm<'a>>,
    residual_arms: Seq<Option<ResidualArm<'a>>>,
    variants: Seq<VariantDef>,
    output_type: SynType,
) -> bool {
    &&& branch_arms.len() == variants.len()
    &&& residual_arms.len() == variants.len()
    &&& forall|i: int|
        0 <= i < variants.len() ==> if i == 0 {
            is_output_branch_arm(branch_arms[i], variants[i]) && residual_arms[i]
                == output_residual_arm(output_type, &variants[i].ident)
        } else {
            is_residual_variant_arms(branch_arms[i], residual_arms[i], #[trigger] variants[i])
        }
}

/// Every named field of every variant has a name.
pub open spec fn all_named_fields_have_names(variants: Seq<VariantDef>) -> bool {
    forall|i: int| 0 <= i < variants.len() ==> named_fields_have_names((#[trigger] variants[i]).fields)
}

impl<'ast> TryEnum<'ast> {
    /// Creates the match arms for `branch` and `from_residual` of the enum
    /// named `enum_name`: the first variant continues with its value, every
    /// other one breaks with itself.
    pub fn generate_arms(
        enum_name: &'ast String,
        enum_data: &'ast Vec<VariantDef>,
        output_type: &'ast SynType,
    ) -> (r: (Vec<BranchArm<'ast>>, Vec<Option<ResidualArm<'ast>>>))
        requires
            all_named_fields_have_names(enum_data@),
        ensures
            arms_for(r.0@, r.1@, enum_data@, *output_type),
    {
        let owned_output = match output_type {
            SynType::Path(_) => true,
            _ => false,
        };
        let mut branch_arms: Vec<BranchArm<'ast>> = Vec::new();
        let mut residual_arms: Vec<Option<ResidualArm<'ast>>> = Vec::new();
        let mut i: usize = 0;
        while i < enum_data.len()
            invariant
                0 <= i <= enum_data@.len(),
                owned_output == (*output_type is Path),
                all_named_fields_have_names(enum_data@),
                branch_arms@.len() == i,
                residual_arms@.len() == i,
                forall|k: int|
                    0 <= k < i ==> if k == 0 {
                        is_output_branch_arm(branch_arms@[k], enum_data@[k]) && residual_arms@[k]
                            == output_residual_arm(*output_type, &enum_data@[k].ident)
                    } else {
                        is_residual_variant_arms(
                            branch_arms@[k],
                            residual_arms@[k],
                            #[trigger] enum_data@[k],
                        )
                    },
            decreases enum_data@.len() - i,
        {
            let variant: &'ast VariantDef = &enum_data[i];
            if i == 0 {
                let branch_arm = BranchArm {
                    variant: &variant.ident,
                    bindings: Bindings::Positional(1),
                    continues: true,
                };
                let residual_arm = if owned_output {
                    None
                } else {
                    Some(ResidualArm::DerefNever { variant: &variant.ident })
                };
                branch_arms.push(branch_arm);
                residual_arms.push(residual_arm);
            } else {
                let (branch_arm, residual_arm) = residual_variant_arms(variant);
                branch_arms.push(branch_arm);
                residual_arms.push(residual_arm);
            }
            i = i + 1;
        }
        (branch_arms, residual_arms)
    }
}

/// The derived `impl Try for Name<..>` and `impl FromResidual<Residual> for
/// Name<..>`: both carry the item's generics and `where` clause.
#[derive(Debug, PartialEq, Eq)]
pub struct TryImpl<'ast> {
    pub name: &'ast String,
    pub generics: &'ast GenericList,
    /// `type Output = ..;`
    pub output_type: &'ast SynType,
    /// `fn from_output(output) -> Self { Self::V(output) }`
    pub output_variant: &'ast String,
    /// `type Residual = ..;`
    pub residual_type: ResidualType,
    /// The arms of `branch`.
    pub branch_arms: Vec<BranchArm<'ast>>,
    /// The arms of `from_residual` (a `None` writes no arm).
    pub residual_arms: Vec<Option<ResidualArm<'ast>>>,
}

/// `t` is the `Try` impl derived for `ast`.
pub open spec fn describes_try_impl(t: TryImpl, ast: ItemDef) -> bool {
    let variants = ast.data->Enum_0@;
    &&& *t.name == ast.ident
    &&& *t.generics == ast.generics
    &&& *t.output_type == variants[0].fields->Unnamed_0@[0].ty
    &&& *t.output_variant == variants[0].ident
    &&& is_residual_of(t.residual_type, ast)
    &&& arms_for(t.branch_arms@, t.residual_arms@, variants, *t.output_type)
}

/// Derives `Try` for `ast`, or reports why it cannot be derived.
pub fn impl_derive<'ast>(ast: &'ast ItemDef) -> (r: Result<TryImpl<'ast>, Diagnostic<'ast>>)
    requires
        !try_parse_fails(*ast),
        ast.data matches ItemData::Enum(variants) ==> all_named_fields_have_names(variants@),
    ensures
        match try_parse_error(ast) {
            None => r matches Ok(t) && describes_try_impl(t, *ast),
            Some((kind, helps)) => r matches Err(d) && d.kind == kind && d.helps@ == helps,
        },
{
    let parsed = match TryEnum::try_parse(ast) {
        Ok(t) => t,
        Err(d) => {
            return Err(d);
        },
    };
    let (branch_arms, residual_arms) = TryEnum::generate_arms(
        parsed.name,
        parsed.enum_data,
        parsed.output_type,
    );
    Ok(
        TryImpl {
            name: parsed.name,
            generics: &ast.generics,
            output_type: parsed.output_type,
            output_variant: parsed.output_variant,
            residual_type: parsed.residual_type,
            branch_arms,
            residual_arms,
        },
    )
}

/// A generic parameter of a derived conversion impl.
#[derive(Debug, PartialEq, Eq, Structural, Clone, Copy)]
pub enum ImplParam {
    /// The item's generic parameter at this index, with its bounds.
    Item(usize),
    /// `Derive_TryConvert_ResultE: Into<Name<..>>`
    ResultEIntoSelf,
    /// `Derive_TryConvert_ResultT`
    ResultT,
    /// `Derive_TryConvert_ResultE: From<Residual>`
    ResultEFromResidual,
}

/// The name of the error type parameter of the conversion impls.
pub fn result_e_ident() -> (r: &'static str)
    ensures
        r@ == "Derive_TryConvert_ResultE"@,
{
    "Derive_TryConvert_ResultE"
}

/// The name of the output type parameter of the conversion impls.
pub fn result_t_ident() -> (r: &'static str)
    ensures
        r@ == "Derive_TryConvert_ResultT"@,
{
    "Derive_TryConvert_ResultT"
}

/// The derived conversions between the enum and `Result`:
/// `impl<from_result_params> FromResidual<Result<Infallible, ResultE>> for Name<..>`
/// (`Err(e) => e.into()`) and
/// `impl<to_result_params> FromResidual<Residual> for Result<ResultT, ResultE>`
/// (`Err(residual.into())`).
#[derive(Debug, PartialEq, Eq)]
pub struct ConvertResultImpls<'ast> {
    pub name: &'ast String,
    pub generics: &'ast GenericList,
    pub residual_type: ResidualType,
    pub from_result_params: Vec<ImplParam>,
    pub to_result_params: Vec<ImplParam>,
}

/// Whether parameter `p` is the type parameter named `name`.
pub open spec fn is_type_param_named(p: GenericDef, name: String) -> bool {
    p matches GenericDef::Type(t) && t@ == name@
}

/// The item's parameters, without the type parameter named `output`.
pub open spec fn kept_params(params: Seq<GenericDef>, output: String) -> Seq<ImplParam> {
    Seq::new(params.len(), |i: int| ImplParam::Item(i as usize)).filter(
        |p: ImplParam| !is_type_param_named(params[p->Item_0 as int], output),
    )
}

/// Derives the conversions between the enum and `Result`. `Try` must be
/// derivable for `ast`.
pub fn impl_convert_result<'ast>(ast: &'ast ItemDef) -> (r: ConvertResultImpls<'ast>)
    requires
        !try_parse_fails(*ast),
        try_parse_error(ast) is None,
    ensures
        *r.name == ast.ident,
        *r.generics == ast.generics,
        is_residual_of(r.residual_type, *ast),
        r.from_result_params@ == Seq::new(
            ast.generics.params@.len(),
            |i: int| ImplParam::Item(i as usize),
        ).push(ImplParam::ResultEIntoSelf),
        r.to_result_params@ == kept_params(
            ast.generics.params@,
            ast.generics.params@[first_type_param(ast.generics.params@)->0]->Type_0,
        ) + seq![ImplParam::ResultT, ImplParam::ResultEFromResidual],
        forall|i: int|
            0 <= i < ast.generics.params@.len() && !(ast.generics.params@[i] matches GenericDef::Type(
                t,
            ) && t@ == ast.generics.params@[first_type_param(ast.generics.params@)->0]->Type_0@)
                ==> #[trigger] r.to_result_params@.contains(ImplParam::Item(i as usize)),
{
    let parsed = match TryEnum::try_parse(ast) {
        Ok(t) => t,
        Err(_) => vstd::pervasive::unreached(),
    };
    let params = &ast.generics.params;
    let ghost output = *parsed.output_type_name;
    let ghost all = Seq::new(params@.len(), |i: int| ImplParam::Item(i as usize));
    let ghost keep = |p: ImplParam| !is_type_param_named(params@[p->Item_0 as int], output);
    let mut from_result_params: Vec<ImplParam> = Vec::new();
    let mut to_result_params: Vec<ImplParam> = Vec::new();
    let mut i: usize = 0;
    while i < params.len()
        invariant
            0 <= i <= params@.len(),
            params == &ast.generics.params,
            output == *parsed.output_type_name,
            all == Seq::new(params@.len(), |i: int| ImplParam::Item(i as usize)),
            keep == (|p: ImplParam| !is_type_param_named(params@[p->Item_0 as int], output)),
            from_result_params@ == all.take(i as int),
            to_result_params@ == all.take(i as int).filter(keep),
        decreases params@.len() - i,
    {
        from_result_params.push(ImplParam::Item(i));
        let keep_it = match &params[i] {
            GenericDef::Type(t) => !same_ident(t, parsed.output_type_name),
            _ => true,
        };
        proof {
            assert(keep(ImplParam::Item(i)) == keep_it);
            assert(all.take(i + 1) == all.take(i as int).push(ImplParam::Item(i)));
            all.take(i as int).lemma_filter_push(ImplParam::Item(i), keep);
        }
        if keep_it {
            to_result_params.push(ImplParam::Item(i));
        }
        i = i + 1;
    }
    proof {
        assert(all.take(params@.len() as int) == all);
    }
    from_result_params.push(ImplParam::ResultEIntoSelf);
    to_result_params.push(ImplParam::ResultT);
    to_result_params.push(ImplParam::ResultEFromResidual);
    proof {
        let first = ast.generics.params@[first_type_param(ast.generics.params@)->0]->Type_0;
        let kept = kept_params(params@, first);
        assert(params@.len() == params.len());
        crate::laws::law_kept_params_complete(params@, first);
        assert(to_result_params@ == kept + seq![ImplParam::ResultT, ImplParam::ResultEFromResidual]);
        assert forall|i: int|
            0 <= i < params@.len() && !(params@[i] matches GenericDef::Type(t) && t@ == first@)
                implies #[trigger] to_result_params@.contains(ImplParam::Item(i as usize)) by {
            assert(kept.contains(ImplParam::Item(i as usize)));
            let j = choose|j: int| 0 <= j < kept.len() && kept[j] == ImplParam::Item(i as usize);
            assert(to_result_params@[j] == kept[j]);
        }
    }
    ConvertResultImpls {
        name: parsed.name,
        generics: &ast.generics,
        residual_type: parsed.residual_type,
        from_result_params,
        to_result_params,
    }
}

} // verus!
