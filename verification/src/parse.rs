//! Validation of an item for deriving `Try`, and the match arms of the
//! derived `branch` and `from_residual`.
use crate::arms::{
    is_output_branch_arm, is_residual_variant_arms, named_fields_have_names,
    residual_variant_arms, Bindings, BranchArm, ResidualArm,
};
use crate::diagnostic::{Diagnostic, ErrorKind, Help, HelpText, Span};
use crate::syntax::{
    clone_generics, clone_params, same_generics, GenericDef,
    first_type_param, first_type_param_ident, generate_residual, get_ident, is_residual_of,
    names_ident, same_ident, ItemData, ItemDef, FieldDef, FieldList,
    GenericList, ResidualType, SynType, VariantDef,
};
use vstd::prelude::*;

verus! {

/// How the output variant stores the `Output` type: a valid `Output` type is
/// the single identifier of the first type parameter, or a reference to it.
#[derive(Debug, PartialEq, Eq)]
pub enum OutputType<'ast> {
    Owned { name: &'ast String, ty: &'ast SynType },
    Ref { name: &'ast String, ty: &'ast SynType, lifetime: &'ast String },
}

/// A failure described by its kind and its help notes.
pub open spec fn is_error<'a>(d: Diagnostic<'a>, kind: ErrorKind, helps: Seq<Help<'a>>) -> bool {
    d.kind == kind && d.helps@ == helps
}

/// The types on which checking a candidate `Output` type fails by an
/// assertion: a reference without a lifetime.
pub open spec fn output_check_fails(ty: SynType) -> bool {
    ty matches SynType::Reference { lifetime, .. } && lifetime is None
}

/// The help notes of a failed `Output` type check.
pub open spec fn output_error_helps<'a>(first: &'a String, span: Span, text: HelpText<'a>) -> Seq<
    Help<'a>,
> {
    seq![Help { span: Span::FirstGeneric, text: HelpText::OutputDefinedHere }, Help { span, text }]
}

/// What checking `ty` as the `Output` type gives, for the first type
/// parameter `first`: the kind of output type, or the help notes of the
/// error.
pub open spec fn output_type_of<'a>(ty: &'a SynType, first: &'a String) -> Result<
    OutputType<'a>,
    Seq<Help<'a>>,
> {
    match *ty {
        SynType::Path(tp) => if names_ident(*ty, *first) {
            Ok(OutputType::Owned { name: &tp.segments@[0].ident, ty })
        } else {
            Err(output_error_helps(first, Span::OutputType, HelpText::ChangeTo(first)))
        },
        SynType::Reference { lifetime, elem } => if names_ident(*elem, *first) {
            Ok(
                OutputType::Ref {
                    name: &elem->Path_0.segments@[0].ident,
                    ty,
                    lifetime: &lifetime->0,
                },
            )
        } else {
            Err(
                output_error_helps(
                    first,
                    Span::OutputType,
                    HelpText::ChangeToRef(&lifetime->0, first),
                ),
            )
        },
        SynType::Other => Err(
            output_error_helps(first, Span::OutputType, HelpText::ChangeTo(first)),
        ),
    }
}

/// The identifier of `t` when `t` is exactly the identifier `first`.
fn checked_name<'ast>(t: &'ast SynType, first: &String) -> (r: Option<&'ast String>)
    ensures
        match r {
            Some(name) => names_ident(*t, *first) && *name == t->Path_0.segments@[0].ident,
            None => !names_ident(*t, *first),
        },
{
    match t {
        SynType::Path(tp) => match get_ident(tp) {
            Some(ident) => if same_ident(ident, first) {
                Some(ident)
            } else {
                None
            },
            None => None,
        },
        _ => None,
    }
}

fn output_error<'ast>(first: &'ast String, span: Span, text: HelpText<'ast>) -> (r: Diagnostic<
    'ast,
>)
    ensures
        is_error(
            r,
            ErrorKind::OutputNotFirstGeneric,
            output_error_helps(first, span, text),
        ),
{
    let d = Diagnostic::error(ErrorKind::OutputNotFirstGeneric).add_help(
        Span::FirstGeneric,
        HelpText::OutputDefinedHere,
    ).add_help(span, text);
    proof {
        assert(d.helps@ =~= output_error_helps(first, span, text));
    }
    d
}

impl<'ast> OutputType<'ast> {
    /// The identifier of the `Output` type.
    pub fn name(&self) -> (r: &'ast String)
        ensures
            r == match *self {
                OutputType::Owned { name, .. } => name,
                OutputType::Ref { name, .. } => name,
            },
    {
        match self {
            OutputType::Owned { name, .. } => name,
            OutputType::Ref { name, .. } => name,
        }
    }

    /// The type stored in the output variant.
    pub fn ty(&self) -> (r: &'ast SynType)
        ensures
            r == match *self {
                OutputType::Owned { ty, .. } => ty,
                OutputType::Ref { ty, .. } => ty,
            },
    {
        match self {
            OutputType::Owned { ty, .. } => ty,
            OutputType::Ref { ty, .. } => ty,
        }
    }

    /// Checks that `ty` stores the first type parameter `first`: as itself
    /// or behind a reference. Any other type, a container of `first` among
    /// them, is refused.
    pub fn try_from(pair: (&'ast SynType, &'ast String)) -> (r: Result<Self, Diagnostic<'ast>>)
        requires
            !output_check_fails(*pair.0),
        ensures
            match output_type_of(pair.0, pair.1) {
                Ok(o) => r == Ok::<Self, Diagnostic<'ast>>(o),
                Err(helps) => r matches Err(d) && is_error(
                    d,
                    ErrorKind::OutputNotFirstGeneric,
                    helps,
                ),
            },
    {
        let (ty, first) = pair;
        match ty {
            SynType::Path(_) => match checked_name(ty, first) {
                Some(name) => Ok(OutputType::Owned { name, ty }),
                None => Err(output_error(first, Span::OutputType, HelpText::ChangeTo(first))),
            },
            SynType::Reference { lifetime, elem } => {
                let lifetime = match lifetime {
                    Some(l) => l,
                    None => vstd::pervasive::unreached(),
                };
                match checked_name(elem, first) {
                    Some(name) => Ok(OutputType::Ref { name, ty, lifetime }),
                    None => Err(
                        output_error(
                            first,
                            Span::OutputType,
                            HelpText::ChangeToRef(lifetime, first),
                        ),
                    ),
                }
            },
            SynType::Other => Err(output_error(first, Span::OutputType, HelpText::ChangeTo(first))),
        }
    }
}

/// An enum that `Try` can be derived for, taken apart.
#[derive(Debug, PartialEq, Eq)]
pub struct TryEnum<'ast> {
    pub name: &'ast String,
    pub enum_data: &'ast Vec<VariantDef>,
    pub output_variant_name: &'ast String,
    pub output_type: OutputType<'ast>,
    pub residual_type: ResidualType,
    pub generics: &'ast GenericList,
}

/// Whether `ty` is accepted as the `Output` type for the first type
/// parameter `first`.
pub open spec fn stores_output(ty: SynType, first: String) -> bool {
    output_type_of(&ty, &first) is Ok
}

/// The index of the first field at or after `from` that stores the
/// `Output` type.
pub open spec fn first_usage_from(fields: Seq<FieldDef>, first: String, from: int) -> Option<int>
    decreases fields.len() - from,
{
    if from < 0 || from >= fields.len() {
        None
    } else if stores_output(fields[from].ty, first) {
        Some(from)
    } else {
        first_usage_from(fields, first, from + 1)
    }
}

/// The index of the first field that stores the `Output` type.
pub open spec fn first_usage(fields: Seq<FieldDef>, first: String) -> Option<int> {
    first_usage_from(fields, first, 0)
}

proof fn lemma_first_usage_from(fields: Seq<FieldDef>, first: String, from: int)
    requires
        0 <= from <= fields.len(),
    ensures
        first_usage_from(fields, first, from) matches Some(j) ==> from <= j < fields.len()
            && stores_output(fields[j].ty, first) && forall|i: int|
            from <= i < j ==> !stores_output(#[trigger] fields[i].ty, first),
        first_usage_from(fields, first, from) is None ==> forall|i: int|
            from <= i < fields.len() ==> !stores_output(#[trigger] fields[i].ty, first),
    decreases fields.len() - from,
{
    if from < fields.len() {
        lemma_first_usage_from(fields, first, from + 1);
    }
}

/// The fields that are checked while looking for the first one that stores
/// the `Output` type: up to and including that one, or all of them.
pub open spec fn checked_fields(fields: Seq<FieldDef>, first: String) -> int {
    match first_usage(fields, first) {
        Some(j) => j + 1,
        None => fields.len() as int,
    }
}

/// The items on which `TryEnum::parse` fails by an assertion.
pub open spec fn parse_fails(ast: ItemDef) -> bool {
    &&& ast.data matches ItemData::Enum(variants)
    &&& variants@.len() > 0
    &&& first_type_param(ast.generics.params@) matches Some(k)
    &&& variants@[0].fields matches FieldList::Unnamed(fields)
    &&& {
        let first = ast.generics.params@[k]->Type_0;
        if fields@.len() == 1 {
            output_check_fails(fields@[0].ty)
        } else {
            exists|i: int|
                0 <= i < checked_fields(fields@, first) && output_check_fails(
                    #[trigger] fields@[i].ty,
                )
        }
    }
}

/// What `TryEnum::parse` gives: the kind of output type, or the error.
pub open spec fn parse_outcome<'a>(ast: &'a ItemDef) -> Result<
    OutputType<'a>,
    (ErrorKind, Seq<Help<'a>>),
> {
    match ast.data {
        ItemData::Struct => Err(
            (
                ErrorKind::NotAnEnum,
                seq![Help { span: Span::StructToken, text: HelpText::NotAnEnum }],
            ),
        ),
        ItemData::Union => Err(
            (
                ErrorKind::NotAnEnum,
                seq![Help { span: Span::UnionToken, text: HelpText::NotAnEnum }],
            ),
        ),
        ItemData::Enum(variants) => if variants@.len() == 0 {
            Err(
                (
                    ErrorKind::NoVariants,
                    seq![Help { span: Span::Brace, text: HelpText::AddVariants }],
                ),
            )
        } else {
            match first_type_param(ast.generics.params@) {
                None => Err(
                    (
                        ErrorKind::MissingOutputGeneric,
                        seq![Help { span: Span::Name, text: HelpText::AddGeneric }],
                    ),
                ),
                Some(k) => {
                    let first = &ast.generics.params@[k]->Type_0;
                    let defined = Help { span: Span::FirstGeneric, text: HelpText::OutputDefinedHere };
                    match variants@[0].fields {
                        FieldList::Unnamed(fields) => if fields@.len() == 1 {
                            match output_type_of(&fields@[0].ty, first) {
                                Ok(o) => Ok(o),
                                Err(helps) => Err((ErrorKind::OutputNotFirstGeneric, helps)),
                            }
                        } else {
                            let text = match first_usage(fields@, *first) {
                                Some(j) => match output_type_of(&fields@[j].ty, first) {
                                    Ok(OutputType::Ref { lifetime, .. }) => HelpText::ChangeToRefTuple(
                                        lifetime,
                                        first,
                                    ),
                                    _ => HelpText::ChangeToTuple(first),
                                },
                                None => HelpText::ChangeToTuple(first),
                            };
                            Err(
                                (
                                    ErrorKind::SingleOutputRequired,
                                    seq![defined, Help { span: Span::OutputFields, text }],
                                ),
                            )
                        },
                        FieldList::Unit => Err(
                            (
                                ErrorKind::MissingOutputGeneric,
                                seq![
                                    defined,
                                    Help {
                                        span: Span::OutputVariant,
                                        text: HelpText::AddTupleAfter(first),
                                    },
                                ],
                            ),
                        ),
                        FieldList::Named(_) => Err(
                            (
                                ErrorKind::UnnamedOutputRequired,
                                seq![
                                    defined,
                                    Help {
                                        span: Span::OutputFields,
                                        text: HelpText::ChangeToTuple(first),
                                    },
                                ],
                            ),
                        ),
                    }
                },
            }
        },
    }
}

/// The help text for an output variant with several unnamed fields:
/// suggests the form of the first field that stores the `Output` type.
fn several_fields_help<'ast>(fields: &'ast Vec<FieldDef>, first: &'ast String) -> (r: HelpText<'ast>)
    requires
        forall|i: int|
            0 <= i < checked_fields(fields@, *first) ==> !output_check_fails(
                #[trigger] fields@[i].ty,
            ),
    ensures
        r == match first_usage(fields@, *first) {
            Some(j) => match output_type_of(&fields@[j].ty, first) {
                Ok(OutputType::Ref { lifetime, .. }) => HelpText::ChangeToRefTuple(lifetime, first),
                _ => HelpText::ChangeToTuple(first),
            },
            None => HelpText::ChangeToTuple(first),
        },
{
    proof {
        lemma_first_usage_from(fields@, *first, 0);
    }
    let mut i: usize = 0;
    while i < fields.len()
        invariant
            0 <= i <= fields@.len(),
            forall|j: int| 0 <= j < i ==> !stores_output(#[trigger] fields@[j].ty, *first),
            forall|j: int|
                0 <= j < checked_fields(fields@, *first) ==> !output_check_fails(
                    #[trigger] fields@[j].ty,
                ),
            first_usage(fields@, *first) matches Some(j) ==> i <= j,
        decreases fields@.len() - i,
    {
        proof {
            lemma_first_usage_from(fields@, *first, 0);
        }
        match OutputType::try_from((&fields[i].ty, first)) {
            Ok(found) => {
                assert(stores_output(fields@[i as int].ty, *first));
                assert(first_usage(fields@, *first) == Some(i as int));
                return match found {
                    OutputType::Ref { lifetime, .. } => HelpText::ChangeToRefTuple(lifetime, first),
                    OutputType::Owned { .. } => HelpText::ChangeToTuple(first),
                };
            },
            Err(_) => {
                assert(!stores_output(fields@[i as int].ty, *first));
            },
        }
        i = i + 1;
    }
    proof {
        lemma_first_usage_from(fields@, *first, 0);
    }
    HelpText::ChangeToTuple(first)
}

impl<'ast> TryEnum<'ast> {
    /// Checks that `Try` can be derived for `ast`, and takes it apart.
    pub fn parse(ast: &'ast ItemDef) -> (r: Result<Self, Diagnostic<'ast>>)
        requires
            !parse_fails(*ast),
        ensures
            match parse_outcome(ast) {
                Ok(o) => r matches Ok(t) && t.name == &ast.ident && t.enum_data
                    == &ast.data->Enum_0 && t.output_variant_name
                    == &ast.data->Enum_0@[0].ident && t.output_type == o && t.generics
                    == &ast.generics && is_residual_of(t.residual_type, *ast),
                Err((kind, helps)) => r matches Err(d) && is_error(d, kind, helps),
            },
    {
        let enum_data: &Vec<VariantDef> = match &ast.data {
            ItemData::Enum(enum_data) => enum_data,
            ItemData::Struct => {
                return Err(
                    Diagnostic::with_helps(
                        ErrorKind::NotAnEnum,
                        Help { span: Span::StructToken, text: HelpText::NotAnEnum },
                        None,
                    ),
                );
            },
            ItemData::Union => {
                return Err(
                    Diagnostic::with_helps(
                        ErrorKind::NotAnEnum,
                        Help { span: Span::UnionToken, text: HelpText::NotAnEnum },
                        None,
                    ),
                );
            },
        };
        let name: &String = &ast.ident;
        if enum_data.len() == 0 {
            return Err(
                Diagnostic::with_helps(
                    ErrorKind::NoVariants,
                    Help { span: Span::Brace, text: HelpText::AddVariants },
                    None,
                ),
            );
        }
        let output_variant: &VariantDef = &enum_data[0];
        let output_variant_name: &String = &output_variant.ident;
        let first_generic_type: &String = match first_type_param_ident(&ast.generics) {
            Some(first) => first,
            None => {
                return Err(
                    Diagnostic::with_helps(
                        ErrorKind::MissingOutputGeneric,
                        Help { span: Span::Name, text: HelpText::AddGeneric },
                        None,
                    ),
                );
            },
        };
        let defined = Help { span: Span::FirstGeneric, text: HelpText::OutputDefinedHere };
        let output_ty: &SynType = match &output_variant.fields {
            FieldList::Unnamed(fields) => {
                if fields.len() == 1 {
                    &fields[0].ty
                } else {
                    let text = several_fields_help(fields, first_generic_type);
                    return Err(
                        Diagnostic::with_helps(
                            ErrorKind::SingleOutputRequired,
                            defined,
                            Some(Help { span: Span::OutputFields, text }),
                        ),
                    );
                }
            },
            FieldList::Unit => {
                let second = Help {
                    span: Span::OutputVariant,
                    text: HelpText::AddTupleAfter(first_generic_type),
                };
                return Err(
                    Diagnostic::with_helps(ErrorKind::MissingOutputGeneric, defined, Some(second)),
                );
            },
            FieldList::Named(_) => {
                let second = Help {
                    span: Span::OutputFields,
                    text: HelpText::ChangeToTuple(first_generic_type),
                };
                return Err(
                    Diagnostic::with_helps(ErrorKind::UnnamedOutputRequired, defined, Some(second)),
                );
            },
        };
        let output_type = match OutputType::try_from((output_ty, first_generic_type)) {
            Ok(o) => o,
            Err(e) => {
                return Err(e);
            },
        };
        let residual_type = generate_residual(ast);
        Ok(
            TryEnum {
                name,
                enum_data,
                output_variant_name,
                output_type,
                residual_type,
                generics: &ast.generics,
            },
        )
    }
}

/// The arm of `from_residual` for the output variant, which depends on how
/// it stores the `Output` type.
pub open spec fn output_residual_arm<'a>(o: OutputType<'a>, variant: &'a String) -> Option<
    ResidualArm<'a>,
> {
    match o {
        OutputType::Owned { .. } => None,
        OutputType::Ref { .. } => Some(ResidualArm::DerefNever { variant }),
    }
}

impl<'ast> TryEnum<'ast> {
    /// Creates the match arms for `branch` and `from_residual`, one of each
    /// per variant (the output variant may have no arm in `from_residual`).
    pub fn generate_arms(&self) -> (r: (Vec<BranchArm<'ast>>, Vec<Option<ResidualArm<'ast>>>))
        requires
            forall|i: int|
                0 <= i < self.enum_data@.len() ==> named_fields_have_names(
                    (#[trigger] self.enum_data@[i]).fields,
                ),
        ensures
            r.0@.len() == self.enum_data@.len(),
            r.1@.len() == self.enum_data@.len(),
            forall|i: int|
                0 <= i < self.enum_data@.len() ==> {
                    let v = #[trigger] self.enum_data@[i];
                    if v.ident@ == self.output_variant_name@ {
                        is_output_branch_arm(r.0@[i], v) && r.1@[i] == output_residual_arm(
                            self.output_type,
                            &v.ident,
                        )
                    } else {
                        is_residual_variant_arms(r.0@[i], r.1@[i], v)
                    }
                },
            forall|i: int|
                0 <= i < self.enum_data@.len() && (#[trigger] self.enum_data@[i]).ident@
                    == self.output_variant_name@ ==> {
                    &&& (r.1@[i] is None <==> self.output_type is Owned)
                    &&& self.output_type is Ref ==> r.1@[i] == Some(
                        ResidualArm::DerefNever { variant: &self.enum_data@[i].ident },
                    )
                },
    {
        let data: &'ast Vec<crate::syntax::VariantDef> = self.enum_data;
        let mut branch_arms: Vec<BranchArm<'ast>> = Vec::new();
        let mut residual_arms: Vec<Option<ResidualArm<'ast>>> = Vec::new();
        let mut i: usize = 0;
        while i < data.len()
            invariant
                data == self.enum_data,
                0 <= i <= data@.len(),
                branch_arms@.len() == i,
                residual_arms@.len() == i,
                forall|k: int|
                    0 <= k < data@.len() ==> named_fields_have_names((#[trigger] data@[k]).fields),
                forall|k: int|
                    0 <= k < i ==> {
                        let v = #[trigger] data@[k];
                        if v.ident@ == self.output_variant_name@ {
                            is_output_branch_arm(branch_arms@[k], v) && residual_arms@[k]
                                == output_residual_arm(self.output_type, &v.ident)
                        } else {
                            is_residual_variant_arms(branch_arms@[k], residual_arms@[k], v)
                        }
                    },
            decreases data@.len() - i,
        {
            let variant: &'ast crate::syntax::VariantDef = &data[i];
            if same_ident(&variant.ident, self.output_variant_name) {
                let branch_arm = BranchArm {
                    variant: &variant.ident,
                    bindings: Bindings::Positional(1),
                    continues: true,
                };
                let residual_arm = match self.output_type {
                    OutputType::Owned { .. } => None,
                    OutputType::Ref { .. } => Some(ResidualArm::DerefNever { variant: &variant.ident }),
                };
                branch_arms.push(branch_arm);
                residual_arms.push(residual_arm);
            } else {
                let (branch_arm, residual_arm) = residual_variant_arms(variant);
                branch_arms.push(branch_arm);
                residual_arms.push(residual_arm);
            }
            i = i + 1;
        }
        (branch_arms, residual_arms)
    }

    /// A copy of the enum's generics after applying `change` to it.
    pub fn generics<C>(&self, change: C) -> (r: GenericList) where C: FnOnce(GenericList) -> GenericList
        requires
            forall|g: GenericList| #[trigger]
                same_generics(g, *self.generics) ==> call_requires(change, (g,)),
        ensures
            exists|g: GenericList| #[trigger]
                same_generics(g, *self.generics) && call_ensures(change, (g,), r),
    {
        let generics = clone_generics(self.generics);
        change(generics)
    }

    /// A copy of the enum's generics whose parameters are those that
    /// `adaptor` makes of a copy of the enum's parameters.
    pub fn generics_with_params<P>(&self, adaptor: P) -> (r: GenericList) where
        P: FnOnce(Vec<GenericDef>) -> Vec<GenericDef>,
        requires
            forall|ps: Vec<GenericDef>| #[trigger]
                ps@ == self.generics.params@ ==> call_requires(adaptor, (ps,)),
        ensures
            r.has_where_clause == self.generics.has_where_clause,
            exists|ps: Vec<GenericDef>| #[trigger]
                ps@ == self.generics.params@ && call_ensures(adaptor, (ps,), r.params),
    {
        let mut generics = clone_generics(self.generics);
        let params = clone_params(&generics.params);
        generics.params = adaptor(params);
        generics
    }

    /// The parts of the enum that a derived impl is written with: its name,
    /// the output variant's name, the `Output` type and its identifier, the
    /// residual type and the generics.
    pub fn split_for_impl(&'ast self) -> (r: (
        &'ast String,
        &'ast String,
        &'ast SynType,
        &'ast String,
        &'ast ResidualType,
        &'ast GenericList,
    ))
        ensures
            r.0 == self.name,
            r.1 == self.output_variant_name,
            r.2 == match self.output_type {
                OutputType::Owned { ty, .. } => ty,
                OutputType::Ref { ty, .. } => ty,
            },
            r.3 == match self.output_type {
                OutputType::Owned { name, .. } => name,
                OutputType::Ref { name, .. } => name,
            },
            r.4 == &self.residual_type,
            r.5 == self.generics,
    {
        (
            self.name,
            self.output_variant_name,
            self.output_type.ty(),
            self.output_type.name(),
            &self.residual_type,
            self.generics,
        )
    }
}

} // verus!
