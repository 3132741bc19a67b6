//! A model of the parts of an item definition that deriving `Try` reads:
//! the item's name, its generic parameters and, for an enum, its variants
//! and the types of their fields.
use vstd::prelude::*;

verus! {

/// A type as written in a field.
#[derive(Debug, PartialEq, Eq)]
pub enum SynType {
    /// A path such as `T`, `Vec<T>` or `std::vec::Vec<T>`.
    Path(TypePath),
    /// A reference `&'a T` (the lifetime is written with its apostrophe).
    Reference { lifetime: Option<String>, elem: Box<SynType> },
    /// Any other kind of type (tuple, slice, array, function pointer, ...).
    Other,
}

/// A path type.
#[derive(Debug, PartialEq, Eq)]
pub struct TypePath {
    /// Whether the path starts with `::`.
    pub leading_colon: bool,
    pub segments: Vec<PathSegment>,
}

/// One segment of a path with its arguments.
#[derive(Debug, PartialEq, Eq)]
pub struct PathSegment {
    pub ident: String,
    pub arguments: SegmentArguments,
}

/// The arguments of a path segment.
#[derive(Debug, PartialEq, Eq)]
pub enum SegmentArguments {
    /// No arguments.
    Empty,
    /// `<A, B, ...>`
    AngleBracketed(Vec<TypeArgument>),
    /// `(A, B) -> C`
    Parenthesized,
}

/// One argument between angle brackets.
#[derive(Debug, PartialEq, Eq)]
pub enum TypeArgument {
    Type(SynType),
    /// A lifetime, a constant, an associated type binding or a constraint.
    Other,
}

/// A field of a variant.
#[derive(Debug, PartialEq, Eq)]
pub struct FieldDef {
    /// The field's name, for a named field.
    pub ident: Option<String>,
    pub ty: SynType,
}

/// The fields of a variant.
#[derive(Debug, PartialEq, Eq)]
pub enum FieldList {
    /// `V { a: A, b: B }`
    Named(Vec<FieldDef>),
    /// `V(A, B)`
    Unnamed(Vec<FieldDef>),
    /// `V`
    Unit,
}

/// A variant of an enum.
#[derive(Debug, PartialEq, Eq)]
pub struct VariantDef {
    pub ident: String,
    pub fields: FieldList,
}

/// The body of the item.
#[derive(Debug, PartialEq, Eq)]
pub enum ItemData {
    Enum(Vec<VariantDef>),
    Struct,
    Union,
}

/// A generic parameter.
#[derive(Debug, PartialEq, Eq)]
pub enum GenericDef {
    /// A lifetime parameter such as `'a` (written with its apostrophe).
    Lifetime(String),
    /// A type parameter such as `T` (its bounds are kept by the caller).
    Type(String),
    /// A const parameter such as `N`.
    Const(String),
}

/// The generic parameters of the item, in the order they are declared.
#[derive(Debug, PartialEq, Eq)]
pub struct GenericList {
    pub params: Vec<GenericDef>,
    /// Whether the item has a `where` clause.
    pub has_where_clause: bool,
}

/// The item a derive is applied to.
#[derive(Debug, PartialEq, Eq)]
pub struct ItemDef {
    pub ident: String,
    pub generics: GenericList,
    pub data: ItemData,
}

/// An argument of the residual type: the generic arguments of the item, with
/// the first type argument replaced by `!`.
#[derive(Debug, PartialEq, Eq)]
pub enum ResidualArg {
    Lifetime(String),
    Type(String),
    Const(String),
    Never,
}

/// The residual type `Name<args>` of a derived `Try` impl.
#[derive(Debug, PartialEq, Eq)]
pub struct ResidualType {
    pub name: String,
    pub args: Vec<ResidualArg>,
}

/// The identifier of a path, when the path is a single plain identifier
/// (no leading `::`, one segment, no arguments).
pub open spec fn path_ident(tp: TypePath) -> Option<String> {
    if !tp.leading_colon && tp.segments@.len() == 1 && tp.segments@[0].arguments is Empty {
        Some(tp.segments@[0].ident)
    } else {
        None
    }
}

/// Executable `path_ident`.
pub fn get_ident(tp: &TypePath) -> (r: Option<&String>)
    ensures
        match path_ident(*tp) {
            Some(id) => r matches Some(x) && *x == id,
            None => r is None,
        },
{
    if !tp.leading_colon && tp.segments.len() == 1 {
        match &tp.segments[0].arguments {
            SegmentArguments::Empty => Some(&tp.segments[0].ident),
            _ => None,
        }
    } else {
        None
    }
}

/// Whether a type is a path that is exactly the identifier `name`.
pub open spec fn names_ident(ty: SynType, name: String) -> bool {
    ty matches SynType::Path(tp) && path_ident(tp) matches Some(id) && id@ == name@
}

/// Whether `ident` is the same identifier as `name`.
pub fn same_ident(ident: &String, name: &String) -> (r: bool)
    ensures
        r == (ident@ == name@),
{
    *ident == *name
}

/// Executable `names_ident`.
pub fn type_names_ident(ty: &SynType, name: &String) -> (r: bool)
    ensures
        r == names_ident(*ty, *name),
{
    match ty {
        SynType::Path(tp) => match get_ident(tp) {
            Some(id) => same_ident(id, name),
            None => false,
        },
        _ => false,
    }
}

/// The index of the first type parameter at or after `from`, if any.
pub open spec fn first_type_param_from(params: Seq<GenericDef>, from: int) -> Option<int>
    decreases params.len() - from,
{
    if from < 0 || from >= params.len() {
        None
    } else if params[from] is Type {
        Some(from)
    } else {
        first_type_param_from(params, from + 1)
    }
}

/// The index of the first type parameter, if any.
pub open spec fn first_type_param(params: Seq<GenericDef>) -> Option<int> {
    first_type_param_from(params, 0)
}

proof fn lemma_first_type_param_from(params: Seq<GenericDef>, from: int)
    requires
        0 <= from <= params.len(),
    ensures
        first_type_param_from(params, from) matches Some(k) ==> from <= k < params.len()
            && params[k] is Type && forall|j: int| from <= j < k ==> !(params[j] is Type),
        first_type_param_from(params, from) is None ==> forall|j: int|
            from <= j < params.len() ==> !(params[j] is Type),
    decreases params.len() - from,
{
    if from < params.len() {
        lemma_first_type_param_from(params, from + 1);
    }
}

/// Characterises `first_type_param`: the least index of a type parameter.
pub proof fn lemma_first_type_param(params: Seq<GenericDef>)
    ensures
        first_type_param(params) matches Some(k) ==> 0 <= k < params.len() && params[k] is Type
            && forall|j: int| 0 <= j < k ==> !(params[j] is Type),
        first_type_param(params) is None ==> forall|j: int|
            0 <= j < params.len() ==> !(params[j] is Type),
{
    lemma_first_type_param_from(params, 0);
}

/// The identifier of the first type parameter, if any.
pub fn first_type_param_ident(generics: &GenericList) -> (r: Option<&String>)
    ensures
        match first_type_param(generics.params@) {
            Some(k) => r matches Some(x) && *x == generics.params@[k]->Type_0,
            None => r is None,
        },
{
    proof {
        lemma_first_type_param(generics.params@);
    }
    let mut i: usize = 0;
    while i < generics.params.len()
        invariant
            0 <= i <= generics.params@.len(),
            forall|j: int| 0 <= j < i ==> !(generics.params@[j] is Type),
        decreases generics.params@.len() - i,
    {
        match &generics.params[i] {
            GenericDef::Type(ident) => {
                proof {
                    lemma_first_type_param(generics.params@);
                }
                return Some(ident);
            },
            _ => {},
        }
        i = i + 1;
    }
    None
}

/// Every named field of every variant of the item carries its name.
pub open spec fn every_named_field_named(ast: ItemDef) -> bool {
    ast.data matches ItemData::Enum(vs) ==> forall|i: int|
        0 <= i < vs@.len() ==> ((#[trigger] vs@[i]).fields matches FieldList::Named(fs)
            ==> forall|j: int| 0 <= j < fs@.len() ==> (#[trigger] fs@[j]).ident is Some)
}

/// The residual argument standing for parameter `p` at index `i` when the
/// first type parameter is at index `k`.
pub open spec fn residual_arg_spec(p: GenericDef, i: int, k: int) -> ResidualArg {
    if i == k {
        ResidualArg::Never
    } else {
        match p {
            GenericDef::Lifetime(l) => ResidualArg::Lifetime(l),
            GenericDef::Type(t) => ResidualArg::Type(t),
            GenericDef::Const(c) => ResidualArg::Const(c),
        }
    }
}

/// Two residual arguments that agree in kind and in the text they hold.
pub open spec fn same_residual_arg(a: ResidualArg, b: ResidualArg) -> bool {
    match (a, b) {
        (ResidualArg::Lifetime(x), ResidualArg::Lifetime(y)) => x@ == y@,
        (ResidualArg::Type(x), ResidualArg::Type(y)) => x@ == y@,
        (ResidualArg::Const(x), ResidualArg::Const(y)) => x@ == y@,
        (ResidualArg::Never, ResidualArg::Never) => true,
        _ => false,
    }
}

/// `r` is the residual type of `input`: the item's name with its generic
/// arguments, the first type argument replaced by `!`.
pub open spec fn is_residual_of(r: ResidualType, input: ItemDef) -> bool {
    let params = input.generics.params@;
    &&& first_type_param(params) matches Some(k)
    &&& r.name@ == input.ident@
    &&& r.args@.len() == params.len()
    &&& forall|i: int|
        0 <= i < params.len() ==> same_residual_arg(
            #[trigger] r.args@[i],
            residual_arg_spec(params[i], i, first_type_param(params)->0),
        )
}

/// Two lists of generics hold the same parameters and agree on having a
/// `where` clause.
pub open spec fn same_generics(a: GenericList, b: GenericList) -> bool {
    a.params@ == b.params@ && a.has_where_clause == b.has_where_clause
}

fn clone_param(p: &GenericDef) -> (r: GenericDef)
    ensures
        r == *p,
{
    match p {
        GenericDef::Lifetime(l) => GenericDef::Lifetime(l.clone()),
        GenericDef::Type(t) => GenericDef::Type(t.clone()),
        GenericDef::Const(c) => GenericDef::Const(c.clone()),
    }
}

/// A copy of a list of generic parameters.
pub fn clone_params(params: &Vec<GenericDef>) -> (r: Vec<GenericDef>)
    ensures
        r@ == params@,
{
    let mut r: Vec<GenericDef> = Vec::new();
    let mut i: usize = 0;
    while i < params.len()
        invariant
            0 <= i <= params@.len(),
            r@ == params@.take(i as int),
        decreases params@.len() - i,
    {
        r.push(clone_param(&params[i]));
        i = i + 1;
        proof {
            assert(r@ =~= params@.take(i as int));
        }
    }
    proof {
        assert(params@.take(params@.len() as int) =~= params@);
    }
    r
}

/// A copy of the generics.
pub fn clone_generics(g: &GenericList) -> (r: GenericList)
    ensures
        same_generics(r, *g),
{
    GenericList { params: clone_params(&g.params), has_where_clause: g.has_where_clause }
}

fn copy_string(s: &String) -> (r: String)
    ensures
        r@ == s@,
{
    s.clone()
}

/// Generates the residual type: the item's name with its generic arguments,
/// the first type argument replaced by `!`. The item must have a type
/// parameter.
pub fn generate_residual(ast: &ItemDef) -> (r: ResidualType)
    requires
        first_type_param(ast.generics.params@) is Some,
    ensures
        is_residual_of(r, *ast),
        r.args@.len() == ast.generics.params@.len(),
        forall|i: int|
            0 <= i < ast.generics.params@.len() ==> ((#[trigger] r.args@[i] is Never) <==> (
            ast.generics.params@[i] is Type && forall|j: int|
                0 <= j < i ==> !(ast.generics.params@[j] is Type))),
{
    let params = &ast.generics.params;
    let ghost k = first_type_param(params@)->0;
    proof {
        lemma_first_type_param(params@);
    }
    let mut args: Vec<ResidualArg> = Vec::new();
    let mut replaced = false;
    let mut i: usize = 0;
    while i < params.len()
        invariant
            0 <= i <= params@.len(),
            params == &ast.generics.params,
            0 <= k < params@.len(),
            params@[k] is Type,
            forall|j: int| 0 <= j < k ==> !(params@[j] is Type),
            replaced == (k < i),
            args@.len() == i,
            forall|j: int|
                0 <= j < i ==> same_residual_arg(
                    #[trigger] args@[j],
                    residual_arg_spec(params@[j], j, k),
                ),
        decreases params@.len() - i,
    {
        let arg = match &params[i] {
            GenericDef::Lifetime(l) => ResidualArg::Lifetime(copy_string(l)),
            GenericDef::Type(t) => {
                if replaced {
                    ResidualArg::Type(copy_string(t))
                } else {
                    replaced = true;
                    ResidualArg::Never
                }
            },
            GenericDef::Const(c) => ResidualArg::Const(copy_string(c)),
        };
        args.push(arg);
        i = i + 1;
    }
    let r = ResidualType { name: copy_string(&ast.ident), args };
    proof {
        crate::laws::law_residual_replaces_first_type_only(r, *ast);
    }
    r
}

} // verus!
