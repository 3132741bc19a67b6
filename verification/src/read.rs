//! Reading the item a derive is applied to: `syn` parses the tokens, and the
//! parts of the syntax tree that deriving `Try` reads are copied into the
//! model of `crate::syntax`.
use crate::syntax;
use proc_macro2::TokenStream;
use vstd::prelude::*;

verus! {

/// `proc_macro2::TokenStream`: the tokens of the item.
#[verifier::external_type_specification]
#[verifier::external_body]
pub struct ExTokenStream(proc_macro2::TokenStream);

/// `syn::DeriveInput`: the parsed item.
#[verifier::external_type_specification]
#[verifier::external_body]
pub struct ExDeriveInput(syn::DeriveInput);

/// `syn::Generics`
#[verifier::external_type_specification]
#[verifier::external_body]
pub struct ExGenerics(syn::Generics);

/// `syn::GenericParam`
#[verifier::external_type_specification]
#[verifier::external_body]
pub struct ExGenericParam(syn::GenericParam);

/// `syn::Data`
#[verifier::external_type_specification]
#[verifier::external_body]
pub struct ExData(syn::Data);

/// `syn::Variant`
#[verifier::external_type_specification]
#[verifier::external_body]
pub struct ExVariant(syn::Variant);

/// `syn::Fields`
#[verifier::external_type_specification]
#[verifier::external_body]
pub struct ExFields(syn::Fields);

/// `syn::Field`
#[verifier::external_type_specification]
#[verifier::external_body]
pub struct ExField(syn::Field);

/// `syn::Type`
#[verifier::external_type_specification]
#[verifier::external_body]
pub struct ExType(syn::Type);

/// `syn::Path`
#[verifier::external_type_specification]
#[verifier::external_body]
pub struct ExPath(syn::Path);

/// `syn::PathArguments`
#[verifier::external_type_specification]
#[verifier::external_body]
pub struct ExPathArguments(syn::PathArguments);

/// `syn::GenericArgument`
#[verifier::external_type_specification]
#[verifier::external_body]
pub struct ExGenericArgument(syn::GenericArgument);

/// An item as parsed by `syn`, with the model of the parts that deriving
/// `Try` reads. The syntax tree is kept for writing the derived impls.
pub struct ParsedInput {
    pub syntax: syn::DeriveInput,
    pub model: syntax::ItemDef,
}

/// The model of the item that `syn::parse2::<syn::DeriveInput>` parses
/// from `input`, read as `read_item` reads it; `None` when `syn` reports an
/// error. `syn` parses from the tokens alone, so the same tokens give the
/// same result.
pub uninterp spec fn item_model_of(input: TokenStream) -> Option<syntax::ItemDef>;

/// Calls `syn::parse2::<syn::DeriveInput>` on the tokens and copies the
/// parsed item into the model. The result is the one `item_model_of` names:
/// `None` exactly when `syn` reports an error, and otherwise the model of the
/// item it parsed, beside the syntax tree itself. Every named field of the
/// parsed item carries its name: `syn` parses a named field with
/// `Field::parse_named`, which always sets `ident: Some(..)`, and the name is
/// copied as it is.
#[verifier::external_body]
fn parse_item(input: TokenStream) -> (r: Option<ParsedInput>)
    ensures
        match r {
            Some(p) => item_model_of(input) == Some(p.model),
            None => item_model_of(input) is None,
        },
        r matches Some(p) ==> syntax::every_named_field_named(p.model),
{
    match syn::parse2::<syn::DeriveInput>(input) {
        Ok(syntax) => {
            let model = read_item(&syntax);
            Some(ParsedInput { syntax, model })
        },
        Err(_) => None,
    }
}

/// Copies a parsed item into the model: its name (`Ident::to_string`), its
/// generics and its body. What it gives is named, with the parse, by
/// `item_model_of`.
#[verifier::external_body]
fn read_item(ast: &syn::DeriveInput) -> (r: syntax::ItemDef) {
    syntax::ItemDef {
        ident: ast.ident.to_string(),
        generics: read_generics(&ast.generics),
        data: read_data(&ast.data),
    }
}

/// Copies `syn::Generics`: each parameter, and whether there is a `where`
/// clause.
#[verifier::external_body]
fn read_generics(generics: &syn::Generics) -> (r: syntax::GenericList) {
    syntax::GenericList {
        params: generics.params.iter().map(read_param).collect(),
        has_where_clause: generics.where_clause.is_some(),
    }
}

/// Copies a `syn::GenericParam`: a lifetime (`'a`, `Lifetime::to_string`),
/// a type or a const parameter by its identifier.
#[verifier::external_body]
fn read_param(param: &syn::GenericParam) -> (r: syntax::GenericDef) {
    match param {
        syn::GenericParam::Lifetime(l) => syntax::GenericDef::Lifetime(l.lifetime.to_string()),
        syn::GenericParam::Type(t) => syntax::GenericDef::Type(t.ident.to_string()),
        syn::GenericParam::Const(c) => syntax::GenericDef::Const(c.ident.to_string()),
    }
}

/// Copies a `syn::Data`: the variants of an enum, or which other kind of
/// item it is.
#[verifier::external_body]
fn read_data(data: &syn::Data) -> (r: syntax::ItemData) {
    match data {
        syn::Data::Enum(e) => syntax::ItemData::Enum(e.variants.iter().map(read_variant).collect()),
        syn::Data::Struct(_) => syntax::ItemData::Struct,
        syn::Data::Union(_) => syntax::ItemData::Union,
    }
}

/// Copies a `syn::Variant`: its identifier and its fields.
#[verifier::external_body]
fn read_variant(variant: &syn::Variant) -> (r: syntax::VariantDef) {
    syntax::VariantDef { ident: variant.ident.to_string(), fields: read_fields(&variant.fields) }
}

/// Copies a `syn::Fields`, named, unnamed or unit.
#[verifier::external_body]
fn read_fields(fields: &syn::Fields) -> (r: syntax::FieldList) {
    match fields {
        syn::Fields::Named(named) => syntax::FieldList::Named(named.named.iter().map(read_field).collect()),
        syn::Fields::Unnamed(unnamed) => syntax::FieldList::Unnamed(
            unnamed.unnamed.iter().map(read_field).collect(),
        ),
        syn::Fields::Unit => syntax::FieldList::Unit,
    }
}

/// Copies a `syn::Field`: its name, if any, and its type.
#[verifier::external_body]
fn read_field(field: &syn::Field) -> (r: syntax::FieldDef) {
    syntax::FieldDef { ident: field.ident.as_ref().map(|i| i.to_string()), ty: read_type(&field.ty) }
}

/// Copies a `syn::Type`: a path, a reference (with its lifetime and the type
/// it refers to), or any other kind of type.
#[verifier::external_body]
fn read_type(ty: &syn::Type) -> (r: syntax::SynType) {
    match ty {
        syn::Type::Path(tp) => syntax::SynType::Path(read_path(&tp.path)),
        syn::Type::Reference(r) => syntax::SynType::Reference {
            lifetime: r.lifetime.as_ref().map(|l| l.to_string()),
            elem: Box::new(read_type(&r.elem)),
        },
        _ => syntax::SynType::Other,
    }
}

/// Copies a `syn::Path`: the leading `::`, and each segment with its
/// arguments.
#[verifier::external_body]
fn read_path(path: &syn::Path) -> (r: syntax::TypePath) {
    syntax::TypePath {
        leading_colon: path.leading_colon.is_some(),
        segments: path.segments.iter().map(
            |s| syntax::PathSegment { ident: s.ident.to_string(), arguments: read_arguments(&s.arguments) },
        ).collect(),
    }
}

/// Copies a `syn::PathArguments`.
#[verifier::external_body]
fn read_arguments(arguments: &syn::PathArguments) -> (r: syntax::SegmentArguments) {
    match arguments {
        syn::PathArguments::None => syntax::SegmentArguments::Empty,
        syn::PathArguments::AngleBracketed(a) => syntax::SegmentArguments::AngleBracketed(
            a.args.iter().map(read_argument).collect(),
        ),
        syn::PathArguments::Parenthesized(_) => syntax::SegmentArguments::Parenthesized,
    }
}

/// Copies a `syn::GenericArgument`: a type, or any other kind of argument.
#[verifier::external_body]
fn read_argument(argument: &syn::GenericArgument) -> (r: syntax::TypeArgument) {
    match argument {
        syn::GenericArgument::Type(t) => syntax::TypeArgument::Type(read_type(t)),
        _ => syntax::TypeArgument::Other,
    }
}

/// Parses the tokens of the item a derive is applied to, and reads the parts
/// that deriving `Try` looks at. `None` when the tokens are not an item.
pub fn read_derive_input(input: TokenStream) -> (r: Option<ParsedInput>)
    ensures
        match r {
            Some(p) => item_model_of(input) == Some(p.model),
            None => item_model_of(input) is None,
        },
        r matches Some(p) ==> syntax::every_named_field_named(p.model),
{
    parse_item(input)
}

} // verus!
