//! Deriving `Try` for an enum whose residual variants carry no data: the
//! first generic parameter is the `Output` type, the first variant holds it,
//! and every other variant breaks with itself.
use crate::syntax::{ItemData, ItemDef, GenericDef, GenericList, VariantDef};
use vstd::prelude::*;

verus! {

/// The derived `impl Try for Name<..>` (with `type Residual = Name<!>`) and
/// `impl FromResidual<Name<Infallible>> for Name<..>`.
#[derive(Debug, PartialEq, Eq)]
pub struct UnitTryImpl<'ast> {
    pub name: &'ast String,
    pub generics: &'ast GenericList,
    /// `type Output = ..;`: the first generic parameter.
    pub output_ty: &'ast String,
    /// The variant built by `from_output` and matched as `Continue`.
    pub output_variant: &'ast String,
    /// The variants matched as `Break` in `branch` and rebuilt in
    /// `from_residual`, in order.
    pub residual_variants: Vec<&'ast String>,
}

/// The items on which `impl_try_trait_v2` is not defined: the first generic
/// parameter must be a type and the item an enum with at least one variant.
pub open spec fn unit_derive_defined(ast: ItemDef) -> bool {
    &&& ast.generics.params@.len() > 0
    &&& ast.generics.params@[0] is Type
    &&& ast.data matches ItemData::Enum(variants)
    &&& variants@.len() > 0
}

/// Whether `impl_try_trait_v2` is defined on `ast`.
pub fn unit_derive_is_defined(ast: &ItemDef) -> (r: bool)
    ensures
        r == unit_derive_defined(*ast),
{
    if ast.generics.params.len() == 0 {
        return false;
    }
    let first_is_type = match &ast.generics.params[0] {
        GenericDef::Type(_) => true,
        _ => false,
    };
    first_is_type && match &ast.data {
        ItemData::Enum(variants) => variants.len() > 0,
        _ => false,
    }
}

/// Derives `Try` for an enum whose residual variants carry no data.
pub fn impl_try_trait_v2<'ast>(ast: &'ast ItemDef) -> (r: UnitTryImpl<'ast>)
    requires
        unit_derive_defined(*ast),
    ensures
        *r.name == ast.ident,
        *r.generics == ast.generics,
        *r.output_ty == ast.generics.params@[0]->Type_0,
        *r.output_variant == ast.data->Enum_0@[0].ident,
        r.residual_variants@.len() == ast.data->Enum_0@.len() - 1,
        forall|i: int|
            0 <= i < r.residual_variants@.len() ==> *r.residual_variants@[i]
                == (#[trigger] ast.data->Enum_0@[i + 1]).ident,
{
    let output_ty: &'ast String = match &ast.generics.params[0] {
        GenericDef::Type(t) => t,
        _ => vstd::pervasive::unreached(),
    };
    let enum_data: &'ast Vec<VariantDef> = match &ast.data {
        ItemData::Enum(variants) => variants,
        _ => vstd::pervasive::unreached(),
    };
    let output_variant: &'ast String = &enum_data[0].ident;
    let mut residual_variants: Vec<&'ast String> = Vec::new();
    let mut i: usize = 1;
    while i < enum_data.len()
        invariant
            1 <= i <= enum_data@.len(),
            residual_variants@.len() == i - 1,
            forall|k: int|
                0 <= k < i - 1 ==> *residual_variants@[k] == (#[trigger] enum_data@[k + 1]).ident,
        decreases enum_data@.len() - i,
    {
        residual_variants.push(&enum_data[i].ident);
        i = i + 1;
    }
    UnitTryImpl { name: &ast.ident, generics: &ast.generics, output_ty, output_variant, residual_variants }
}

} // verus!
