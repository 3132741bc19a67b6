//! The match arms of a derived `branch` (`Self::V(..) => Continue/Break(..)`)
//! and `from_residual` (`Name::V(..) => ..`).
use crate::syntax::{FieldDef, FieldList, VariantDef};
use vstd::prelude::*;

verus! {

/// The names bound by the pattern of an arm.
#[derive(Debug, PartialEq, Eq)]
pub enum Bindings<'ast> {
    /// `V`
    Unit,
    /// `V(v0, v1, ..)` with this many bindings.
    Positional(usize),
    /// `V { a, b, .. }` with the field names.
    Named(Vec<&'ast String>),
}

/// An arm of `branch`: `Self::V(..) => ControlFlow::Continue(v0)` when
/// `continues`, otherwise `Self::V(..) => ControlFlow::Break(Name::V(..))`.
#[derive(Debug, PartialEq, Eq)]
pub struct BranchArm<'ast> {
    pub variant: &'ast String,
    pub bindings: Bindings<'ast>,
    pub continues: bool,
}

/// An arm of `from_residual`.
#[derive(Debug, PartialEq, Eq)]
pub enum ResidualArm<'ast> {
    /// `Name::V(..) => Name::V(..)`: the residual variant is rebuilt.
    Rebuild { variant: &'ast String, bindings: Bindings<'ast> },
    /// `Name::V(never) => *never`: the output variant of a residual holds a
    /// reference to `!`.
    DerefNever { variant: &'ast String },
}

/// Every named field has a name.
pub open spec fn named_fields_have_names(fields: FieldList) -> bool {
    fields matches FieldList::Named(fs) ==> forall|j: int|
        0 <= j < fs@.len() ==> (#[trigger] fs@[j]).ident is Some
}

/// Whether every named field has a name.
#[verifier::loop_isolation(false)]
pub fn fields_are_named(fields: &FieldList) -> (r: bool)
    ensures
        r == named_fields_have_names(*fields),
        r == (*fields matches FieldList::Named(fs) ==> forall|j: int|
            0 <= j < fs@.len() ==> (#[trigger] fs@[j]).ident is Some),
{
    match fields {
        FieldList::Named(fs) => {
            let mut j: usize = 0;
            while j < fs.len()
                invariant
                    0 <= j <= fs@.len(),
                    forall|k: int| 0 <= k < j ==> (#[trigger] fs@[k]).ident is Some,
                decreases fs@.len() - j,
            {
                if fs[j].ident.is_none() {
                    assert(!(fs@[j as int].ident is Some));
                    return false;
                }
                j = j + 1;
            }
            true
        },
        _ => true,
    }
}

/// `b` binds the fields `fields`: nothing for a unit variant, `v0..vn` for
/// `n` unnamed fields, the field names for named fields.
pub open spec fn binds(b: Bindings, fields: FieldList) -> bool {
    match fields {
        FieldList::Unit => b is Unit,
        FieldList::Unnamed(fs) => b == Bindings::Positional(fs@.len() as usize),
        FieldList::Named(fs) => b matches Bindings::Named(names) && names@.len() == fs@.len()
            && forall|j: int| 0 <= j < fs@.len() ==> *names@[j] == (#[trigger] fs@[j]).ident->0,
    }
}

/// The bindings of the fields of a variant.
pub fn bindings_of<'ast>(fields: &'ast FieldList) -> (r: Bindings<'ast>)
    requires
        named_fields_have_names(*fields),
    ensures
        binds(r, *fields),
        *fields is Unit ==> r is Unit,
        *fields matches FieldList::Unnamed(fs) ==> (r matches Bindings::Positional(n) && n
            == fs@.len()),
        *fields matches FieldList::Named(fs) ==> (r matches Bindings::Named(names) && names@.len()
            == fs@.len() && forall|j: int|
            0 <= j < fs@.len() ==> (*names@[j])@ == (#[trigger] fs@[j]).ident->0@),
{
    match fields {
        FieldList::Unit => Bindings::Unit,
        FieldList::Unnamed(fs) => Bindings::Positional(fs.len()),
        FieldList::Named(fs) => {
            let mut names: Vec<&'ast String> = Vec::new();
            let mut j: usize = 0;
            while j < fs.len()
                invariant
                    0 <= j <= fs@.len(),
                    names@.len() == j,
                    forall|k: int| 0 <= k < fs@.len() ==> (#[trigger] fs@[k]).ident is Some,
                    forall|k: int| 0 <= k < j ==> *names@[k] == (#[trigger] fs@[k]).ident->0,
                decreases fs@.len() - j,
            {
                let f: &'ast FieldDef = &fs[j];
                match &f.ident {
                    Some(name) => names.push(name),
                    None => vstd::pervasive::unreached(),
                }
                j = j + 1;
            }
            Bindings::Named(names)
        },
    }
}

/// The arms for a variant that short-circuits: it breaks with itself and
/// is rebuilt from the residual.
pub open spec fn is_residual_variant_arms(b: BranchArm, r: Option<ResidualArm>, v: VariantDef) -> bool {
    &&& *b.variant == v.ident
    &&& !b.continues
    &&& binds(b.bindings, v.fields)
    &&& r matches Some(ResidualArm::Rebuild { variant, bindings })
    &&& *variant == v.ident
    &&& binds(bindings, v.fields)
}

/// The arm of `branch` for the output variant.
pub open spec fn is_output_branch_arm(b: BranchArm, v: VariantDef) -> bool {
    &&& *b.variant == v.ident
    &&& b.continues
    &&& b.bindings == Bindings::Positional(1)
}

/// The arms for a variant that short-circuits.
pub fn residual_variant_arms<'ast>(v: &'ast VariantDef) -> (r: (BranchArm<'ast>, Option<ResidualArm<'ast>>))
    requires
        named_fields_have_names(v.fields),
    ensures
        is_residual_variant_arms(r.0, r.1, *v),
        v.fields matches FieldList::Unnamed(fs) ==> (r.0.bindings matches Bindings::Positional(n)
            && n == fs@.len()),
        v.fields matches FieldList::Unnamed(fs) ==> (r.1 matches Some(
            ResidualArm::Rebuild { bindings: Bindings::Positional(n), .. },
        ) && n == fs@.len()),
{
    let branch = BranchArm { variant: &v.ident, bindings: bindings_of(&v.fields), continues: false };
    let residual = ResidualArm::Rebuild { variant: &v.ident, bindings: bindings_of(&v.fields) };
    (branch, Some(residual))
}

} // verus!
