//! Properties of the library that relate several operations.
use crate::arms::{binds, is_residual_variant_arms, named_fields_have_names, Bindings, BranchArm, ResidualArm};
use crate::derive::{
    all_named_fields_have_names, describes_try_impl, is_type_param_named, kept_params, ImplParam,
    TryImpl,
};
use crate::syntax::{ItemDef, FieldList};
use crate::extract::{output_of, unwrapped};
use crate::ops::{FromResidual, Try};
use crate::syntax::{
    every_named_field_named, first_type_param, is_residual_of, lemma_first_type_param,
    residual_arg_spec, same_residual_arg, GenericDef, ItemData, ResidualArg, ResidualType, SynType,
    VariantDef,
};
use crate::diagnostic::{Help, HelpText, Span};
use crate::parse::{output_error_helps, output_type_of, OutputType};
use std::ops::ControlFlow;
use crate::transform::{anded, flattened, ored, transposed, zipped};
use vstd::prelude::*;

verus! {

/// Transposing a `Result<Option<T>, E>` into an `Option<Result<T, E>>` and
/// back gives the value back.
pub proof fn law_transpose_result_option_roundtrip<T, E>(x: Result<Option<T>, E>)
    ensures
        transposed::<Option<Result<T, E>>, Result<T, E>, Result<Option<T>, E>>(
            transposed::<Result<Option<T>, E>, Option<T>, Option<Result<T, E>>>(x),
        ) == x,
{
}

/// Transposing an `Option<Result<T, E>>` into a `Result<Option<T>, E>` and
/// back gives the value back.
pub proof fn law_transpose_option_result_roundtrip<T, E>(x: Option<Result<T, E>>)
    ensures
        transposed::<Result<Option<T>, E>, Option<T>, Option<Result<T, E>>>(
            transposed::<Option<Result<T, E>>, Result<T, E>, Result<Option<T>, E>>(x),
        ) == x,
{
}

/// Flattening a wrapped value gives the value back.
pub proof fn law_flatten_from_output<S, T>(inner: T) where
    S: Try<Output = T>,
    T: FromResidual<S::Residual>,

    ensures
        flattened::<S, T>(S::from_output_spec(inner)) == inner,
{
    S::lemma_branch_from_output(inner);
}

/// The output of a wrapped value is the value.
pub proof fn law_output_of_from_output<S, T>(v: T) where S: Try<Output = T>
    ensures
        output_of::<S, T>(S::from_output_spec(v)) == Some(v),
{
    S::lemma_branch_from_output(v);
}

/// On a value in the output case, `unwrap` and `expect` (whatever the
/// message) give the value that `output` wraps in `Some`; on a residual both
/// are undefined (they fail), and `output` gives `None`.
pub proof fn law_unwrap_is_output<S, T>(s: S) where S: Try<Output = T>
    ensures
        s.branch_spec() is Continue ==> output_of::<S, T>(s) == Some(unwrapped::<S, T>(s)),
        s.branch_spec() matches ControlFlow::Continue(v) ==> unwrapped::<S, T>(s) == v,
        s.branch_spec() is Break ==> output_of::<S, T>(s) is None,
{
}

/// Unwrapping a wrapped value gives the value back.
pub proof fn law_unwrap_from_output<S, T>(v: T) where S: Try<Output = T>
    ensures
        unwrapped::<S, T>(S::from_output_spec(v)) == v,
{
    S::lemma_branch_from_output(v);
}

/// A path whose last segment carries arguments, a container such as `Vec<T>`,
/// is refused as the `Output` type, even when its argument is the first type
/// parameter: the help note asks for the type parameter itself.
pub proof fn law_container_output_refused<'a>(ty: &'a SynType, first: &'a String)
    requires
        *ty matches SynType::Path(tp) && tp.segments@.len() > 0
            && !(tp.segments@.last().arguments is Empty),
    ensures
        output_type_of(ty, first) == Err::<OutputType<'a>, Seq<Help<'a>>>(
            output_error_helps(first, Span::OutputType, HelpText::ChangeTo(first)),
        ),
{
}

/// `and` on a wrapped value gives the other value; `or` on a wrapped value
/// gives the value wrapped in the other type.
pub proof fn law_and_or_on_output<S, T, Y>(v: T, other: Y) where
    S: Try<Output = T>,
    Y: Try<Output = T> + FromResidual<S::Residual>,

    ensures
        anded::<S, T, Y>(S::from_output_spec(v), other) == other,
        ored::<S, T, Y>(S::from_output_spec(v), other) == Y::from_output_spec(v),
{
    S::lemma_branch_from_output(v);
}

/// Zipping two wrapped values wraps the pair of values.
pub proof fn law_zip_outputs<S, T, Y, X>(a: T, b: Y::Output) where
    S: Try<Output = T>,
    Y: Try,
    X: Try<Output = (T, Y::Output)> + FromResidual<S::Residual> + FromResidual<Y::Residual>,

    ensures
        zipped::<S, T, Y, X>(S::from_output_spec(a), Y::from_output_spec(b)) == X::from_output_spec(
            (a, b),
        ),
{
    S::lemma_branch_from_output(a);
    Y::lemma_branch_from_output(b);
}

/// The generic parameters of the derived conversion into `Result` are
/// parameters of the item, and none of them is the `Output` type parameter.
pub proof fn law_kept_params_drop_output(params: Seq<GenericDef>, output: String)
    ensures
        forall|i: int|
            0 <= i < kept_params(params, output).len() ==> {
                let p = #[trigger] kept_params(params, output)[i];
                &&& p is Item
                &&& 0 <= p->Item_0 < params.len()
                &&& !is_type_param_named(params[p->Item_0 as int], output)
            },
{
    let all = Seq::new(params.len(), |i: int| ImplParam::Item(i as usize));
    let keep = |p: ImplParam| !is_type_param_named(params[p->Item_0 as int], output);
    assert forall|i: int| 0 <= i < kept_params(params, output).len() implies {
        let p = #[trigger] kept_params(params, output)[i];
        &&& p is Item
        &&& 0 <= p->Item_0 < params.len()
        &&& !is_type_param_named(params[p->Item_0 as int], output)
    } by {
        let p = kept_params(params, output)[i];
        assert(all.filter(keep) == kept_params(params, output));
        assert(all.filter(keep).contains(p));
        all.lemma_filter_contains_rev(keep, p);
        let j = choose|j: int| 0 <= j < all.len() && all[j] == p;
        assert(p == ImplParam::Item(j as usize));
        all.lemma_filter_pred(keep, i);
    }
}

/// `r` rebuilds what the non-continuing arm `b` breaks with: the same
/// variant, with the bindings of the same fields.
pub open spec fn rebuilds(b: BranchArm, r: Option<ResidualArm>, fields: FieldList) -> bool {
    &&& !b.continues
    &&& r matches Some(ResidualArm::Rebuild { variant, bindings })
    &&& *variant == *b.variant
    &&& binds(bindings, fields)
    &&& binds(b.bindings, fields)
}

/// In a derived `Try` impl, `from_output` builds the variant whose `branch`
/// arm continues, and that is the only arm that continues; every other arm
/// breaks with its variant, which `from_residual` rebuilds with the same
/// bindings.
pub proof fn law_derived_try_round_trip<'a>(t: TryImpl<'a>, ast: ItemDef)
    requires
        describes_try_impl(t, ast),
        ast.data->Enum_0@.len() > 0,
    ensures
        t.branch_arms@[0].continues,
        *t.branch_arms@[0].variant == *t.output_variant,
        forall|i: int|
            0 < i < t.branch_arms@.len() ==> rebuilds(
                #[trigger] t.branch_arms@[i],
                t.residual_arms@[i],
                ast.data->Enum_0@[i].fields,
            ),
{
    let variants = ast.data->Enum_0@;
    assert forall|i: int| 0 < i < t.branch_arms@.len() implies rebuilds(
        #[trigger] t.branch_arms@[i],
        t.residual_arms@[i],
        ast.data->Enum_0@[i].fields,
    ) by {
        assert(is_residual_variant_arms(t.branch_arms@[i], t.residual_arms@[i], variants[i]));
    }
}

/// The arms of a variant that short-circuits bind its fields exactly: none
/// for a unit variant, `v0 .. v(n-1)` for `n` unnamed fields, and the field
/// names, in order, for named fields. Both arms bind the same way, so the
/// pattern and the rebuilt value have the variant's shape.
pub proof fn law_residual_arms_bind_every_field<'a>(
    b: BranchArm<'a>,
    r: Option<ResidualArm<'a>>,
    v: VariantDef,
)
    requires
        is_residual_variant_arms(b, r, v),
    ensures
        *b.variant == v.ident,
        !b.continues,
        r matches Some(ResidualArm::Rebuild { .. }),
        *r->Some_0->Rebuild_variant == v.ident,
        v.fields is Unit ==> b.bindings is Unit && r->Some_0->Rebuild_bindings is Unit,
        v.fields matches FieldList::Unnamed(fs) ==> (b.bindings matches Bindings::Positional(n)
            && n == fs@.len()),
        v.fields matches FieldList::Unnamed(fs) ==> (r->Some_0->Rebuild_bindings matches Bindings::Positional(n)
            && n == fs@.len()),
        v.fields matches FieldList::Named(fs) ==> (b.bindings matches Bindings::Named(names)
            && names@.len() == fs@.len() && forall|j: int|
            0 <= j < fs@.len() ==> (*names@[j])@ == (#[trigger] fs@[j]).ident->0@),
        v.fields matches FieldList::Named(fs) ==> (r->Some_0->Rebuild_bindings matches Bindings::Named(names)
            && names@.len() == fs@.len() && forall|j: int|
            0 <= j < fs@.len() ==> (*names@[j])@ == (#[trigger] fs@[j]).ident->0@),
{
    match v.fields {
        FieldList::Unnamed(fs) => {
            assert(fs@.len() == fs.len());
        },
        _ => {},
    }
}

/// In a derived `Try` impl, every variant after the output variant
/// short-circuits with arms that bind exactly its fields: a variant with `n`
/// unnamed fields binds `n` names in `branch` and in `from_residual`.
pub proof fn law_derived_arms_bind_every_field<'a>(t: TryImpl<'a>, ast: ItemDef, i: int)
    requires
        describes_try_impl(t, ast),
        ast.data is Enum,
        1 <= i < ast.data->Enum_0@.len(),
    ensures
        ast.data->Enum_0@[i].fields matches FieldList::Unnamed(fs) ==> (t.branch_arms@[i].bindings
            matches Bindings::Positional(n) && n == fs@.len()),
        ast.data->Enum_0@[i].fields matches FieldList::Unnamed(fs) ==> (t.residual_arms@[i] matches Some(
            ResidualArm::Rebuild { bindings: Bindings::Positional(n), .. },
        ) && n == fs@.len()),
        ast.data->Enum_0@[i].fields is Unit ==> t.branch_arms@[i].bindings is Unit,
{
    let v = ast.data->Enum_0@[i];
    assert(is_residual_variant_arms(t.branch_arms@[i], t.residual_arms@[i], v));
    law_residual_arms_bind_every_field(t.branch_arms@[i], t.residual_arms@[i], v);
}

/// The output variant of a derived `Try` impl continues with its single
/// value. It gets a `from_residual` arm only when it stores a reference:
/// an owned `Output` type has no value in the residual, and a reference
/// gets the arm `Name::V(never) => *never`.
pub proof fn law_derived_output_arms<'a>(t: TryImpl<'a>, ast: ItemDef)
    requires
        describes_try_impl(t, ast),
        ast.data is Enum,
        ast.data->Enum_0@.len() > 0,
    ensures
        t.branch_arms@[0].continues,
        t.branch_arms@[0].bindings == Bindings::Positional(1),
        *t.branch_arms@[0].variant == ast.data->Enum_0@[0].ident,
        *t.output_type is Path ==> t.residual_arms@[0] is None,
        *t.output_type is Reference ==> (t.residual_arms@[0] matches Some(
            ResidualArm::DerefNever { variant },
        ) && *variant == ast.data->Enum_0@[0].ident),
{
}

/// Taken apart by `parse`, an output variant that stores the `Output` type
/// itself has no `from_residual` arm; one that stores a reference to it gets
/// `Name::V(never) => *never`.
pub proof fn law_parsed_output_residual_arm<'a>(o: OutputType<'a>, variant: &'a String)
    ensures
        o is Owned ==> crate::parse::output_residual_arm(o, variant) is None,
        o is Ref ==> crate::parse::output_residual_arm(o, variant) == Some(
            ResidualArm::DerefNever { variant },
        ),
{
}

/// A named field always has a name, so on an item whose named fields all
/// carry names (every item read from tokens) deriving `Try` is defined
/// exactly where taking the item apart is, whatever the number of named
/// fields.
pub proof fn law_named_fields_do_not_limit_derive(ast: ItemDef)
    requires
        every_named_field_named(ast),
    ensures
        ast.data matches ItemData::Enum(variants) ==> all_named_fields_have_names(variants@),
{
    match ast.data {
        ItemData::Enum(variants) => {
            assert forall|i: int| 0 <= i < variants@.len() implies named_fields_have_names(
                (#[trigger] variants@[i]).fields,
            ) by {
                match variants@[i].fields {
                    FieldList::Named(fs) => {
                        assert forall|j: int| 0 <= j < fs@.len() implies (
                        #[trigger] fs@[j]).ident is Some by {}
                    },
                    _ => {},
                }
            }
        },
        _ => {},
    }
}

/// The residual type keeps the item's generic arguments, in order, and
/// replaces exactly one of them by `!`: the first type parameter. Lifetimes,
/// const parameters and every later type parameter keep their kind and name.
pub proof fn law_residual_replaces_first_type_only(r: ResidualType, ast: ItemDef)
    requires
        is_residual_of(r, ast),
    ensures
        r.name@ == ast.ident@,
        r.args@.len() == ast.generics.params@.len(),
        forall|i: int|
            0 <= i < ast.generics.params@.len() ==> ((#[trigger] r.args@[i] is Never) <==> (
            ast.generics.params@[i] is Type && forall|j: int|
                0 <= j < i ==> !(ast.generics.params@[j] is Type))),
        forall|i: int|
            0 <= i < ast.generics.params@.len() ==> match ast.generics.params@[i] {
                GenericDef::Lifetime(l) => #[trigger] r.args@[i] matches ResidualArg::Lifetime(x)
                    && x@ == l@,
                GenericDef::Const(c) => r.args@[i] matches ResidualArg::Const(x) && x@ == c@,
                GenericDef::Type(ty) => (exists|j: int|
                    0 <= j < i && ast.generics.params@[j] is Type) ==> (r.args@[i] matches ResidualArg::Type(
                    x,
                ) && x@ == ty@),
            },
{
    let params = ast.generics.params@;
    lemma_first_type_param(params);
    let k = first_type_param(params)->0;
    assert forall|i: int| 0 <= i < params.len() implies ((#[trigger] r.args@[i] is Never) <==> (
    params[i] is Type && forall|j: int| 0 <= j < i ==> !(params[j] is Type))) by {
        assert(same_residual_arg(r.args@[i], residual_arg_spec(params[i], i, k)));
        if i != k && params[i] is Type && forall|j: int| 0 <= j < i ==> !(params[j] is Type) {
            if i > k {
                assert(!(params[k] is Type));
            }
        }
    }
    assert forall|i: int| 0 <= i < params.len() implies match params[i] {
        GenericDef::Lifetime(l) => #[trigger] r.args@[i] matches ResidualArg::Lifetime(x) && x@
            == l@,
        GenericDef::Const(c) => r.args@[i] matches ResidualArg::Const(x) && x@ == c@,
        GenericDef::Type(ty) => (exists|j: int| 0 <= j < i && params[j] is Type) ==> (r.args@[i] matches ResidualArg::Type(
            x,
        ) && x@ == ty@),
    } by {
        assert(same_residual_arg(r.args@[i], residual_arg_spec(params[i], i, k)));
        if params[i] is Type && (exists|j: int| 0 <= j < i && params[j] is Type) {
            let j = choose|j: int| 0 <= j < i && params[j] is Type;
            assert(k <= j);
        }
    }
}

/// The parameters of the impl converting the residual into a `Result` keep
/// every generic parameter of the item except the `Output` type parameter:
/// each appears once, in the order of the item, and nothing else is kept.
pub proof fn law_kept_params_complete(params: Seq<GenericDef>, output: String)
    requires
        params.len() <= usize::MAX,
    ensures
        forall|i: int|
            0 <= i < params.len() && !(params[i] matches GenericDef::Type(t) && t@ == output@)
                ==> #[trigger] kept_params(params, output).contains(ImplParam::Item(i as usize)),
        forall|a: int|
            0 <= a < kept_params(params, output).len() ==> ((#[trigger] kept_params(
                params,
                output,
            )[a]) matches ImplParam::Item(i) && i < params.len() && !(params[i as int] matches GenericDef::Type(
                t,
            ) && t@ == output@)),
        forall|a: int, b: int|
            0 <= a < b < kept_params(params, output).len() ==> (#[trigger] kept_params(
                params,
                output,
            )[a])->Item_0 < (#[trigger] kept_params(params, output)[b])->Item_0,
{
    lemma_kept_prefix(params, output, params.len() as int);
    let all = Seq::new(params.len(), |i: int| ImplParam::Item(i as usize));
    assert(all.take(params.len() as int) =~= all);
}

/// The kept parameters among the first `n` parameters.
proof fn lemma_kept_prefix(params: Seq<GenericDef>, output: String, n: int)
    requires
        0 <= n <= params.len() <= usize::MAX,
    ensures
        ({
            let all = Seq::new(params.len(), |i: int| ImplParam::Item(i as usize));
            let f = all.take(n).filter(
                |p: ImplParam| !is_type_param_named(params[p->Item_0 as int], output),
            );
            &&& forall|i: int|
                0 <= i < n && !(params[i] matches GenericDef::Type(t) && t@ == output@)
                    ==> #[trigger] f.contains(ImplParam::Item(i as usize))
            &&& forall|a: int|
                0 <= a < f.len() ==> ((#[trigger] f[a]) matches ImplParam::Item(i) && i < n
                    && !(params[i as int] matches GenericDef::Type(t) && t@ == output@))
            &&& forall|a: int, b: int|
                0 <= a < b < f.len() ==> (#[trigger] f[a])->Item_0 < (#[trigger] f[b])->Item_0
        }),
    decreases n,
{
    let all = Seq::new(params.len(), |i: int| ImplParam::Item(i as usize));
    let keep = |p: ImplParam| !is_type_param_named(params[p->Item_0 as int], output);
    if n == 0 {
        assert(all.take(0) =~= Seq::<ImplParam>::empty());
        assert(all.take(0).filter(keep) =~= Seq::<ImplParam>::empty()) by {
            reveal(Seq::filter);
        }
    } else {
        lemma_kept_prefix(params, output, n - 1);
        let prev = all.take(n - 1).filter(keep);
        assert(all.take(n) =~= all.take(n - 1).push(ImplParam::Item((n - 1) as usize)));
        all.take(n - 1).lemma_filter_push(ImplParam::Item((n - 1) as usize), keep);
        let f = all.take(n).filter(keep);
        assert forall|i: int|
            0 <= i < n && !(params[i] matches GenericDef::Type(t) && t@ == output@) implies #[trigger] f.contains(
            ImplParam::Item(i as usize),
        ) by {
            if i < n - 1 {
                assert(prev.contains(ImplParam::Item(i as usize)));
                let j = choose|j: int| 0 <= j < prev.len() && prev[j] == ImplParam::Item(i as usize);
                assert(f[j] == prev[j]);
            } else {
                assert(keep(ImplParam::Item((n - 1) as usize)));
                assert(f[f.len() - 1] == ImplParam::Item(i as usize));
            }
        }
    }
}

} // verus!
