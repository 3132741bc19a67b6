//! Transformations written over the associated `Output` type of a [`Try`]
//! type rather than over a type parameter.
use crate::ops::{FromResidual, Residual, Try};
use std::ops::ControlFlow;
use vstd::prelude::*;

verus! {

/// Methods for transforming TryTypes, over their associated `Output` type.
pub trait Transform: Try {
    /// Removes one level of nesting, converting `Foo<Foo<T>>` to `Foo<T>`
    /// (or `Foo<Bar<T>>` to `Bar<T>` where `Bar` accepts `Foo`'s residual).
    fn flatten<U>(self) -> (r: U) where Self: Try<Output = U>, U: FromResidual<Self::Residual>
        ensures
            r == match self.branch_spec() {
                ControlFlow::Continue(inner) => inner,
                ControlFlow::Break(res) => U::from_residual_spec(res),
            },
    {
        match self.branch() {
            ControlFlow::Continue(inner) => inner,
            ControlFlow::Break(res) => U::from_residual(res),
        }
    }

    /// Calls `f` with a reference to the contained value. Returns the value
    /// unchanged.
    fn inspect<F>(self, f: F) -> (r: Self) where F: FnOnce(&Self::Output)
        requires
            self.branch_spec() matches ControlFlow::Continue(v) ==> call_requires(f, (&v,)),
        ensures
            r == self,
            self.branch_spec() matches ControlFlow::Continue(v) ==> call_ensures(f, (&v,), ()),
    {
        proof {
            self.lemma_rebuild_from_branch();
        }
        match self.branch() {
            ControlFlow::Continue(val) => {
                f(&val);
                Self::from_output(val)
            },
            ControlFlow::Break(res) => Self::from_residual(res),
        }
    }

    /// Applies `f` to the contained value, converting `T` to `U`, and returns
    /// the canonical TryType for `Self` with output `U`.
    fn map<X, U, F>(self, f: F) -> (r: X) where
        F: FnOnce(Self::Output) -> U,
        X: Try<Output = U> + FromResidual<Self::Residual>,
        Self::Residual: Residual<U, TryType = X>,
        requires
            self.branch_spec() matches ControlFlow::Continue(v) ==> call_requires(f, (v,)),
        ensures
            match self.branch_spec() {
                ControlFlow::Continue(v) => exists|u: U|
                    call_ensures(f, (v,), u) && r == X::from_output_spec(u),
                ControlFlow::Break(res) => r == X::from_residual_spec(res),
            },
    {
        match self.branch() {
            ControlFlow::Continue(val) => {
                let mapped = f(val);
                X::from_output(mapped)
            },
            ControlFlow::Break(res) => X::from_residual(res),
        }
    }

    /// Applies `f` to the contained value, or returns `default`.
    fn map_or<U, F>(self, default: U, f: F) -> (r: U) where F: FnOnce(Self::Output) -> U
        requires
            self.branch_spec() matches ControlFlow::Continue(v) ==> call_requires(f, (v,)),
        ensures
            match self.branch_spec() {
                ControlFlow::Continue(v) => call_ensures(f, (v,), r),
                ControlFlow::Break(_) => r == default,
            },
    {
        match self.branch() {
            ControlFlow::Continue(val) => f(val),
            ControlFlow::Break(_) => default,
        }
    }

    /// Applies `f` to the contained value, or returns the result of
    /// `default()`.
    fn map_or_else<U, D, F>(self, default: D, f: F) -> (r: U) where
        D: FnOnce() -> U,
        F: FnOnce(Self::Output) -> U,
        requires
            match self.branch_spec() {
                ControlFlow::Continue(v) => call_requires(f, (v,)),
                ControlFlow::Break(_) => call_requires(default, ()),
            },
        ensures
            match self.branch_spec() {
                ControlFlow::Continue(v) => call_ensures(f, (v,), r),
                ControlFlow::Break(_) => call_ensures(default, (), r),
            },
    {
        match self.branch() {
            ControlFlow::Continue(val) => f(val),
            ControlFlow::Break(_) => default(),
        }
    }

    /// Converts a `Foo<Bar<T>>` into a `Bar<Foo<T>>` where both are TryTypes.
    fn transpose<U, T, BART, FOOT>(self) -> (r: U) where
        Self: Try<Output = BART>,
        BART: Try<Output = T>,
        FOOT: Try<Output = T> + FromResidual<Self::Residual>,
        U: Try<Output = FOOT> + FromResidual<BART::Residual>,
        BART::Residual: Residual<FOOT, TryType = U>,
        ensures
            r == match self.branch_spec() {
                ControlFlow::Continue(inner) => match inner.branch_spec() {
                    ControlFlow::Continue(val) => U::from_output_spec(FOOT::from_output_spec(val)),
                    ControlFlow::Break(inner_res) => U::from_residual_spec(inner_res),
                },
                ControlFlow::Break(outer_res) => U::from_output_spec(
                    <FOOT as FromResidual<Self::Residual>>::from_residual_spec(outer_res),
                ),
            },
    {
        match self.branch() {
            ControlFlow::Continue(inner) => match inner.branch() {
                ControlFlow::Continue(val) => {
                    let inner_t = FOOT::from_output(val);
                    U::from_output(inner_t)
                },
                ControlFlow::Break(inner_res) => U::from_residual(inner_res),
            },
            ControlFlow::Break(outer_res) => {
                let inner_t = <FOOT as FromResidual<Self::Residual>>::from_residual(outer_res);
                U::from_output(inner_t)
            },
        }
    }

    /// Combines `self` with `other` into the canonical TryType of a pair;
    /// short-circuits with the first residual met.
    fn zip<U, Z>(self, other: U) -> (r: Z) where
        U: Try,
        Z: Try<Output = (Self::Output, U::Output)> + FromResidual<Self::Residual> + FromResidual<
            U::Residual,
        >,
        Self::Residual: Residual<Z::Output, TryType = Z>,
        ensures
            r == match (self.branch_spec(), other.branch_spec()) {
                (ControlFlow::Continue(a), ControlFlow::Continue(b)) => Z::from_output_spec((a, b)),
                (ControlFlow::Break(res), _) => <Z as FromResidual<
                    Self::Residual,
                >>::from_residual_spec(res),
                (ControlFlow::Continue(_), ControlFlow::Break(res)) => <Z as FromResidual<
                    U::Residual,
                >>::from_residual_spec(res),
            },
    {
        let v1 = match self.branch() {
            ControlFlow::Continue(v) => v,
            ControlFlow::Break(res) => {
                return <Z as FromResidual<Self::Residual>>::from_residual(res);
            },
        };
        let v2 = match other.branch() {
            ControlFlow::Continue(v) => v,
            ControlFlow::Break(res) => {
                return <Z as FromResidual<U::Residual>>::from_residual(res);
            },
        };
        Z::from_output((v1, v2))
    }
}

impl<T> Transform for Option<T> {

}

impl<T, E> Transform for Result<T, E> {

}

impl<B, C> Transform for ControlFlow<B, C> {

}

} // verus!
