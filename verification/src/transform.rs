//! Methods for transforming values of a [`Try`] type, modelled on the
//! methods of `Option` and `Result`.
use crate::ops::{FromResidual, Residual, Try};
use std::ops::ControlFlow;
use vstd::prelude::*;

verus! {

/// What `flatten` returns: the contained value, or the residual converted.
pub open spec fn flattened<S, T>(s: S) -> T where S: Try<Output = T>, T: FromResidual<S::Residual> {
    match s.branch_spec() {
        ControlFlow::Continue(inner) => inner,
        ControlFlow::Break(res) => T::from_residual_spec(res),
    }
}

/// What `transpose` returns: an outer residual becomes an inner value, an
/// inner residual becomes the outer result.
pub open spec fn transposed<S, T, X>(s: S) -> X where
    S: Try<Output = T>,
    T: Try,
    X: Try + FromResidual<T::Residual>,
    X::Output: Try<Output = T::Output> + FromResidual<S::Residual>,
 {
    match s.branch_spec() {
        ControlFlow::Continue(inner) => match inner.branch_spec() {
            ControlFlow::Continue(val) => X::from_output_spec(X::Output::from_output_spec(val)),
            ControlFlow::Break(inner_res) => X::from_residual_spec(inner_res),
        },
        ControlFlow::Break(outer_res) => X::from_output_spec(
            <X::Output as FromResidual<S::Residual>>::from_residual_spec(outer_res),
        ),
    }
}

/// What `zip` returns: the pair of contained values, or the first residual.
pub open spec fn zipped<S, T, Y, X>(s: S, other: Y) -> X where
    S: Try<Output = T>,
    Y: Try,
    X: Try<Output = (T, Y::Output)> + FromResidual<S::Residual> + FromResidual<Y::Residual>,
 {
    match (s.branch_spec(), other.branch_spec()) {
        (ControlFlow::Continue(a), ControlFlow::Continue(b)) => X::from_output_spec((a, b)),
        (ControlFlow::Break(res), _) => <X as FromResidual<S::Residual>>::from_residual_spec(res),
        (ControlFlow::Continue(_), ControlFlow::Break(res)) => <X as FromResidual<
            Y::Residual,
        >>::from_residual_spec(res),
    }
}

/// What `and` returns: `other` in the output case, otherwise the residual.
pub open spec fn anded<S, T, Y>(s: S, other: Y) -> Y where
    S: Try<Output = T>,
    Y: Try<Output = T> + FromResidual<S::Residual>,
 {
    match s.branch_spec() {
        ControlFlow::Continue(_) => other,
        ControlFlow::Break(res) => Y::from_residual_spec(res),
    }
}

/// What `or` returns: the contained value wrapped in `Y`, otherwise `other`.
pub open spec fn ored<S, T, Y>(s: S, other: Y) -> Y where S: Try<Output = T>, Y: Try<Output = T> {
    match s.branch_spec() {
        ControlFlow::Continue(v) => Y::from_output_spec(v),
        ControlFlow::Break(_) => other,
    }
}

/// Methods for transforming TryTypes. Methods which act on the contained value
/// return the *canonical TryType* (`X`) for the new output.
pub trait Transform<T>: Try<Output = T> {
    /// Removes one level of nesting, converting `Foo<Foo<U>>` to `Foo<U>`
    /// (or `Foo<Bar<U>>` to `Bar<U>` where `Bar` accepts `Foo`'s residual).
    fn flatten(self) -> (r: T) where T: FromResidual<Self::Residual>
        ensures
            r == flattened::<Self, T>(self),
    {
        match self.branch() {
            ControlFlow::Continue(inner) => inner,
            ControlFlow::Break(res) => T::from_residual(res),
        }
    }

    /// Calls `f` with a reference to the contained value in the output case.
    /// Returns the value unchanged.
    fn inspect<F>(self, f: F) -> (r: Self) where F: FnOnce(&T)
        requires
            self.branch_spec() matches ControlFlow::Continue(v) ==> call_requires(f, (&v,)),
        ensures
            r == self,
            self.branch_spec() matches ControlFlow::Continue(v) ==> call_ensures(f, (&v,), ()),
    {
        proof {
            self.lemma_rebuild_from_branch();
        }
        match self.branch() {
            ControlFlow::Continue(val) => {
                f(&val);
                Self::from_output(val)
            },
            ControlFlow::Break(res) => Self::from_residual(res),
        }
    }

    /// Applies `f` to the contained value (in the output case), leaving
    /// residuals untouched, and returns the canonical TryType with output `U`.
    fn map<X, U, F>(self, f: F) -> (r: X) where
        F: FnOnce(T) -> U,
        X: Try<Output = U> + FromResidual<Self::Residual>,
        Self::Residual: Residual<U, TryType = X>,
        requires
            self.branch_spec() matches ControlFlow::Continue(v) ==> call_requires(f, (v,)),
        ensures
            match self.branch_spec() {
                ControlFlow::Continue(v) => exists|u: U|
                    call_ensures(f, (v,), u) && r == X::from_output_spec(u),
                ControlFlow::Break(res) => r == X::from_residual_spec(res),
            },
    {
        match self.branch() {
            ControlFlow::Continue(val) => {
                let mapped = f(val);
                X::from_output(mapped)
            },
            ControlFlow::Break(res) => X::from_residual(res),
        }
    }

    /// Applies `f` to the contained value (in the output case), or returns
    /// `default`.
    fn map_or<U, F>(self, default: U, f: F) -> (r: U) where F: FnOnce(T) -> U
        requires
            self.branch_spec() matches ControlFlow::Continue(v) ==> call_requires(f, (v,)),
        ensures
            match self.branch_spec() {
                ControlFlow::Continue(v) => call_ensures(f, (v,), r),
                ControlFlow::Break(_) => r == default,
            },
    {
        let ghost d = default;
        let fallback = move || -> (u: U)
            ensures
                u == d,
            { default };
        self.map_or_else(fallback, f)
    }

    /// Applies `f` to the contained value (in the output case), or returns
    /// the result of `default()`.
    fn map_or_else<U, D, F>(self, default: D, f: F) -> (r: U) where
        D: FnOnce() -> U,
        F: FnOnce(T) -> U,
        requires
            match self.branch_spec() {
                ControlFlow::Continue(v) => call_requires(f, (v,)),
                ControlFlow::Break(_) => call_requires(default, ()),
            },
        ensures
            match self.branch_spec() {
                ControlFlow::Continue(v) => call_ensures(f, (v,), r),
                ControlFlow::Break(_) => call_ensures(default, (), r),
            },
    {
        match self.branch() {
            ControlFlow::Continue(val) => f(val),
            ControlFlow::Break(_) => default(),
        }
    }

    /// Applies `f` to the residual, leaving output values untouched, and
    /// returns the canonical TryType for the residual that `f` returns.
    fn map_residual<F, X, G>(self, f: F) -> (r: X) where
        F: FnOnce(Self::Residual) -> G,
        G: Residual<T, TryType = X>,
        X: Try<Output = T> + FromResidual<G>,
        requires
            self.branch_spec() matches ControlFlow::Break(res) ==> call_requires(f, (res,)),
        ensures
            match self.branch_spec() {
                ControlFlow::Continue(v) => r == X::from_output_spec(v),
                ControlFlow::Break(res) => exists|g: G|
                    call_ensures(f, (res,), g) && r == X::from_residual_spec(g),
            },
    {
        match self.branch() {
            ControlFlow::Continue(val) => X::from_output(val),
            ControlFlow::Break(residual) => X::from_residual(f(residual)),
        }
    }

    /// Converts a `Foo<Bar<U>>` into a `Bar<Foo<U>>` (as canonical TryTypes).
    fn transpose<X>(self) -> (r: X) where
        T: Try,
        X: Try + FromResidual<T::Residual>,
        X::Output: Try<Output = T::Output> + FromResidual<Self::Residual>,
        T::Residual: Residual<X::Output, TryType = X>,
        Self::Residual: Residual<T::Output, TryType = X::Output>,
        ensures
            r == transposed::<Self, T, X>(self),
    {
        match self.branch() {
            ControlFlow::Continue(inner) => match inner.branch() {
                ControlFlow::Continue(val) => {
                    let inner_t = X::Output::from_output(val);
                    X::from_output(inner_t)
                },
                ControlFlow::Break(inner_res) => X::from_residual(inner_res),
            },
            ControlFlow::Break(outer_res) => {
                let inner_t = <X::Output as FromResidual<Self::Residual>>::from_residual(
                    outer_res,
                );
                X::from_output(inner_t)
            },
        }
    }

    /// Combines `self` with `other` into the canonical TryType of a pair;
    /// short-circuits with the first residual met.
    fn zip<X, Y>(self, other: Y) -> (r: X) where
        Y: Try,
        X: Try<Output = (T, Y::Output)> + FromResidual<Self::Residual> + FromResidual<
            Y::Residual,
        >,
        Self::Residual: Residual<X::Output, TryType = X>,
        ensures
            r == zipped::<Self, T, Y, X>(self, other),
    {
        let pair = |t: T, u: Y::Output| -> (p: (T, Y::Output))
            ensures
                p == (t, u),
            { (t, u) };
        self.zip_with(other, pair)
    }

    /// Applies `f` to the contained values of `self` and `other`;
    /// short-circuits with the first residual met.
    fn zip_with<X, Y, F, G>(self, other: Y, f: F) -> (r: X) where
        Y: Try,
        F: FnOnce(T, Y::Output) -> G,
        X: Try<Output = G> + FromResidual<Self::Residual> + FromResidual<Y::Residual>,
        Self::Residual: Residual<G, TryType = X>,
        requires
            (self.branch_spec(), other.branch_spec()) matches (
                ControlFlow::Continue(a),
                ControlFlow::Continue(b),
            ) ==> call_requires(f, (a, b)),
        ensures
            match (self.branch_spec(), other.branch_spec()) {
                (ControlFlow::Continue(a), ControlFlow::Continue(b)) => exists|g: G|
                    call_ensures(f, (a, b), g) && r == X::from_output_spec(g),
                (ControlFlow::Break(res), _) => r == <X as FromResidual<
                    Self::Residual,
                >>::from_residual_spec(res),
                (ControlFlow::Continue(_), ControlFlow::Break(res)) => r == <X as FromResidual<
                    Y::Residual,
                >>::from_residual_spec(res),
            },
    {
        let v1 = match self.branch() {
            ControlFlow::Continue(v) => v,
            ControlFlow::Break(res) => {
                return <X as FromResidual<Self::Residual>>::from_residual(res);
            },
        };
        let v2 = match other.branch() {
            ControlFlow::Continue(v) => v,
            ControlFlow::Break(res) => {
                return <X as FromResidual<Y::Residual>>::from_residual(res);
            },
        };
        X::from_output(f(v1, v2))
    }

    /// Returns `other` in the output case, otherwise the residual of `self`.
    fn and<Y>(self, other: Y) -> (r: Y) where Y: Try<Output = T> + FromResidual<Self::Residual>
        ensures
            r == anded::<Self, T, Y>(self, other),
    {
        let ghost o = other;
        let give = move |_t: T| -> (y: Y)
            ensures
                y == o,
            { other };
        self.and_then(give)
    }

    /// Calls `f` with the contained value in the output case, otherwise
    /// returns the residual of `self`.
    fn and_then<Y, F>(self, f: F) -> (r: Y) where
        Y: Try<Output = T> + FromResidual<Self::Residual>,
        F: FnOnce(T) -> Y,
        requires
            self.branch_spec() matches ControlFlow::Continue(v) ==> call_requires(f, (v,)),
        ensures
            match self.branch_spec() {
                ControlFlow::Continue(v) => call_ensures(f, (v,), r),
                ControlFlow::Break(res) => r == Y::from_residual_spec(res),
            },
    {
        match self.branch() {
            ControlFlow::Continue(v) => f(v),
            ControlFlow::Break(res) => Y::from_residual(res),
        }
    }

    /// Wraps the contained value of `self` in `Y` in the output case,
    /// otherwise returns `other`.
    fn or<Y>(self, other: Y) -> (r: Y) where Y: Try<Output = T>
        ensures
            r == ored::<Self, T, Y>(self, other),
    {
        let ghost o = other;
        let give = move |_res: Self::Residual| -> (y: Y)
            ensures
                y == o,
            { other };
        self.or_else(give)
    }

    /// Wraps the contained value of `self` in `Y` in the output case,
    /// otherwise calls `f` with the residual.
    fn or_else<Y, F>(self, f: F) -> (r: Y) where
        Y: Try<Output = T>,
        F: FnOnce(Self::Residual) -> Y,
        requires
            self.branch_spec() matches ControlFlow::Break(res) ==> call_requires(f, (res,)),
        ensures
            match self.branch_spec() {
                ControlFlow::Continue(v) => r == Y::from_output_spec(v),
                ControlFlow::Break(res) => call_ensures(f, (res,), r),
            },
    {
        match self.branch() {
            ControlFlow::Continue(v) => Y::from_output(v),
            ControlFlow::Break(r) => f(r),
        }
    }
}

impl<T> Transform<T> for Option<T> {

}

impl<T, E> Transform<T> for Result<T, E> {

}

impl<B, C> Transform<C> for ControlFlow<B, C> {

}

} // verus!
