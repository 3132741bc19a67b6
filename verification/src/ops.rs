//! The `?`-operator protocol: a value either continues with an output or
//! short-circuits with a residual, and a residual can rebuild a value of
//! any type that accepts it.
use std::convert::Infallible;
use std::ops::ControlFlow;
use vstd::prelude::*;

verus! {

/// Turns a value of the uninhabited `Infallible` into a value of any type.
/// `Infallible` has no values, so no call of this function can ever happen;
/// the contract claims only that the result is some value of the type, which
/// is vacuously true of a call that never takes place.
#[verifier::external_body]
fn absurd<A>(never: Infallible) -> (r: A)
    ensures
        r == vstd::pervasive::arbitrary::<A>(),
{
    match never {}
}

/// A type that either continues with an `Output` or short-circuits with a
/// `Residual`.
///
/// Implementations state the two laws of the protocol: `branch` undoes
/// `from_output`, and rebuilding a value from what `branch` returns gives
/// back the value itself.
pub trait Try: Sized + FromResidual<<Self as Try>::Residual> {
    /// The value handed on when not short-circuiting.
    type Output;

    /// The value handed on when short-circuiting.
    type Residual;

    /// What `branch` returns.
    spec fn branch_spec(self) -> ControlFlow<Self::Residual, Self::Output>;

    /// What `from_output` returns.
    spec fn from_output_spec(output: Self::Output) -> Self;

    /// Wraps an output value.
    fn from_output(output: Self::Output) -> (r: Self)
        ensures
            r == Self::from_output_spec(output),
    ;

    /// Decides whether to continue (`Continue(output)`) or to short-circuit
    /// (`Break(residual)`).
    fn branch(self) -> (r: ControlFlow<Self::Residual, Self::Output>)
        ensures
            r == self.branch_spec(),
    ;

    /// `from_output(x).branch()` is `Continue(x)`.
    proof fn lemma_branch_from_output(output: Self::Output)
        ensures
            Self::from_output_spec(output).branch_spec() == ControlFlow::<
                Self::Residual,
                Self::Output,
            >::Continue(output),
    ;

    /// Rebuilding from the result of `branch` gives back the value itself.
    proof fn lemma_rebuild_from_branch(self)
        ensures
            match self.branch_spec() {
                ControlFlow::Continue(v) => Self::from_output_spec(v) == self,
                ControlFlow::Break(r) => <Self as FromResidual<
                    <Self as Try>::Residual,
                >>::from_residual_spec(r) == self,
            },
    ;
}

/// A type that can be built from a residual `R`.
pub trait FromResidual<R>: Sized {
    /// What `from_residual` returns.
    spec fn from_residual_spec(residual: R) -> Self;

    /// Builds a value from a residual.
    fn from_residual(residual: R) -> (r: Self)
        ensures
            r == Self::from_residual_spec(residual),
    ;
}

/// Names the canonical type that has output `O` and accepts this residual.
pub trait Residual<O>: Sized {
    /// The canonical type.
    type TryType: Try<Output = O> + FromResidual<Self>;
}

// ---------------------------------------------------------------- Option

impl<T> Try for Option<T> {
    type Output = T;

    type Residual = Option<Infallible>;

    open spec fn branch_spec(self) -> ControlFlow<Option<Infallible>, T> {
        match self {
            Some(v) => ControlFlow::Continue(v),
            None => ControlFlow::Break(None),
        }
    }

    open spec fn from_output_spec(output: T) -> Self {
        Some(output)
    }

    fn from_output(output: T) -> (r: Self) {
        Some(output)
    }

    fn branch(self) -> (r: ControlFlow<Option<Infallible>, T>) {
        match self {
            Some(v) => ControlFlow::Continue(v),
            None => ControlFlow::Break(None),
        }
    }

    proof fn lemma_branch_from_output(output: T) {
    }

    proof fn lemma_rebuild_from_branch(self) {
    }
}

impl<T> FromResidual<Option<Infallible>> for Option<T> {
    /// `Some` of an `Infallible` cannot exist: every residual gives `None`.
    open spec fn from_residual_spec(residual: Option<Infallible>) -> Self {
        None
    }

    fn from_residual(residual: Option<Infallible>) -> (r: Self) {
        None
    }
}

impl<T> Residual<T> for Option<Infallible> {
    type TryType = Option<T>;
}

// ---------------------------------------------------------------- Result

impl<T, E> Try for Result<T, E> {
    type Output = T;

    type Residual = Result<Infallible, E>;

    open spec fn branch_spec(self) -> ControlFlow<Result<Infallible, E>, T> {
        match self {
            Ok(v) => ControlFlow::Continue(v),
            Err(e) => ControlFlow::Break(Err(e)),
        }
    }

    open spec fn from_output_spec(output: T) -> Self {
        Ok(output)
    }

    fn from_output(output: T) -> (r: Self) {
        Ok(output)
    }

    fn branch(self) -> (r: ControlFlow<Result<Infallible, E>, T>) {
        match self {
            Ok(v) => ControlFlow::Continue(v),
            Err(e) => ControlFlow::Break(Err(e)),
        }
    }

    proof fn lemma_branch_from_output(output: T) {
    }

    proof fn lemma_rebuild_from_branch(self) {
    }
}

impl<T, E> FromResidual<Result<Infallible, E>> for Result<T, E> {
    open spec fn from_residual_spec(residual: Result<Infallible, E>) -> Self {
        match residual {
            Err(e) => Err(e),
            Ok(_) => vstd::pervasive::arbitrary(),
        }
    }

    fn from_residual(residual: Result<Infallible, E>) -> (r: Self) {
        match residual {
            Err(e) => Err(e),
            Ok(never) => absurd(never),
        }
    }
}

impl<T, E> Residual<T> for Result<Infallible, E> {
    type TryType = Result<T, E>;
}

// ---------------------------------------------------------------- ControlFlow

impl<B, C> Try for ControlFlow<B, C> {
    type Output = C;

    type Residual = ControlFlow<B, Infallible>;

    open spec fn branch_spec(self) -> ControlFlow<ControlFlow<B, Infallible>, C> {
        match self {
            ControlFlow::Continue(c) => ControlFlow::Continue(c),
            ControlFlow::Break(b) => ControlFlow::Break(ControlFlow::Break(b)),
        }
    }

    open spec fn from_output_spec(output: C) -> Self {
        ControlFlow::Continue(output)
    }

    fn from_output(output: C) -> (r: Self) {
        ControlFlow::Continue(output)
    }

    fn branch(self) -> (r: ControlFlow<ControlFlow<B, Infallible>, C>) {
        match self {
            ControlFlow::Continue(c) => ControlFlow::Continue(c),
            ControlFlow::Break(b) => ControlFlow::Break(ControlFlow::Break(b)),
        }
    }

    proof fn lemma_branch_from_output(output: C) {
    }

    proof fn lemma_rebuild_from_branch(self) {
    }
}

impl<B, C> FromResidual<ControlFlow<B, Infallible>> for ControlFlow<B, C> {
    open spec fn from_residual_spec(residual: ControlFlow<B, Infallible>) -> Self {
        match residual {
            ControlFlow::Break(b) => ControlFlow::Break(b),
            ControlFlow::Continue(_) => vstd::pervasive::arbitrary(),
        }
    }

    fn from_residual(residual: ControlFlow<B, Infallible>) -> (r: Self) {
        match residual {
            ControlFlow::Break(b) => ControlFlow::Break(b),
            ControlFlow::Continue(never) => absurd(never),
        }
    }
}

impl<B, C> Residual<C> for ControlFlow<B, Infallible> {
    type TryType = ControlFlow<B, C>;
}

} // verus!
