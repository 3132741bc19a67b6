//! Adapters for working with references to the contained value.
use crate::ops::{FromResidual, Residual, Try};
use std::ops::ControlFlow;
use vstd::prelude::*;

verus! {

/// Adapters for working with references.
pub trait AsRef<'s>: Try {
    /// Converts from `&TryType<T>` to the canonical TryType of `&T`.
    fn as_ref<X>(&'s self) -> (r: X) where
        X: Try<Output = &'s Self::Output> + FromResidual<Self::Residual>,
        Self::Residual: Residual<&'s Self::Output, TryType = X>,
        ensures
            match self.branch_spec() {
                ControlFlow::Continue(v) => r == X::from_output_spec(&v),
                ControlFlow::Break(res) => r == X::from_residual_spec(res),
            },
    ;

    /// Converts from `&mut TryType<T>` to the canonical TryType of `&mut T`.
    fn as_mut<X>(&'s mut self) -> (r: X) where
        X: Try<Output = &'s mut Self::Output> + FromResidual<Self::Residual>,
        Self::Residual: Residual<&'s mut Self::Output, TryType = X>,
        ensures
            match old(self).branch_spec() {
                ControlFlow::Continue(v) => r.branch_spec() matches ControlFlow::Continue(m) && *m
                    == v && *final(self) == Self::from_output_spec(*final(m)),
                ControlFlow::Break(res) => r == X::from_residual_spec(res) && *final(self) == *old(
                    self,
                ),
            },
    ;
}

impl<'s, T> AsRef<'s> for Option<T> where
    Self: 's,
 {
    fn as_ref<X>(&'s self) -> (r: X) where
        X: Try<Output = &'s Self::Output> + FromResidual<Self::Residual>,
        Self::Residual: Residual<&'s Self::Output, TryType = X>,
    {
        match self {
            Some(v) => X::from_output(v),
            None => X::from_residual(None),
        }
    }

    fn as_mut<X>(&'s mut self) -> (r: X) where
        X: Try<Output = &'s mut Self::Output> + FromResidual<Self::Residual>,
        Self::Residual: Residual<&'s mut Self::Output, TryType = X>,
    {
        match self {
            Some(v) => {
                proof {
                    X::lemma_branch_from_output(v);
                }
                X::from_output(v)
            },
            None => X::from_residual(None),
        }
    }
}

} // verus!
