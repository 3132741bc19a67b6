//! Methods for extracting the contained value of a [`Try`] type.
use crate::ops::Try;
use std::fmt::Debug;
use std::ops::ControlFlow;
use vstd::prelude::*;

verus! {

/// What `output` returns: `Some` of the contained value, or `None` for a
/// residual.
pub open spec fn output_of<S, T>(s: S) -> Option<T> where S: Try<Output = T> {
    match s.branch_spec() {
        ControlFlow::Continue(v) => Some(v),
        ControlFlow::Break(_) => None,
    }
}

/// The contained value, for a value in the output case: what `unwrap` and
/// `expect` return.
pub open spec fn unwrapped<S, T>(s: S) -> T where S: Try<Output = T> {
    match s.branch_spec() {
        ControlFlow::Continue(v) => v,
        ControlFlow::Break(_) => vstd::pervasive::arbitrary(),
    }
}

/// Methods for extracting the wrapped value.
pub trait Extract<T>: Try<Output = T> {
    /// Extracts the contained value `v` as `Some(v)`, or `None` for a
    /// residual: the non-panicking version of `unwrap()`.
    fn output(self) -> (r: Option<T>)
        ensures
            r == output_of::<Self, T>(self),
    {
        match self.branch() {
            ControlFlow::Continue(val) => Some(val),
            ControlFlow::Break(_) => None,
        }
    }

    /// Returns the contained value. Only defined in the output case: on a
    /// residual the operation fails.
    fn unwrap(self) -> (r: T) where Self::Residual: Debug
        requires
            self.branch_spec() is Continue,
        ensures
            r == unwrapped::<Self, T>(self),
    {
        self.expect("called `unwrap()` on a residual:")
    }

    /// Returns the contained value. Only defined in the output case: on a
    /// residual the operation fails with `msg`.
    fn expect(self, msg: &str) -> (r: T) where Self::Residual: Debug
        requires
            self.branch_spec() is Continue,
        ensures
            r == unwrapped::<Self, T>(self),
    {
        match self.branch() {
            ControlFlow::Continue(v) => v,
            ControlFlow::Break(_) => vstd::pervasive::unreached(),
        }
    }

    /// Returns the contained value, or `default` for a residual.
    fn unwrap_or(self, default: T) -> (r: T)
        ensures
            r == match self.branch_spec() {
                ControlFlow::Continue(v) => v,
                ControlFlow::Break(_) => default,
            },
    {
        let ghost d = default;
        let fallback = move || -> (t: T)
            ensures
                t == d,
            { default };
        self.unwrap_or_else(fallback)
    }

    /// Returns the contained value, or `T::default()` for a residual.
    fn unwrap_or_default(self) -> (r: T) where T: Default
        ensures
            match self.branch_spec() {
                ControlFlow::Continue(v) => r == v,
                ControlFlow::Break(_) => call_ensures(T::default, (), r),
            },
    {
        self.unwrap_or_else(T::default)
    }

    /// Returns the contained value, or the result of `f()` for a residual.
    fn unwrap_or_else<F>(self, f: F) -> (r: T) where F: FnOnce() -> T
        requires
            self.branch_spec() is Break ==> call_requires(f, ()),
        ensures
            match self.branch_spec() {
                ControlFlow::Continue(v) => r == v,
                ControlFlow::Break(_) => call_ensures(f, (), r),
            },
    {
        match self.branch() {
            ControlFlow::Continue(v) => v,
            ControlFlow::Break(_) => f(),
        }
    }
}

impl<T> Extract<T> for Option<T> {

}

impl<T, E> Extract<T> for Result<T, E> {

}

impl<B, C> Extract<C> for ControlFlow<B, C> {

}

} // verus!
