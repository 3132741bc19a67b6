//! Combinators for types that take part in the `?` protocol (`Option`,
//! `Result`, `ControlFlow` and any other type implementing [`ops::Try`]),
//! and the checks and code generation behind deriving `Try` for an enum.
//!
//! Limitations on an enum that `Try` is derived for:
//!   - it must have at least one generic type parameter;
//!   - the first generic type parameter is the `Output` type;
//!   - the output variant (which does not short-circuit) is the first
//!     variant, and stores the output type as its only unnamed field.
pub mod ops;
pub mod transform;
pub mod extract;
pub mod asref;
pub mod output_transform;
pub mod syntax;
pub mod diagnostic;
pub mod arms;
pub mod parse;
pub mod derive;
pub mod unit_derive;
pub mod read;
pub mod laws;

pub use asref::AsRef;
pub use extract::Extract;
pub use transform::Transform;
