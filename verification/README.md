# try_v2

Combinators for types that take part in the `?` protocol, and the checks and
code generation behind deriving `Try` for an enum, verified with Verus.

- `src/ops.rs` — the protocol (`Try`, `FromResidual`, `Residual`) with its two
  laws, and its implementations for `Option`, `Result` and `ControlFlow`.
- `src/transform.rs`, `src/output_transform.rs`, `src/extract.rs`,
  `src/asref.rs` — `map`, `and_then`, `or_else`, `zip`, `transpose`, `output`,
  `unwrap_or`, `as_ref`, ... for any `Try` type, each with a contract stated
  over `branch` and `from_output`.
- `src/syntax.rs` — a model of the item a derive is applied to, and the
  residual type (`Name<.., !, ..>`).
- `src/diagnostic.rs` — the compile errors and their help notes.
- `src/parse.rs`, `src/derive.rs`, `src/unit_derive.rs`, `src/arms.rs` — the
  validation of the enum and the impls that deriving `Try` (and the conversions
  to and from `Result`) produces.
- `src/laws.rs` — properties relating several operations.
- `app/` — the derive macros on `proc_macro2` token streams: reading the item
  with `syn` and writing the impls with `quote`.
