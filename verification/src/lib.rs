//! Core of a typechecker and import-resolution harness for Dhall, a pure,
//! total, dependently-typed configuration language.
//!
//! The crate is organised in four collaborating components:
//! - `env`: the name environment translating labelled variables to and from
//!   de Bruijn indices under nested binders;
//! - `import`: the memoised, cycle-detecting import-resolution environment;
//! - `tyenv`: the typing environment, a stack of (binder, type, value) frames;
//! - `typecheck`: the bidirectional typechecker, which annotates every node
//!   of a resolved expression with its synthesised type.
//!
//! Supporting modules: `syntax` (the expression tree), `value` (normalised
//! semantic values and closures), `eval` (weak-head normalisation and
//! conversion checking), `error` (the error taxonomy).

pub mod syntax;
pub mod env;
pub mod error;
pub mod value;
pub mod tyenv;
pub mod import;
pub mod eval;
pub mod typecheck;
