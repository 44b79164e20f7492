//! Generates the three call-trait impls (`FnOnce`, `FnMut`, `Fn`) of a type
//! from one argument list, one output type and one body, each given in an
//! attribute on the type.
pub mod args;
pub mod attrs;
pub mod derive;
pub mod plan;
pub mod tokens;

pub use derive::{derive_fn_mut, fn_args, fn_body, fn_output};
