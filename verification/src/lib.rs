//! Lowers the declaration surface of a native library (functions with the C
//! calling convention, enumerations with a fixed-width representation,
//! records with the sequential native layout) into managed source text:
//! foreign-call declarations, layout-tagged structs and enumerations, with the
//! documentation that was attached to them.
//!
//! A [`CSharpBuilder`] lowers the declarations of one source module, given as
//! a tree of [`syntax::Declaration`]s. It resolves every type it meets against
//! a [`CSharpConfiguration`], which holds the registry of the types that are
//! known so far and can be shared by several passes.

pub mod builder;
pub mod config;
pub mod docs;
pub mod enumeration;
pub mod error;
pub mod function;
pub mod laws;
pub mod naming;
pub mod record;
pub mod resolve;
pub mod syntax;
pub mod text;
pub mod writer;

pub use builder::{build_csharp, CSharpBuilder};
pub use config::{CSharpConfiguration, CSharpType};
pub use error::Error;
