//! Resolves a textual reference to a program entity — a free function, a
//! method bound to a type, or a type definition — into its matching source
//! definitions and any directly associated documentation comment, by running
//! a per-language catalog of structural pattern queries against the parsed
//! syntax tree of a candidate file.

pub mod catalog;
pub mod driver;
pub mod error;
pub mod java;
pub mod lang;
pub mod python;
pub mod query;
pub mod sitter;
pub mod subst;
pub mod target;
pub mod text;

pub use driver::Driver;
pub use error::CodeError;
pub use lang::Lang;
pub use target::QueryMode;
pub use target::Target;
