//! Typed configuration values that are either given directly or named by an
//! environment variable and resolved at runtime.
//!
//! The core type is [`Sourced`], a two-variant sum: a literal value, or the
//! name of an environment variable to consult. Resolution methods turn a
//! `Sourced<T>` into a concrete `T`, optionally applying defaulting, fallback,
//! or validation. The process environment is an external lookup service: each
//! resolution method takes the outcome of the single environment read it
//! needs, so the reading itself stays with the caller.

pub mod convert;
pub mod errors;
pub mod parse;
pub mod laws;
pub mod sourced;

pub use convert::{CloneValue, FromText, TextParse, WithDefault};
pub use errors::{ExpliconError, VarError};
pub use sourced::Sourced;
