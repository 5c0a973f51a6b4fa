//! The error surface of resolution: a failed environment lookup, or a
//! catch-all kind for parse and validation failures.

use vstd::prelude::*;

verus! {

/// Why an environment-variable lookup failed: the variable was absent, or it
/// was present but its content was not valid text.
#[derive(Clone, Copy, Debug, PartialEq, Eq, Structural)]
pub enum VarError {
    /// The variable is not set in the process environment.
    NotPresent,
    /// The variable is set, but its content is not valid unicode text.
    NotUnicode,
}

/// An error produced while resolving a sourced configuration value.
#[derive(Debug)]
pub enum ExpliconError {
    /// The named environment variable could not be retrieved.
    Var(VarError),
    /// Any other resolution failure (a parse error, or a rejected
    /// validation), carrying a human-readable message.
    Other(String),
}

/// Whether two errors report the same failure: the same lookup failure, or
/// the same catch-all message.
pub open spec fn same_error(a: ExpliconError, b: ExpliconError) -> bool {
    match (a, b) {
        (ExpliconError::Var(x), ExpliconError::Var(y)) => x == y,
        (ExpliconError::Other(m), ExpliconError::Other(n)) => m@ == n@,
        _ => false,
    }
}

/// The text that `ExpliconError::message` reports for each error.
pub open spec fn error_text(e: ExpliconError) -> Seq<char> {
    match e {
        ExpliconError::Var(VarError::NotPresent) => "Error while resolving env var: environment variable not found"@,
        ExpliconError::Var(VarError::NotUnicode) => "Error while resolving env var: environment variable was not valid unicode"@,
        ExpliconError::Other(m) => m@,
    }
}

impl ExpliconError {
    /// A human-readable description of the failure.
    pub fn message(&self) -> (r: String)
        ensures
            r@ == error_text(*self),
    {
        match self {
            ExpliconError::Var(VarError::NotPresent) => "Error while resolving env var: environment variable not found".to_owned(),
            ExpliconError::Var(VarError::NotUnicode) => "Error while resolving env var: environment variable was not valid unicode".to_owned(),
            ExpliconError::Other(m) => m.clone(),
        }
    }
}

} // verus!
