//! The sourced-value type and its resolution methods.
//!
//! A [`Sourced`] is either a literal value or the name of an environment
//! variable. The process environment is external to this library: each
//! resolution method takes `lookup`, the outcome of reading the named
//! variable (`Ok` with its text, or `Err` with the lookup failure), and the
//! caller performs that single read. A `Value` variant ignores `lookup`.

use vstd::prelude::*;

use crate::convert::{FromText, TextParse, WithDefault};
use crate::errors::{ExpliconError, VarError};

verus! {

/// A configuration value sourced either directly or from an environment
/// variable.
#[derive(Debug, Clone)]
pub enum Sourced<T> {
    /// The value should be read from the named environment variable.
    Env(String),
    /// A directly provided value that needs no resolution.
    Value(T),
}

/// Whether resolving `source` against the lookup outcome `lookup` yields the
/// value `v`, under the text-parsing family.
pub open spec fn resolves_to<T: TextParse>(
    source: Sourced<T>,
    lookup: Result<String, VarError>,
    v: T,
) -> bool {
    match source {
        Sourced::Value(w) => v == w,
        Sourced::Env(_) => match lookup {
            Ok(text) => T::parse_ok(text@) && T::is_parse_of(text@, v),
            Err(_) => false,
        },
    }
}

/// Whether resolving `source` against `lookup` fails, under the text-parsing
/// family: only an `Env` source fails, either because the lookup failed or
/// because the text does not parse.
pub open spec fn resolution_fails<T: TextParse>(
    source: Sourced<T>,
    lookup: Result<String, VarError>,
) -> bool {
    source matches Sourced::Env(_) && match lookup {
        Ok(text) => !T::parse_ok(text@),
        Err(_) => true,
    }
}

/// The error a failed resolution reports: the lookup failure itself, or the
/// parse failure's message under the catch-all kind.
pub open spec fn resolution_error<T: TextParse>(
    lookup: Result<String, VarError>,
    e: ExpliconError,
) -> bool {
    match lookup {
        Ok(text) => e matches ExpliconError::Other(m) && m@ == T::parse_error_text(text@),
        Err(ve) => e == ExpliconError::Var(ve),
    }
}

/// The full contract of `resolve`: it fails exactly when `resolution_fails`,
/// a success carries a resolved value, and a failure carries the error that
/// `resolution_error` describes.
pub open spec fn resolution<T: TextParse>(
    source: Sourced<T>,
    lookup: Result<String, VarError>,
    r: Result<T, ExpliconError>,
) -> bool {
    &&& (r is Err <==> resolution_fails::<T>(source, lookup))
    &&& match r {
        Ok(v) => resolves_to(source, lookup, v),
        Err(e) => resolution_error::<T>(lookup, e),
    }
}

/// The full contract of `resolve_or_default`: it never fails; when plain
/// resolution would fail it yields the type's default, otherwise a resolved
/// value.
pub open spec fn or_default_resolution<T: TextParse + WithDefault>(
    source: Sourced<T>,
    lookup: Result<String, VarError>,
    r: Result<T, ExpliconError>,
) -> bool {
    &&& r is Ok
    &&& !resolution_fails::<T>(source, lookup) ==> (r matches Ok(v) && resolves_to(
        source,
        lookup,
        v,
    ))
    &&& resolution_fails::<T>(source, lookup) ==> (r matches Ok(v) && T::is_default(v))
}

/// The full contract of `resolve_or`: when plain resolution would fail the
/// result is `fallback`, otherwise a resolved value.
pub open spec fn or_resolution<T: TextParse>(
    source: Sourced<T>,
    lookup: Result<String, VarError>,
    fallback: T,
    r: T,
) -> bool {
    &&& !resolution_fails::<T>(source, lookup) ==> resolves_to(source, lookup, r)
    &&& resolution_fails::<T>(source, lookup) ==> r == fallback
}

/// The full contract of `resolve_and_validate`: a resolution failure is
/// passed on as `resolve` reports it; a resolved value is returned when the
/// validator accepts it and reported as a validation failure when it does
/// not.
pub open spec fn validated_resolution<T: TextParse, F: FnOnce(&T) -> bool>(
    source: Sourced<T>,
    lookup: Result<String, VarError>,
    validator: F,
    r: Result<T, ExpliconError>,
) -> bool {
    &&& resolution_fails::<T>(source, lookup) ==> (r matches Err(e) && resolution_error::<T>(
        lookup,
        e,
    ))
    &&& !resolution_fails::<T>(source, lookup) ==> match r {
        Ok(v) => resolves_to(source, lookup, v) && call_ensures(validator, (&v,), true),
        Err(e) => (e matches ExpliconError::Other(m) && m@ == "Validation failed"@) && exists|v: T|
            resolves_to(source, lookup, v) && call_ensures(validator, (&v,), false),
    }
}

/// Whether resolving `source` against `lookup` yields `v`, under the
/// string-construction family: an `Env` source converts the retrieved text
/// directly, infallibly.
pub open spec fn from_string_resolves_to<T: FromText>(
    source: Sourced<T>,
    lookup: Result<String, VarError>,
    v: T,
) -> bool {
    match source {
        Sourced::Value(w) => v == w,
        Sourced::Env(_) => match lookup {
            Ok(text) => T::is_from_text(text@, v),
            Err(_) => false,
        },
    }
}

/// The full contract of `resolve_from_string`: only a failed lookup on an
/// `Env` source fails, and then with the lookup failure itself.
pub open spec fn from_string_resolution<T: FromText>(
    source: Sourced<T>,
    lookup: Result<String, VarError>,
    r: Result<T, ExpliconError>,
) -> bool {
    &&& (r is Err <==> (source matches Sourced::Env(_) && lookup matches Err(_)))
    &&& match r {
        Ok(v) => from_string_resolves_to(source, lookup, v),
        Err(e) => lookup matches Err(ve) && e == ExpliconError::Var(ve),
    }
}

/// The full contract of `resolve_from_string_or`: when the lookup of an
/// `Env` source fails the result is `fallback`, otherwise a resolved value.
pub open spec fn from_string_or_resolution<T: FromText>(
    source: Sourced<T>,
    lookup: Result<String, VarError>,
    fallback: T,
    r: T,
) -> bool {
    &&& !(source matches Sourced::Env(_) && lookup matches Err(_))
        ==> from_string_resolves_to(source, lookup, r)
    &&& (source matches Sourced::Env(_) && lookup matches Err(_)) ==> r == fallback
}

/// The full contract of `resolve_from_string_and_validate`: a failed lookup
/// of an `Env` source is passed on as `resolve_from_string` reports it; a
/// resolved value is returned when the validator accepts it and reported as a
/// validation failure when it does not.
pub open spec fn from_string_validated_resolution<T: FromText, F: FnOnce(&T) -> bool>(
    source: Sourced<T>,
    lookup: Result<String, VarError>,
    validator: F,
    r: Result<T, ExpliconError>,
) -> bool {
    &&& (source matches Sourced::Env(_) && lookup matches Err(_)) ==> (lookup matches Err(ve) && r
        == Err::<T, ExpliconError>(ExpliconError::Var(ve)))
    &&& !(source matches Sourced::Env(_) && lookup matches Err(_)) ==> match r {
        Ok(v) => from_string_resolves_to(source, lookup, v) && call_ensures(
            validator,
            (&v,),
            true,
        ),
        Err(e) => (e matches ExpliconError::Other(m) && m@ == "Validation failed"@) && exists|v: T|
            from_string_resolves_to(source, lookup, v) && call_ensures(validator, (&v,), false),
    }
}

impl<T> Sourced<T> {
    /// The environment-variable name this value is sourced from, or `None`
    /// for a literal value. Callers use it to perform the one environment
    /// read that resolution needs.
    pub fn env_name(&self) -> (r: Option<&String>)
        ensures
            match r {
                Some(name) => self matches Sourced::Env(n) && n == name,
                None => self matches Sourced::Value(_),
            },
    {
        match self {
            Sourced::Env(name) => Some(name),
            Sourced::Value(_) => None,
        }
    }
}

impl<T: TextParse> Sourced<T> {
    /// Resolve to a concrete value: a literal is returned as is; an
    /// environment reference takes the retrieved text in `lookup` and parses
    /// it. A failed lookup is reported as `Var`, a failed parse as `Other`.
    pub fn resolve(&self, lookup: Result<String, VarError>) -> (r: Result<T, ExpliconError>)
        ensures
            resolution(*self, lookup, r),
    {
        match self {
            Sourced::Value(value) => Ok(value.clone_value()),
            Sourced::Env(_) => match lookup {
                Err(e) => Err(ExpliconError::Var(e)),
                Ok(text) => match T::parse_text(&text) {
                    Ok(v) => Ok(v),
                    Err(m) => Err(ExpliconError::Other(m)),
                },
            },
        }
    }

    /// Resolve as `resolve` does, but swallow any failure and return the
    /// type's default value instead; never returns an error.
    pub fn resolve_or_default(&self, lookup: Result<String, VarError>) -> (r: Result<
        T,
        ExpliconError,
    >) where T: WithDefault
        ensures
            or_default_resolution(*self, lookup, r),
    {
        match self.resolve(lookup) {
            Ok(v) => Ok(v),
            Err(_) => Ok(T::default_value()),
        }
    }

    /// Resolve as `resolve` does, but swallow any failure and return the
    /// caller-supplied `fallback` instead.
    pub fn resolve_or(&self, lookup: Result<String, VarError>, fallback: T) -> (r: T)
        ensures
            or_resolution(*self, lookup, fallback, r),
    {
        match self.resolve(lookup) {
            Ok(v) => v,
            Err(_) => fallback,
        }
    }

    /// Resolve as `resolve` does, propagating its error unchanged; on
    /// success, accept the value only if `validator` does, otherwise report
    /// `Other` with the message `Validation failed`.
    pub fn resolve_and_validate<F: FnOnce(&T) -> bool>(
        &self,
        lookup: Result<String, VarError>,
        validator: F,
    ) -> (r: Result<T, ExpliconError>)
        requires
            forall|v: T| resolves_to(*self, lookup, v) ==> call_requires(validator, (&v,)),
        ensures
            validated_resolution(*self, lookup, validator, r),
    {
        match self.resolve(lookup) {
            Err(e) => Err(e),
            Ok(value) => {
                if validator(&value) {
                    Ok(value)
                } else {
                    proof {
                        assert(resolves_to(*self, lookup, value) && call_ensures(
                            validator,
                            (&value,),
                            false,
                        ));
                    }
                    Err(ExpliconError::Other("Validation failed".to_owned()))
                }
            },
        }
    }
}

impl<T: FromText> Sourced<T> {
    /// Resolve to a concrete value: a literal is returned as is; an
    /// environment reference converts the retrieved text in `lookup` directly
    /// into the target type. The conversion is infallible, so only a failed
    /// lookup can fail, reported as `Var`.
    pub fn resolve_from_string(&self, lookup: Result<String, VarError>) -> (r: Result<
        T,
        ExpliconError,
    >)
        ensures
            from_string_resolution(*self, lookup, r),
    {
        match self {
            Sourced::Value(value) => Ok(value.clone_value()),
            Sourced::Env(_) => match lookup {
                Err(e) => Err(ExpliconError::Var(e)),
                Ok(text) => Ok(T::from_text(text)),
            },
        }
    }

    /// Resolve as `resolve_from_string` does, but swallow any failure and
    /// return the caller-supplied `fallback` instead.
    pub fn resolve_from_string_or(&self, lookup: Result<String, VarError>, fallback: T) -> (r: T)
        ensures
            from_string_or_resolution(*self, lookup, fallback, r),
    {
        match self.resolve_from_string(lookup) {
            Ok(v) => v,
            Err(_) => fallback,
        }
    }

    /// Resolve as `resolve_from_string` does, propagating its error
    /// unchanged; on success, accept the value only if `validator` does,
    /// otherwise report `Other` with the message `Validation failed`.
    pub fn resolve_from_string_and_validate<F: FnOnce(&T) -> bool>(
        &self,
        lookup: Result<String, VarError>,
        validator: F,
    ) -> (r: Result<T, ExpliconError>)
        requires
            forall|v: T| from_string_resolves_to(*self, lookup, v) ==> call_requires(
                validator,
                (&v,),
            ),
        ensures
            from_string_validated_resolution(*self, lookup, validator, r),
    {
        match self.resolve_from_string(lookup) {
            Err(e) => Err(e),
            Ok(value) => {
                if validator(&value) {
                    Ok(value)
                } else {
                    proof {
                        assert(from_string_resolves_to(*self, lookup, value) && call_ensures(
                            validator,
                            (&value,),
                            false,
                        ));
                    }
                    Err(ExpliconError::Other("Validation failed".to_owned()))
                }
            },
        }
    }
}

} // verus!
