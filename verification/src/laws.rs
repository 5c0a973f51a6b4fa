//! Relations between the resolution methods, proved once and for all from
//! their contracts.

use vstd::prelude::*;

use crate::convert::{FromText, TextParse, WithDefault};
use crate::errors::{same_error, ExpliconError, VarError};
use crate::sourced::{
    from_string_resolution, or_default_resolution, or_resolution, resolution, resolves_to,
    validated_resolution, Sourced,
};

verus! {

/// `resolve_or_default` never returns an error: whenever `resolve` fails it
/// substitutes the type's default value, and whenever `resolve` succeeds it
/// returns a resolved value.
pub proof fn lemma_or_default_never_fails<T: TextParse + WithDefault>(
    source: Sourced<T>,
    lookup: Result<String, VarError>,
    resolved: Result<T, ExpliconError>,
    defaulted: Result<T, ExpliconError>,
)
    requires
        resolution(source, lookup, resolved),
        or_default_resolution(source, lookup, defaulted),
    ensures
        defaulted is Ok,
        resolved is Err ==> (defaulted matches Ok(v) && T::is_default(v)),
        resolved matches Ok(_) ==> (defaulted matches Ok(v) && resolves_to(source, lookup, v)),
{
}

/// `resolve_or` returns the fallback exactly when `resolve` fails, and a
/// resolved value otherwise.
pub proof fn lemma_fallback_exactly_on_failure<T: TextParse>(
    source: Sourced<T>,
    lookup: Result<String, VarError>,
    fallback: T,
    resolved: Result<T, ExpliconError>,
    chosen: T,
)
    requires
        resolution(source, lookup, resolved),
        or_resolution(source, lookup, fallback, chosen),
    ensures
        resolved is Err ==> chosen == fallback,
        resolved matches Ok(_) ==> resolves_to(source, lookup, chosen),
{
}

/// `resolve_and_validate` passes a resolution failure on unchanged — the
/// error `resolve` reports, not a validation failure — and otherwise returns
/// the resolved value when the validator accepted it, and the message
/// `Validation failed` when it rejected it.
pub proof fn lemma_validate_preserves_resolution_error<T: TextParse, F: FnOnce(&T) -> bool>(
    source: Sourced<T>,
    lookup: Result<String, VarError>,
    validator: F,
    resolved: Result<T, ExpliconError>,
    validated: Result<T, ExpliconError>,
)
    requires
        resolution(source, lookup, resolved),
        validated_resolution(source, lookup, validator, validated),
    ensures
        resolved matches Err(e0) ==> (validated matches Err(e) && same_error(e0, e)),
        resolved matches Ok(_) ==> match validated {
            Ok(v) => resolves_to(source, lookup, v) && call_ensures(validator, (&v,), true),
            Err(e) => e matches ExpliconError::Other(m) && m@ == "Validation failed"@,
        },
{
}

/// `resolve_from_string` on an `Env` source fails exactly when the lookup
/// failed, and then only with the lookup failure itself — its conversion
/// never produces a parse error.
pub proof fn lemma_from_string_env_error_is_lookup_failure<T: FromText>(
    source: Sourced<T>,
    lookup: Result<String, VarError>,
    r: Result<T, ExpliconError>,
)
    requires
        from_string_resolution(source, lookup, r),
        source matches Sourced::Env(_),
    ensures
        r is Err <==> lookup is Err,
        r matches Err(e) ==> e matches ExpliconError::Var(_),
{
}

} // verus!
