//! Capability traits for resolution targets.
//!
//! A target type qualifies for the text-parsing resolution family by
//! implementing [`TextParse`], and for the string-construction family by
//! implementing [`FromText`]; a type may support either, both, or neither.
//! [`WithDefault`] supplies the default value that `resolve_or_default`
//! substitutes on failure.

use vstd::prelude::*;

verus! {

/// A type whose values can be duplicated exactly. Every resolution method
/// hands back an independent owned copy of the stored value, so both
/// capability families require this.
pub trait CloneValue: Sized {
    /// Produce an owned copy equal to this value.
    fn clone_value(&self) -> (r: Self)
        ensures
            r == *self,
    ;
}

/// A type that can be parsed from environment-variable text, with a
/// mathematical description of which texts parse and to what.
pub trait TextParse: CloneValue {
    /// Whether `text` is a well-formed rendering of a value of this type.
    spec fn parse_ok(text: Seq<char>) -> bool;

    /// Whether `v` is the value that `text` parses to. Meaningful only when
    /// `parse_ok(text)` holds.
    spec fn is_parse_of(text: Seq<char>, v: Self) -> bool;

    /// The message reported when `text` fails to parse.
    spec fn parse_error_text(text: Seq<char>) -> Seq<char>;

    /// Parse `text`, returning the parsed value, or the message described by
    /// `parse_error_text` when the text is not well formed.
    fn parse_text(text: &String) -> (r: Result<Self, String>)
        ensures
            Self::parse_ok(text@) ==> (r matches Ok(v) && Self::is_parse_of(text@, v)),
            !Self::parse_ok(text@) ==> (r matches Err(m) && m@ == Self::parse_error_text(text@)),
    ;
}

/// A type constructible from arbitrary text, infallibly: every string yields
/// a value. Intended for wrapper types (such as secret holders) that accept
/// raw text but deliberately forbid structured parsing.
pub trait FromText: CloneValue {
    /// Whether `v` is the value built from `text`.
    spec fn is_from_text(text: Seq<char>, v: Self) -> bool;

    /// Build a value from `text`; never fails.
    fn from_text(text: String) -> (r: Self)
        ensures
            Self::is_from_text(text@, r),
    ;
}

/// A type with a designated default value, substituted by
/// `resolve_or_default` when resolution fails.
pub trait WithDefault: Sized {
    /// Whether `v` is the type's default value.
    spec fn is_default(v: Self) -> bool;

    /// Produce the default value.
    fn default_value() -> (r: Self)
        ensures
            Self::is_default(r),
    ;
}

} // verus!
