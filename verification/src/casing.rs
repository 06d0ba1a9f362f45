//! Case conversion of identifiers.
//!
//! The conversion itself is done by the `convert_case` crate; this module
//! gives its result a name so that contracts can speak of it.

use convert_case::{Case, Casing};
use vstd::prelude::*;

verus! {

/// The casing conventions that generated identifiers follow.
#[derive(Clone, Copy, Debug, PartialEq, Eq, Structural)]
pub enum CaseStyle {
    /// `lower_words_joined_by_underscores`, the host side's convention.
    Snake,
    /// `firstWordLowerThenCapitalised`, the native side's convention for members.
    Camel,
    /// `EveryWordCapitalised`.
    Pascal,
}

/// The string into which `convert_case` turns `s` for the given style
/// (`Casing::to_case` on a `str`, with `Case::Snake`, `Case::Camel` or `Case::Pascal`).
pub uninterp spec fn case_converted(s: Seq<char>, style: CaseStyle) -> Seq<char>;

/// Snake-case conversion of `s`.
pub open spec fn snake_case(s: Seq<char>) -> Seq<char> {
    case_converted(s, CaseStyle::Snake)
}

/// Camel-case conversion of `s`.
pub open spec fn camel_case(s: Seq<char>) -> Seq<char> {
    case_converted(s, CaseStyle::Camel)
}

/// Pascal-case conversion of `s`.
pub open spec fn pascal_case(s: Seq<char>) -> Seq<char> {
    case_converted(s, CaseStyle::Pascal)
}

/// Calls `convert_case::Casing::to_case` on `s`.
///
/// Trusted: the call splits `s` into words and rewrites them for the requested
/// case. It reads nothing but its two arguments, so its result is the value
/// that `case_converted` names. Nothing else is claimed of the result.
#[verifier::external_body]
pub(crate) fn to_case(s: &str, style: CaseStyle) -> (converted: String)
    ensures
        converted@ == case_converted(s@, style),
{
    let case = match style {
        CaseStyle::Snake => Case::Snake,
        CaseStyle::Camel => Case::Camel,
        CaseStyle::Pascal => Case::Pascal,
    };
    s.to_case(case)
}

} // verus!
