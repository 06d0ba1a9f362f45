//! Derivation of the identifiers that generated artifacts carry.
//!
//! Every declaration has one canonical identifier. From it, and from the
//! optional name that the native side is to see, the names of all generated
//! artifacts follow: camel or Pascal case on the native side, snake case on
//! the host side.

pub mod invokable;
pub mod property;
pub mod signals;
pub mod table;

use crate::casing::{camel_case, case_converted, pascal_case, snake_case, to_case, CaseStyle};
use crate::identifier::{all_ident_continue, is_ident_continue, is_identifier, is_valid_identifier};
use vstd::prelude::*;
use vstd::string::*;

verus! {

/// Why no identifier could be derived.
#[derive(Clone, Copy, Debug, PartialEq, Eq, Structural)]
pub enum NamingError {
    /// Nothing is left of the name after case conversion.
    Empty,
    /// The name is not an identifier.
    Invalid,
}

/// The fault of `s` as an identifier, if it has one.
pub open spec fn identifier_error(s: Seq<char>) -> Option<NamingError> {
    if s.len() == 0 {
        Some(NamingError::Empty)
    } else if !is_identifier(s) {
        Some(NamingError::Invalid)
    } else {
        None
    }
}

/// The first of two faults.
pub open spec fn first_error(a: Option<NamingError>, b: Option<NamingError>) -> Option<
    NamingError,
> {
    if a is Some {
        a
    } else {
        b
    }
}

/// Accepts `s` if it is an identifier, and says what is wrong with it if not.
pub fn check_identifier(s: &str) -> (r: Result<(), NamingError>)
    ensures
        r is Ok <==> is_identifier(s@),
        r is Err ==> identifier_error(s@) == Some(r->Err_0),
{
    if s.is_empty() {
        Err(NamingError::Empty)
    } else if !is_valid_identifier(s) {
        Err(NamingError::Invalid)
    } else {
        Ok(())
    }
}

/// The name from which the native side's names are derived: the name given
/// for the native side if there is one, else the canonical identifier.
pub open spec fn native_source(ident: Seq<char>, cxx_name: Option<Seq<char>>) -> Seq<char> {
    match cxx_name {
        Some(name) => name,
        None => ident,
    }
}

/// The fault of the name given for the native side, if there is such a name
/// and it has a fault.
pub open spec fn override_error(cxx_name: Option<Seq<char>>) -> Option<NamingError> {
    match cxx_name {
        Some(name) => identifier_error(name),
        None => None,
    }
}

/// The fault of the canonical identifier or of the name given for the native
/// side, if one of them has a fault.
pub open spec fn source_error(ident: Seq<char>, cxx_name: Option<Seq<char>>) -> Option<
    NamingError,
> {
    first_error(identifier_error(ident), override_error(cxx_name))
}

/// The fault that keeps the base names from being derived, if there is one:
/// that of the camel case of `cxx_ident`, else that of the snake case of
/// `ident`.
pub open spec fn base_error(ident: Seq<char>, cxx_ident: Seq<char>) -> Option<NamingError> {
    first_error(
        identifier_error(camel_case(cxx_ident)),
        identifier_error(snake_case(ident)),
    )
}

/// The fault that keeps names with a fixed first part from being derived, if
/// there is one: that of the Pascal case of `cxx_ident`, else that of the
/// snake case of `ident`.
pub open spec fn capitalised_error(ident: Seq<char>, cxx_ident: Seq<char>) -> Option<
    NamingError,
> {
    first_error(
        identifier_error(pascal_case(cxx_ident)),
        identifier_error(snake_case(ident)),
    )
}

/// The fault that keeps the names of a declaration from being derived, if
/// there is one. The canonical identifier is looked at first, then the name
/// given for the native side, then the base names, then the names with a
/// fixed first part.
pub open spec fn naming_error(ident: Seq<char>, cxx_name: Option<Seq<char>>) -> Option<
    NamingError,
> {
    let cxx_ident = native_source(ident, cxx_name);
    first_error(
        source_error(ident, cxx_name),
        first_error(base_error(ident, cxx_ident), capitalised_error(ident, cxx_ident)),
    )
}

/// A name in its two forms: as the native side writes it and as the host side
/// writes it.
#[derive(Clone, Debug, PartialEq, Eq)]
pub struct CombinedIdent {
    /// The native side's form.
    pub cpp: String,
    /// The host side's form.
    pub rust: String,
}

/// The model of a [`CombinedIdent`].
pub struct CombinedIdentView {
    pub cpp: Seq<char>,
    pub rust: Seq<char>,
}

impl CombinedIdentView {
    /// Both forms are identifiers.
    pub open spec fn well_formed(self) -> bool {
        is_identifier(self.cpp) && is_identifier(self.rust)
    }
}

impl View for CombinedIdent {
    type V = CombinedIdentView;

    open spec fn view(&self) -> CombinedIdentView {
        CombinedIdentView { cpp: self.cpp@, rust: self.rust@ }
    }
}

/// Every character of an identifier may stand inside an identifier.
pub proof fn lemma_identifier_continues(s: Seq<char>)
    requires
        is_identifier(s),
    ensures
        all_ident_continue(s),
{
    assert forall|i: int| 0 <= i < s.len() implies is_ident_continue(
        #[trigger] s[i],
    ) by {
        if i == 0 {
        } else {
        }
    }
}

/// An identifier stays one when characters that may stand inside an
/// identifier are put behind it.
pub proof fn lemma_identifier_extended(head: Seq<char>, tail: Seq<char>)
    requires
        is_identifier(head),
        all_ident_continue(tail),
    ensures
        is_identifier(head + tail),
{
    let s = head + tail;
    assert(s[0] == head[0]);
    assert forall|i: int| 1 <= i < s.len() implies is_ident_continue(
        #[trigger] s[i],
    ) by {
        if i < head.len() {
            assert(s[i] == head[i]);
        } else {
            assert(s[i] == tail[i - head.len()]);
        }
    }
}

/// Converts `s` to the given case and accepts the result if it is an
/// identifier.
pub(crate) fn converted_identifier(s: &str, style: CaseStyle) -> (r: Result<String, NamingError>)
    ensures
        match r {
            Ok(name) => name@ == case_converted(s@, style) && is_identifier(name@),
            Err(e) => identifier_error(case_converted(s@, style)) == Some(e),
        },
{
    let name = to_case(s, style);
    check_identifier(name.as_str())?;
    Ok(name)
}

/// Puts `prefix` before `name`. Where both are identifiers, so is the result.
pub fn prefixed(prefix: &str, name: &str) -> (r: String)
    ensures
        r@ == prefix@ + name@,
        is_identifier(prefix@) && is_identifier(name@) ==> is_identifier(r@),
{
    proof {
        if is_identifier(prefix@) && is_identifier(name@) {
            lemma_identifier_continues(name@);
            lemma_identifier_extended(prefix@, name@);
        }
    }
    String::from_str(prefix).concat(name)
}

/// Puts `suffix` behind `name`. Where `name` is an identifier and every
/// character of `suffix` may stand inside one, the result is an identifier.
pub fn suffixed(name: &str, suffix: &str) -> (r: String)
    ensures
        r@ == name@ + suffix@,
        is_identifier(name@) && all_ident_continue(suffix@) ==> is_identifier(r@),
{
    proof {
        if is_identifier(name@) && all_ident_continue(suffix@) {
            lemma_identifier_extended(name@, suffix@);
        }
    }
    String::from_str(name).concat(suffix)
}

/// Checks the canonical identifier and the name given for the native side,
/// and hands back the name from which the native side's names are derived.
pub(crate) fn checked_source<'a>(ident: &'a String, cxx_name: &'a Option<String>) -> (r: Result<
    &'a str,
    NamingError,
>)
    ensures
        match r {
            Ok(source) => {
                &&& source_error(ident@, crate::parser::optional_name(*cxx_name)) is None
                &&& source@ == native_source(ident@, crate::parser::optional_name(*cxx_name))
            },
            Err(e) => source_error(ident@, crate::parser::optional_name(*cxx_name)) == Some(e),
        },
{
    check_identifier(ident.as_str())?;
    match cxx_name {
        Some(name) => {
            check_identifier(name.as_str())?;
            Ok(name.as_str())
        },
        None => Ok(ident.as_str()),
    }
}

} // verus!
