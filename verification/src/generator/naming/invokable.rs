//! Names for an invokable method.

use crate::casing::{camel_case, snake_case, CaseStyle};
use crate::generator::naming::{
    base_error, checked_source, converted_identifier, first_error, native_source, source_error,
    CombinedIdent, CombinedIdentView, NamingError,
};
use crate::parser::ParsedInvokable;
use vstd::prelude::*;

verus! {

/// The names of an invokable method: camel case of `cxx_ident` for the entry
/// point on the native side, snake case of `ident` for the call on the host
/// side.
pub open spec fn invokable_base(ident: Seq<char>, cxx_ident: Seq<char>) -> CombinedIdentView {
    CombinedIdentView { cpp: camel_case(cxx_ident), rust: snake_case(ident) }
}

/// The model of a [`QInvokableName`].
pub struct QInvokableNameView {
    pub name: CombinedIdentView,
}

/// The names of the invokable method with the canonical identifier `ident`
/// and the optional native-side name `cxx_name`.
pub open spec fn invokable_names(
    ident: Seq<char>,
    cxx_name: Option<Seq<char>>,
) -> QInvokableNameView {
    QInvokableNameView { name: invokable_base(ident, native_source(ident, cxx_name)) }
}

/// The fault that keeps the names of an invokable method from being derived,
/// if there is one. The canonical identifier is looked at first, then the
/// name given for the native side, then the base names.
pub open spec fn invokable_naming_error(
    ident: Seq<char>,
    cxx_name: Option<Seq<char>>,
) -> Option<NamingError> {
    first_error(
        source_error(ident, cxx_name),
        base_error(ident, native_source(ident, cxx_name)),
    )
}

/// Names for an invokable method.
#[derive(Clone, Debug, PartialEq, Eq)]
pub struct QInvokableName {
    /// The method itself.
    pub name: CombinedIdent,
}

impl View for QInvokableName {
    type V = QInvokableNameView;

    open spec fn view(&self) -> QInvokableNameView {
        QInvokableNameView { name: self.name@ }
    }
}

impl QInvokableName {
    /// Derives the names of `invokable`.
    pub fn from(invokable: &ParsedInvokable) -> (r: Result<QInvokableName, NamingError>)
        ensures
            match r {
                Ok(names) => {
                    &&& invokable_naming_error(invokable@.ident, invokable@.cxx_name) is None
                    &&& names@ == invokable_names(invokable@.ident, invokable@.cxx_name)
                    &&& names@.name.well_formed()
                },
                Err(e) => invokable_naming_error(invokable@.ident, invokable@.cxx_name) == Some(e),
            },
    {
        let cxx_ident = checked_source(&invokable.ident, &invokable.cxx_name)?;
        Ok(
            QInvokableName {
                name: CombinedIdent::from_invokable(invokable.ident.as_str(), cxx_ident)?,
            },
        )
    }
}

impl CombinedIdent {
    /// For a given invokable method generates the native and the host name.
    pub fn from_invokable(ident: &str, cxx_ident: &str) -> (r: Result<CombinedIdent, NamingError>)
        ensures
            match r {
                Ok(name) => {
                    &&& base_error(ident@, cxx_ident@) is None
                    &&& name@ == invokable_base(ident@, cxx_ident@)
                    &&& name@.well_formed()
                },
                Err(e) => base_error(ident@, cxx_ident@) == Some(e),
            },
    {
        Ok(
            CombinedIdent {
                cpp: converted_identifier(cxx_ident, CaseStyle::Camel)?,
                rust: converted_identifier(ident, CaseStyle::Snake)?,
            },
        )
    }
}

} // verus!
