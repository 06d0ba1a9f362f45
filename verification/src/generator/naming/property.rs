//! Names for the parts of a property.

use crate::casing::{camel_case, pascal_case, snake_case, CaseStyle};
use crate::generator::naming::{
    base_error, capitalised_error, checked_source, converted_identifier, naming_error,
    native_source, prefixed, suffixed, CombinedIdent, CombinedIdentView, NamingError,
};
use crate::identifier::{all_ident_continue, is_identifier};
use crate::parser::ParsedProperty;
use vstd::prelude::*;
use vstd::string::*;

verus! {

/// The names of a property's getter: the base names, camel case of
/// `cxx_ident` on the native side and snake case of `ident` on the host side.
pub open spec fn property_getter(ident: Seq<char>, cxx_ident: Seq<char>) -> CombinedIdentView {
    CombinedIdentView { cpp: camel_case(cxx_ident), rust: snake_case(ident) }
}

/// The names of a property's setter: `set` and the Pascal case of
/// `cxx_ident` on the native side, `set_` and the host base name on the host
/// side.
pub open spec fn property_setter(ident: Seq<char>, cxx_ident: Seq<char>) -> CombinedIdentView {
    CombinedIdentView {
        cpp: "set"@ + pascal_case(cxx_ident),
        rust: "set_"@ + snake_case(ident),
    }
}

/// The names of a property's change notification: the native base name and
/// `Changed` on the native side, the host base name and `_changed` on the
/// host side.
pub open spec fn property_notify(ident: Seq<char>, cxx_ident: Seq<char>) -> CombinedIdentView {
    CombinedIdentView {
        cpp: camel_case(cxx_ident) + "Changed"@,
        rust: snake_case(ident) + "_changed"@,
    }
}

/// The model of a [`QPropertyName`].
pub struct QPropertyNameView {
    pub getter: CombinedIdentView,
    pub setter: CombinedIdentView,
    pub notify: Option<CombinedIdentView>,
}

impl QPropertyNameView {
    /// Every name is an identifier.
    pub open spec fn well_formed(self) -> bool {
        &&& self.getter.well_formed()
        &&& self.setter.well_formed()
        &&& self.notify is Some ==> self.notify->0.well_formed()
    }
}

/// All names of the property with the canonical identifier `ident` and the
/// optional native-side name `cxx_name`; the names of the change
/// notification are among them if `notify` says that one is declared.
pub open spec fn property_names(
    ident: Seq<char>,
    cxx_name: Option<Seq<char>>,
    notify: bool,
) -> QPropertyNameView {
    let cxx_ident = native_source(ident, cxx_name);
    QPropertyNameView {
        getter: property_getter(ident, cxx_ident),
        setter: property_setter(ident, cxx_ident),
        notify: if notify {
            Some(property_notify(ident, cxx_ident))
        } else {
            None
        },
    }
}

/// Names for parts of a property.
#[derive(Clone, Debug, PartialEq, Eq)]
pub struct QPropertyName {
    /// What reads the property.
    pub getter: CombinedIdent,
    /// What writes the property.
    pub setter: CombinedIdent,
    /// What tells of a change, if a change notification is declared.
    pub notify: Option<CombinedIdent>,
}

/// The model of an optional name in its two forms.
pub open spec fn optional_pair(name: Option<CombinedIdent>) -> Option<CombinedIdentView> {
    match name {
        Some(n) => Some(n@),
        None => None,
    }
}

impl View for QPropertyName {
    type V = QPropertyNameView;

    open spec fn view(&self) -> QPropertyNameView {
        QPropertyNameView {
            getter: self.getter@,
            setter: self.setter@,
            notify: optional_pair(self.notify),
        }
    }
}

/// The fixed parts of the derived names are made of characters that may
/// stand inside an identifier, and those that come first are identifiers.
proof fn lemma_fixed_parts()
    ensures
        is_identifier("set"@),
        is_identifier("set_"@),
        all_ident_continue("Changed"@),
        all_ident_continue("_changed"@),
{
    reveal_strlit("set");
    reveal_strlit("set_");
    reveal_strlit("Changed");
    reveal_strlit("_changed");
}

impl QPropertyName {
    /// Derives every name of `property`.
    pub fn from(property: &ParsedProperty) -> (r: Result<QPropertyName, NamingError>)
        ensures
            match r {
                Ok(names) => {
                    &&& naming_error(property@.ident, property@.cxx_name) is None
                    &&& names@ == property_names(
                        property@.ident,
                        property@.cxx_name,
                        property@.notify,
                    )
                    &&& names@.well_formed()
                },
                Err(e) => naming_error(property@.ident, property@.cxx_name) == Some(e),
            },
    {
        let cxx_ident = checked_source(&property.ident, &property.cxx_name)?;
        let ident = property.ident.as_str();

        let getter = CombinedIdent::getter_from_property(ident, cxx_ident)?;
        let setter = CombinedIdent::setter_from_property(ident, cxx_ident)?;
        let notify = if property.notify {
            Some(CombinedIdent::notify_from_property(ident, cxx_ident)?)
        } else {
            None
        };
        Ok(QPropertyName { getter, setter, notify })
    }
}

impl CombinedIdent {
    /// For a given property generates the native and the host getter name.
    pub fn getter_from_property(ident: &str, cxx_ident: &str) -> (r: Result<
        CombinedIdent,
        NamingError,
    >)
        ensures
            match r {
                Ok(name) => {
                    &&& base_error(ident@, cxx_ident@) is None
                    &&& name@ == property_getter(ident@, cxx_ident@)
                    &&& name@.well_formed()
                },
                Err(e) => base_error(ident@, cxx_ident@) == Some(e),
            },
    {
        Ok(
            CombinedIdent {
                cpp: converted_identifier(cxx_ident, CaseStyle::Camel)?,
                rust: converted_identifier(ident, CaseStyle::Snake)?,
            },
        )
    }

    /// For a given property generates the native and the host setter name.
    pub fn setter_from_property(ident: &str, cxx_ident: &str) -> (r: Result<
        CombinedIdent,
        NamingError,
    >)
        ensures
            match r {
                Ok(name) => {
                    &&& capitalised_error(ident@, cxx_ident@) is None
                    &&& name@ == property_setter(ident@, cxx_ident@)
                    &&& name@.well_formed()
                },
                Err(e) => capitalised_error(ident@, cxx_ident@) == Some(e),
            },
    {
        let pascal = converted_identifier(cxx_ident, CaseStyle::Pascal)?;
        let rust = converted_identifier(ident, CaseStyle::Snake)?;
        proof {
            lemma_fixed_parts();
        }
        Ok(
            CombinedIdent {
                cpp: prefixed("set", pascal.as_str()),
                rust: prefixed("set_", rust.as_str()),
            },
        )
    }

    /// For a given property generates the native and the host name of its
    /// change notification.
    pub fn notify_from_property(ident: &str, cxx_ident: &str) -> (r: Result<
        CombinedIdent,
        NamingError,
    >)
        ensures
            match r {
                Ok(name) => {
                    &&& base_error(ident@, cxx_ident@) is None
                    &&& name@ == property_notify(ident@, cxx_ident@)
                    &&& name@.well_formed()
                },
                Err(e) => base_error(ident@, cxx_ident@) == Some(e),
            },
    {
        let base = converted_identifier(cxx_ident, CaseStyle::Camel)?;
        let rust = converted_identifier(ident, CaseStyle::Snake)?;
        proof {
            lemma_fixed_parts();
        }
        Ok(
            CombinedIdent {
                cpp: suffixed(base.as_str(), "Changed"),
                rust: suffixed(rust.as_str(), "_changed"),
            },
        )
    }
}

} // verus!
