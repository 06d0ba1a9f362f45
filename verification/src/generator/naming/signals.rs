//! Names for the parts of a signal.

use crate::casing::{camel_case, pascal_case, snake_case, CaseStyle};
use crate::generator::naming::{
    base_error, capitalised_error, checked_source, converted_identifier, identifier_error,
    naming_error, native_source, prefixed, suffixed, CombinedIdent, CombinedIdentView,
    NamingError,
};
use crate::identifier::{all_ident_continue, is_identifier};
use crate::parser::ParsedSignal;
use vstd::prelude::*;
use vstd::string::*;

verus! {

/// The base names of a signal: camel case of `cxx_ident` on the native side,
/// snake case of `ident` on the host side.
pub open spec fn signal_base(ident: Seq<char>, cxx_ident: Seq<char>) -> CombinedIdentView {
    CombinedIdentView { cpp: camel_case(cxx_ident), rust: snake_case(ident) }
}

/// The names under which a signal is emitted: `emit` and the Pascal case of
/// `cxx_ident` on the native side, `emit_` and the host base name on the host
/// side.
pub open spec fn signal_emit(ident: Seq<char>, cxx_ident: Seq<char>) -> CombinedIdentView {
    CombinedIdentView {
        cpp: "emit"@ + pascal_case(cxx_ident),
        rust: "emit_"@ + snake_case(ident),
    }
}

/// The names under which a handler is connected to a signal: the native base
/// name and `Connect` on the native side, `connect_` and the host base name
/// on the host side.
pub open spec fn signal_connect(ident: Seq<char>, cxx_ident: Seq<char>) -> CombinedIdentView {
    CombinedIdentView {
        cpp: camel_case(cxx_ident) + "Connect"@,
        rust: "connect_"@ + snake_case(ident),
    }
}

/// The name of a signal's handler: `on_` and the host base name.
pub open spec fn signal_handler(ident: Seq<char>) -> Seq<char> {
    "on_"@ + snake_case(ident)
}

/// The model of a [`QSignalName`].
pub struct QSignalNameView {
    pub enum_name: Seq<char>,
    pub name: CombinedIdentView,
    pub emit_name: CombinedIdentView,
    pub connect_name: CombinedIdentView,
    pub on_name: Seq<char>,
}

impl QSignalNameView {
    /// Every name is an identifier.
    pub open spec fn well_formed(self) -> bool {
        &&& is_identifier(self.enum_name)
        &&& self.name.well_formed()
        &&& self.emit_name.well_formed()
        &&& self.connect_name.well_formed()
        &&& is_identifier(self.on_name)
    }
}

/// All names of the signal with the canonical identifier `ident` and the
/// optional native-side name `cxx_name`.
pub open spec fn signal_names(ident: Seq<char>, cxx_name: Option<Seq<char>>) -> QSignalNameView {
    let cxx_ident = native_source(ident, cxx_name);
    QSignalNameView {
        enum_name: ident,
        name: signal_base(ident, cxx_ident),
        emit_name: signal_emit(ident, cxx_ident),
        connect_name: signal_connect(ident, cxx_ident),
        on_name: signal_handler(ident),
    }
}

/// Without a name for the native side, the host base name of a signal is the
/// snake case of its identifier and the native base name is the camel case
/// of it; the derivation succeeds exactly when both are identifiers and the
/// Pascal case of the identifier is one too.
pub proof fn lemma_names_follow_identifier(ident: Seq<char>)
    requires
        is_identifier(ident),
    ensures
        signal_names(ident, None).name.rust == snake_case(ident),
        signal_names(ident, None).name.cpp == camel_case(ident),
        naming_error(ident, None) is None <==> {
            &&& is_identifier(camel_case(ident))
            &&& is_identifier(snake_case(ident))
            &&& is_identifier(pascal_case(ident))
        },
{
}

/// A name given for the native side takes the identifier's place in every
/// native name and in no host name: the host names, and the tag, are those
/// of the signal without such a name.
pub proof fn lemma_override_is_native_only(ident: Seq<char>, cxx_name: Seq<char>)
    ensures
        signal_names(ident, Some(cxx_name)).name.cpp == camel_case(cxx_name),
        signal_names(ident, Some(cxx_name)).emit_name.cpp == "emit"@ + pascal_case(cxx_name),
        signal_names(ident, Some(cxx_name)).connect_name.cpp == camel_case(cxx_name) + "Connect"@,
        signal_names(ident, Some(cxx_name)).name.rust == snake_case(ident),
        signal_names(ident, Some(cxx_name)).name.rust == signal_names(ident, None).name.rust,
        signal_names(ident, Some(cxx_name)).emit_name.rust == signal_names(
            ident,
            None,
        ).emit_name.rust,
        signal_names(ident, Some(cxx_name)).connect_name.rust == signal_names(
            ident,
            None,
        ).connect_name.rust,
        signal_names(ident, Some(cxx_name)).on_name == signal_names(ident, None).on_name,
        signal_names(ident, Some(cxx_name)).enum_name == ident,
{
}

/// Names for parts of a signal.
#[derive(Clone, Debug, PartialEq, Eq)]
pub struct QSignalName {
    /// The tag that stands for the signal in an enumeration of signals.
    pub enum_name: String,
    /// The signal itself.
    pub name: CombinedIdent,
    /// What emits the signal.
    pub emit_name: CombinedIdent,
    /// What connects a handler to the signal.
    pub connect_name: CombinedIdent,
    /// The handler on the host side.
    pub on_name: String,
}

impl View for QSignalName {
    type V = QSignalNameView;

    open spec fn view(&self) -> QSignalNameView {
        QSignalNameView {
            enum_name: self.enum_name@,
            name: self.name@,
            emit_name: self.emit_name@,
            connect_name: self.connect_name@,
            on_name: self.on_name@,
        }
    }
}

/// The fixed parts of the derived names are made of characters that may
/// stand inside an identifier, and those that come first are identifiers.
proof fn lemma_fixed_parts()
    ensures
        is_identifier("emit"@),
        is_identifier("emit_"@),
        is_identifier("connect_"@),
        is_identifier("on_"@),
        all_ident_continue("Connect"@),
{
    reveal_strlit("emit");
    reveal_strlit("emit_");
    reveal_strlit("connect_");
    reveal_strlit("on_");
    reveal_strlit("Connect");
}

impl QSignalName {
    /// Derives every name of `signal`.
    ///
    /// The native side's names come from the name given for the native side
    /// where there is one, else from the canonical identifier; the host
    /// side's names always come from the canonical identifier.
    pub fn from(signal: &ParsedSignal) -> (r: Result<QSignalName, NamingError>)
        ensures
            match r {
                Ok(names) => {
                    &&& naming_error(signal@.ident, signal@.cxx_name) is None
                    &&& names@ == signal_names(signal@.ident, signal@.cxx_name)
                    &&& names@.well_formed()
                },
                Err(e) => naming_error(signal@.ident, signal@.cxx_name) == Some(e),
            },
    {
        // Check if there is a native-side name that should be used
        let cxx_ident = checked_source(&signal.ident, &signal.cxx_name)?;
        let ident = signal.ident.as_str();

        Ok(
            QSignalName {
                enum_name: signal.ident.clone(),
                name: CombinedIdent::from_signal(ident, cxx_ident)?,
                emit_name: CombinedIdent::emit_from_signal(ident, cxx_ident)?,
                connect_name: CombinedIdent::connect_from_signal(ident, cxx_ident)?,
                on_name: on_from_signal(ident)?,
            },
        )
    }
}

/// Derives the name of the handler of the signal `ident`.
pub fn on_from_signal(ident: &str) -> (r: Result<String, NamingError>)
    ensures
        match r {
            Ok(name) => {
                &&& identifier_error(snake_case(ident@)) is None
                &&& name@ == signal_handler(ident@)
                &&& is_identifier(name@)
            },
            Err(e) => identifier_error(snake_case(ident@)) == Some(e),
        },
{
    let rust = converted_identifier(ident, CaseStyle::Snake)?;
    proof {
        lemma_fixed_parts();
    }
    Ok(prefixed("on_", rust.as_str()))
}

impl CombinedIdent {
    /// For a given signal generates the native and the host base name.
    pub fn from_signal(ident: &str, cxx_ident: &str) -> (r: Result<CombinedIdent, NamingError>)
        ensures
            match r {
                Ok(name) => {
                    &&& base_error(ident@, cxx_ident@) is None
                    &&& name@ == signal_base(ident@, cxx_ident@)
                    &&& name@.well_formed()
                },
                Err(e) => base_error(ident@, cxx_ident@) == Some(e),
            },
    {
        Ok(
            CombinedIdent {
                cpp: converted_identifier(cxx_ident, CaseStyle::Camel)?,
                // Signals are declared in Pascal case, so the host name is converted too
                rust: converted_identifier(ident, CaseStyle::Snake)?,
            },
        )
    }

    /// For a given signal generates the native and the host emit name.
    pub fn emit_from_signal(ident: &str, cxx_ident: &str) -> (r: Result<
        CombinedIdent,
        NamingError,
    >)
        ensures
            match r {
                Ok(name) => {
                    &&& capitalised_error(ident@, cxx_ident@) is None
                    &&& name@ == signal_emit(ident@, cxx_ident@)
                    &&& name@.well_formed()
                },
                Err(e) => capitalised_error(ident@, cxx_ident@) == Some(e),
            },
    {
        let pascal = converted_identifier(cxx_ident, CaseStyle::Pascal)?;
        let rust = converted_identifier(ident, CaseStyle::Snake)?;
        proof {
            lemma_fixed_parts();
        }
        Ok(
            CombinedIdent {
                cpp: prefixed("emit", pascal.as_str()),
                rust: prefixed("emit_", rust.as_str()),
            },
        )
    }

    /// For a given signal generates the native and the host connect name.
    pub fn connect_from_signal(ident: &str, cxx_ident: &str) -> (r: Result<
        CombinedIdent,
        NamingError,
    >)
        ensures
            match r {
                Ok(name) => {
                    &&& base_error(ident@, cxx_ident@) is None
                    &&& name@ == signal_connect(ident@, cxx_ident@)
                    &&& name@.well_formed()
                },
                Err(e) => base_error(ident@, cxx_ident@) == Some(e),
            },
    {
        let base = converted_identifier(cxx_ident, CaseStyle::Camel)?;
        let rust = converted_identifier(ident, CaseStyle::Snake)?;
        proof {
            lemma_fixed_parts();
        }
        Ok(
            CombinedIdent {
                // The native name is the signal's name and `Connect`, not `on` and the
                // signal's name: declarative bindings name a signal's handler that way
                cpp: suffixed(base.as_str(), "Connect"),
                rust: prefixed("connect_", rust.as_str()),
            },
        )
    }
}

} // verus!
