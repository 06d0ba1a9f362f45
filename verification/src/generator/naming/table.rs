//! The naming table of an object: the names of each of its declarations.

use crate::generator::naming::invokable::{
    invokable_names, invokable_naming_error, QInvokableName, QInvokableNameView,
};
use crate::generator::naming::property::{property_names, QPropertyName, QPropertyNameView};
use crate::generator::naming::signals::{signal_names, QSignalName, QSignalNameView};
use crate::generator::naming::{naming_error, NamingError};
use crate::parser::{Declaration, DeclarationView, ParsedObject};
use vstd::prelude::*;

verus! {

/// The names of one declaration.
#[derive(Clone, Debug, PartialEq, Eq)]
pub enum NamingTableEntry {
    /// The names of a signal.
    Signal(QSignalName),
    /// The names of a property.
    Property(QPropertyName),
    /// The names of an invokable method.
    Invokable(QInvokableName),
}

/// The model of a [`NamingTableEntry`].
pub enum NamingTableEntryView {
    Signal(QSignalNameView),
    Property(QPropertyNameView),
    Invokable(QInvokableNameView),
}

impl View for NamingTableEntry {
    type V = NamingTableEntryView;

    open spec fn view(&self) -> NamingTableEntryView {
        match self {
            NamingTableEntry::Signal(names) => NamingTableEntryView::Signal(names@),
            NamingTableEntry::Property(names) => NamingTableEntryView::Property(names@),
            NamingTableEntry::Invokable(names) => NamingTableEntryView::Invokable(names@),
        }
    }
}

/// The models of the entries in `table`, in order.
pub open spec fn entry_views(table: Seq<NamingTableEntry>) -> Seq<NamingTableEntryView> {
    table.map_values(|e: NamingTableEntry| e@)
}

/// The names of the declaration `declaration`.
pub open spec fn declaration_names(declaration: DeclarationView) -> NamingTableEntryView {
    match declaration {
        DeclarationView::Signal(signal) => NamingTableEntryView::Signal(
            signal_names(signal.ident, signal.cxx_name),
        ),
        DeclarationView::Property(property) => NamingTableEntryView::Property(
            property_names(property.ident, property.cxx_name, property.notify),
        ),
        DeclarationView::Invokable(invokable) => NamingTableEntryView::Invokable(
            invokable_names(invokable.ident, invokable.cxx_name),
        ),
    }
}

/// The fault that keeps the names of `declaration` from being derived, if
/// there is one.
pub open spec fn declaration_naming_error(declaration: DeclarationView) -> Option<NamingError> {
    match declaration {
        DeclarationView::Signal(signal) => naming_error(signal.ident, signal.cxx_name),
        DeclarationView::Property(property) => naming_error(property.ident, property.cxx_name),
        DeclarationView::Invokable(invokable) => invokable_naming_error(
            invokable.ident,
            invokable.cxx_name,
        ),
    }
}

/// Derives the names of one declaration.
pub fn derive_names(declaration: &Declaration) -> (r: Result<NamingTableEntry, NamingError>)
    ensures
        match r {
            Ok(entry) => {
                &&& declaration_naming_error(declaration@) is None
                &&& entry@ == declaration_names(declaration@)
            },
            Err(e) => declaration_naming_error(declaration@) == Some(e),
        },
{
    match declaration {
        Declaration::Signal(signal) => Ok(NamingTableEntry::Signal(QSignalName::from(signal)?)),
        Declaration::Property(property) => Ok(
            NamingTableEntry::Property(QPropertyName::from(property)?),
        ),
        Declaration::Invokable(invokable) => Ok(
            NamingTableEntry::Invokable(QInvokableName::from(invokable)?),
        ),
    }
}

/// A declaration whose names could not be derived, and why.
#[derive(Clone, Copy, Debug, PartialEq, Eq, Structural)]
pub struct NamingFailure {
    /// The place of the declaration among the object's declarations.
    pub declaration: usize,
    /// What is wrong with its names.
    pub error: NamingError,
}

/// `table` holds the names of the first `count` of `declarations`, none of
/// which has a fault.
pub open spec fn names_derived(
    declarations: Seq<DeclarationView>,
    table: Seq<NamingTableEntryView>,
    count: int,
) -> bool {
    &&& table.len() == count
    &&& forall|i: int|
        0 <= i < count ==> {
            &&& declaration_naming_error(#[trigger] declarations[i]) is None
            &&& table[i] == declaration_names(declarations[i])
        }
}

/// Derives the names of every declaration of `object`, in order. The first
/// declaration whose names cannot be derived ends the derivation.
pub fn naming_table(object: &ParsedObject) -> (r: Result<Vec<NamingTableEntry>, NamingFailure>)
    ensures
        match r {
            Ok(table) => names_derived(
                object@.declarations,
                entry_views(table@),
                object@.declarations.len() as int,
            ),
            Err(failure) => {
                &&& failure.declaration < object@.declarations.len()
                &&& forall|i: int|
                    0 <= i < failure.declaration ==> declaration_naming_error(
                        #[trigger] object@.declarations[i],
                    ) is None
                &&& declaration_naming_error(object@.declarations[failure.declaration as int])
                    == Some(failure.error)
            },
        },
{
    let mut table: Vec<NamingTableEntry> = Vec::new();
    let count = object.declarations.len();
    for i in 0..count
        invariant
            count == object.declarations@.len(),
            names_derived(object@.declarations, entry_views(table@), i as int),
    {
        match derive_names(&object.declarations[i]) {
            Ok(entry) => {
                table.push(entry);
            },
            Err(error) => {
                return Err(NamingFailure { declaration: i, error });
            },
        }
    }
    Ok(table)
}

} // verus!
