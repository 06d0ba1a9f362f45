//! The artifacts that generation emits, and which of them each declaration
//! gets.
//!
//! A signal gets, on the native side, the signal itself and an entry point
//! that emits it; on the host side, a function that triggers the emission and
//! a function that connects a handler. A property gets a getter and a setter
//! on each side. An invokable method gets an entry point on the native side
//! and a call on the host side.

use crate::generator::marshal::{
    marshalled_parameters, marshalled_type, marshalled_views, optional_marshalled,
    MarshalledParameter, MarshalledParameterView, MarshalledType, MarshalledTypeView,
};
use crate::generator::naming::invokable::QInvokableNameView;
use crate::generator::naming::property::QPropertyNameView;
use crate::generator::naming::signals::QSignalNameView;
use crate::generator::naming::table::NamingTableEntryView;
use crate::parser::{
    DeclarationView, ParsedInvokableView, ParsedPropertyView, ParsedSignalView,
};
use vstd::prelude::*;

verus! {

/// What an artifact is.
#[derive(Clone, Copy, Debug, PartialEq, Eq, Structural)]
pub enum ArtifactKind {
    /// A signal, which notifies the handlers connected to it.
    Signal,
    /// What emits a signal.
    Emit,
    /// What connects a handler to a signal.
    Connect,
    /// What reads a property.
    Getter,
    /// What writes a property.
    Setter,
    /// An invokable method.
    Invokable,
}

/// A declaration on the native side.
#[derive(Clone, Debug, PartialEq, Eq)]
pub struct NativeArtifact {
    /// What the artifact is.
    pub kind: ArtifactKind,
    /// Its name.
    pub name: String,
    /// Its parameters, in order.
    pub parameters: Vec<MarshalledParameter>,
    /// The type of what it hands back, if it hands anything back.
    pub return_type: Option<MarshalledType>,
    /// The signal that it emits with each call, if it emits one.
    pub signal: Option<String>,
}

/// The model of a [`NativeArtifact`].
pub struct NativeArtifactView {
    pub kind: ArtifactKind,
    pub name: Seq<char>,
    pub parameters: Seq<MarshalledParameterView>,
    pub return_type: Option<MarshalledTypeView>,
    pub signal: Option<Seq<char>>,
}

impl View for NativeArtifact {
    type V = NativeArtifactView;

    open spec fn view(&self) -> NativeArtifactView {
        NativeArtifactView {
            kind: self.kind,
            name: self.name@,
            parameters: marshalled_views(self.parameters@),
            return_type: optional_marshalled(self.return_type),
            signal: crate::parser::optional_name(self.signal),
        }
    }
}

/// A declaration on the host side.
#[derive(Clone, Debug, PartialEq, Eq)]
pub struct HostArtifact {
    /// What the artifact is.
    pub kind: ArtifactKind,
    /// Its name.
    pub name: String,
    /// Its parameters, in order.
    pub parameters: Vec<MarshalledParameter>,
    /// The type of what it hands back, if it hands anything back.
    pub return_type: Option<MarshalledType>,
    /// The name on the native side of what it forwards to.
    pub native: String,
    /// The handler that it registers, if it registers one.
    pub handler: Option<String>,
}

/// The model of a [`HostArtifact`].
pub struct HostArtifactView {
    pub kind: ArtifactKind,
    pub name: Seq<char>,
    pub parameters: Seq<MarshalledParameterView>,
    pub return_type: Option<MarshalledTypeView>,
    pub native: Seq<char>,
    pub handler: Option<Seq<char>>,
}

impl View for HostArtifact {
    type V = HostArtifactView;

    open spec fn view(&self) -> HostArtifactView {
        HostArtifactView {
            kind: self.kind,
            name: self.name@,
            parameters: marshalled_views(self.parameters@),
            return_type: optional_marshalled(self.return_type),
            native: self.native@,
            handler: crate::parser::optional_name(self.handler),
        }
    }
}

/// The models of the artifacts in `artifacts`, in order.
pub open spec fn native_views(artifacts: Seq<NativeArtifact>) -> Seq<NativeArtifactView> {
    artifacts.map_values(|a: NativeArtifact| a@)
}

/// The models of the artifacts in `artifacts`, in order.
pub open spec fn host_views(artifacts: Seq<HostArtifact>) -> Seq<HostArtifactView> {
    artifacts.map_values(|a: HostArtifact| a@)
}

/// What generation emits for one object.
#[derive(Clone, Debug, PartialEq, Eq)]
pub struct GeneratedObject {
    /// The declarations for the native side.
    pub native: Vec<NativeArtifact>,
    /// The declarations for the host side.
    pub host: Vec<HostArtifact>,
}

/// The model of a [`GeneratedObject`].
pub struct GeneratedObjectView {
    pub native: Seq<NativeArtifactView>,
    pub host: Seq<HostArtifactView>,
}

impl View for GeneratedObject {
    type V = GeneratedObjectView;

    open spec fn view(&self) -> GeneratedObjectView {
        GeneratedObjectView { native: native_views(self.native@), host: host_views(self.host@) }
    }
}

/// The name of the one parameter of a setter.
pub open spec fn setter_parameter_name() -> Seq<char> {
    "value"@
}

/// The native side's artifacts of a signal: the signal, and the entry point
/// that emits it.
pub open spec fn signal_native(signal: ParsedSignalView, names: QSignalNameView) -> Seq<
    NativeArtifactView,
> {
    let parameters = marshalled_parameters(signal.parameters);
    seq![
        NativeArtifactView {
            kind: ArtifactKind::Signal,
            name: names.name.cpp,
            parameters,
            return_type: None,
            signal: None,
        },
        NativeArtifactView {
            kind: ArtifactKind::Emit,
            name: names.emit_name.cpp,
            parameters,
            return_type: None,
            signal: Some(names.name.cpp),
        },
    ]
}

/// The host side's artifacts of a signal: the function that triggers the
/// emission on the native side, and the function that connects the handler.
pub open spec fn signal_host(signal: ParsedSignalView, names: QSignalNameView) -> Seq<
    HostArtifactView,
> {
    let parameters = marshalled_parameters(signal.parameters);
    seq![
        HostArtifactView {
            kind: ArtifactKind::Emit,
            name: names.emit_name.rust,
            parameters,
            return_type: None,
            native: names.emit_name.cpp,
            handler: None,
        },
        HostArtifactView {
            kind: ArtifactKind::Connect,
            name: names.connect_name.rust,
            parameters,
            return_type: None,
            native: names.connect_name.cpp,
            handler: Some(names.on_name),
        },
    ]
}

/// The one parameter of a property's setter.
pub open spec fn setter_parameters(property: ParsedPropertyView) -> Seq<MarshalledParameterView> {
    seq![
        MarshalledParameterView {
            ident: setter_parameter_name(),
            ty: marshalled_type(property.ty),
        },
    ]
}

/// The native name of a property's change notification, if one is declared.
pub open spec fn notification(names: QPropertyNameView) -> Option<Seq<char>> {
    match names.notify {
        Some(notify) => Some(notify.cpp),
        None => None,
    }
}

/// The native side's artifacts of a property: the getter, and the setter,
/// which emits the change notification if one is declared.
pub open spec fn property_native(property: ParsedPropertyView, names: QPropertyNameView) -> Seq<
    NativeArtifactView,
> {
    seq![
        NativeArtifactView {
            kind: ArtifactKind::Getter,
            name: names.getter.cpp,
            parameters: Seq::empty(),
            return_type: Some(marshalled_type(property.ty)),
            signal: None,
        },
        NativeArtifactView {
            kind: ArtifactKind::Setter,
            name: names.setter.cpp,
            parameters: setter_parameters(property),
            return_type: None,
            signal: notification(names),
        },
    ]
}

/// The host side's artifacts of a property: the getter and the setter, each
/// forwarding to its native counterpart.
pub open spec fn property_host(property: ParsedPropertyView, names: QPropertyNameView) -> Seq<
    HostArtifactView,
> {
    seq![
        HostArtifactView {
            kind: ArtifactKind::Getter,
            name: names.getter.rust,
            parameters: Seq::empty(),
            return_type: Some(marshalled_type(property.ty)),
            native: names.getter.cpp,
            handler: None,
        },
        HostArtifactView {
            kind: ArtifactKind::Setter,
            name: names.setter.rust,
            parameters: setter_parameters(property),
            return_type: None,
            native: names.setter.cpp,
            handler: None,
        },
    ]
}

/// The type of what an invokable method returns, with its convention.
pub open spec fn invokable_returns(invokable: ParsedInvokableView) -> Option<MarshalledTypeView> {
    match invokable.return_type {
        Some(ty) => Some(marshalled_type(ty)),
        None => None,
    }
}

/// The native side's artifact of an invokable method: its entry point.
pub open spec fn invokable_native(
    invokable: ParsedInvokableView,
    names: QInvokableNameView,
) -> Seq<NativeArtifactView> {
    seq![
        NativeArtifactView {
            kind: ArtifactKind::Invokable,
            name: names.name.cpp,
            parameters: marshalled_parameters(invokable.parameters),
            return_type: invokable_returns(invokable),
            signal: None,
        },
    ]
}

/// The host side's artifact of an invokable method: the call that forwards
/// to the entry point.
pub open spec fn invokable_host(invokable: ParsedInvokableView, names: QInvokableNameView) -> Seq<
    HostArtifactView,
> {
    seq![
        HostArtifactView {
            kind: ArtifactKind::Invokable,
            name: names.name.rust,
            parameters: marshalled_parameters(invokable.parameters),
            return_type: invokable_returns(invokable),
            native: names.name.cpp,
            handler: None,
        },
    ]
}

/// `entry` holds names of the kind of construct that `declaration` is.
pub open spec fn entry_fits(declaration: DeclarationView, entry: NamingTableEntryView) -> bool {
    match (declaration, entry) {
        (DeclarationView::Signal(_), NamingTableEntryView::Signal(_)) => true,
        (DeclarationView::Property(_), NamingTableEntryView::Property(_)) => true,
        (DeclarationView::Invokable(_), NamingTableEntryView::Invokable(_)) => true,
        _ => false,
    }
}

/// The native side's artifacts of `declaration` under the names in `entry`.
pub open spec fn declaration_native(
    declaration: DeclarationView,
    entry: NamingTableEntryView,
) -> Seq<NativeArtifactView> {
    match (declaration, entry) {
        (DeclarationView::Signal(signal), NamingTableEntryView::Signal(names)) => signal_native(
            signal,
            names,
        ),
        (
            DeclarationView::Property(property),
            NamingTableEntryView::Property(names),
        ) => property_native(property, names),
        (
            DeclarationView::Invokable(invokable),
            NamingTableEntryView::Invokable(names),
        ) => invokable_native(invokable, names),
        _ => Seq::empty(),
    }
}

/// The host side's artifacts of `declaration` under the names in `entry`.
pub open spec fn declaration_host(
    declaration: DeclarationView,
    entry: NamingTableEntryView,
) -> Seq<HostArtifactView> {
    match (declaration, entry) {
        (DeclarationView::Signal(signal), NamingTableEntryView::Signal(names)) => signal_host(
            signal,
            names,
        ),
        (
            DeclarationView::Property(property),
            NamingTableEntryView::Property(names),
        ) => property_host(property, names),
        (
            DeclarationView::Invokable(invokable),
            NamingTableEntryView::Invokable(names),
        ) => invokable_host(invokable, names),
        _ => Seq::empty(),
    }
}

} // verus!
