//! The parsed object model: what the generator is given.
//!
//! The model is data only. It is produced by a front end that has already
//! checked the syntax of what it read.

use vstd::prelude::*;

verus! {

/// How values of a type cross the boundary between the two sides.
#[derive(Clone, Copy, Debug, PartialEq, Eq, Structural)]
pub enum TypeKind {
    /// A value type whose values are duplicated when they cross.
    CopyValue,
    /// A value type whose values change owner when they cross.
    MoveValue,
    /// A reference type: the other side gets access, not ownership.
    Reference,
    /// A type with no known representation on the other side.
    Unknown,
}

/// A type as it was declared.
#[derive(Clone, Debug, PartialEq, Eq)]
pub struct ParsedType {
    /// The type's name on the host side.
    pub name: String,
    /// How its values cross the boundary.
    pub kind: TypeKind,
}

/// The model of a [`ParsedType`].
pub struct ParsedTypeView {
    pub name: Seq<char>,
    pub kind: TypeKind,
}

impl View for ParsedType {
    type V = ParsedTypeView;

    open spec fn view(&self) -> ParsedTypeView {
        ParsedTypeView { name: self.name@, kind: self.kind }
    }
}

/// One typed parameter of a signal or of an invokable method.
#[derive(Clone, Debug, PartialEq, Eq)]
pub struct ParsedParameter {
    /// The parameter's name.
    pub ident: String,
    /// The parameter's type.
    pub ty: ParsedType,
}

/// The model of a [`ParsedParameter`].
pub struct ParsedParameterView {
    pub ident: Seq<char>,
    pub ty: ParsedTypeView,
}

impl View for ParsedParameter {
    type V = ParsedParameterView;

    open spec fn view(&self) -> ParsedParameterView {
        ParsedParameterView { ident: self.ident@, ty: self.ty@ }
    }
}

/// The models of the parameters in `parameters`, in order.
pub open spec fn parameter_views(parameters: Seq<ParsedParameter>) -> Seq<ParsedParameterView> {
    parameters.map_values(|p: ParsedParameter| p@)
}

/// The model of an optional name.
pub open spec fn optional_name(name: Option<String>) -> Option<Seq<char>> {
    match name {
        Some(n) => Some(n@),
        None => None,
    }
}

/// A declared signal.
#[derive(Clone, Debug, PartialEq, Eq)]
pub struct ParsedSignal {
    /// The identifier as the author wrote it.
    pub ident: String,
    /// The values that the signal carries, in order.
    pub parameters: Vec<ParsedParameter>,
    /// The name that the native side is to see, if it differs.
    pub cxx_name: Option<String>,
    /// Whether the signal is inherited from the native base class.
    pub inherit: bool,
}

/// The model of a [`ParsedSignal`].
pub struct ParsedSignalView {
    pub ident: Seq<char>,
    pub parameters: Seq<ParsedParameterView>,
    pub cxx_name: Option<Seq<char>>,
    pub inherit: bool,
}

impl View for ParsedSignal {
    type V = ParsedSignalView;

    open spec fn view(&self) -> ParsedSignalView {
        ParsedSignalView {
            ident: self.ident@,
            parameters: parameter_views(self.parameters@),
            cxx_name: optional_name(self.cxx_name),
            inherit: self.inherit,
        }
    }
}

/// A declared property.
#[derive(Clone, Debug, PartialEq, Eq)]
pub struct ParsedProperty {
    /// The identifier as the author wrote it.
    pub ident: String,
    /// The type of the property's value.
    pub ty: ParsedType,
    /// The name that the native side is to see, if it differs.
    pub cxx_name: Option<String>,
    /// Whether a change notification is declared for the property.
    pub notify: bool,
}

/// The model of a [`ParsedProperty`].
pub struct ParsedPropertyView {
    pub ident: Seq<char>,
    pub ty: ParsedTypeView,
    pub cxx_name: Option<Seq<char>>,
    pub notify: bool,
}

impl View for ParsedProperty {
    type V = ParsedPropertyView;

    open spec fn view(&self) -> ParsedPropertyView {
        ParsedPropertyView {
            ident: self.ident@,
            ty: self.ty@,
            cxx_name: optional_name(self.cxx_name),
            notify: self.notify,
        }
    }
}

/// The model of an optional type.
pub open spec fn optional_type(ty: Option<ParsedType>) -> Option<ParsedTypeView> {
    match ty {
        Some(t) => Some(t@),
        None => None,
    }
}

/// A declared invokable method.
#[derive(Clone, Debug, PartialEq, Eq)]
pub struct ParsedInvokable {
    /// The identifier as the author wrote it.
    pub ident: String,
    /// The method's parameters, in order.
    pub parameters: Vec<ParsedParameter>,
    /// The type of what the method returns, if it returns anything.
    pub return_type: Option<ParsedType>,
    /// The name that the native side is to see, if it differs.
    pub cxx_name: Option<String>,
}

/// The model of a [`ParsedInvokable`].
pub struct ParsedInvokableView {
    pub ident: Seq<char>,
    pub parameters: Seq<ParsedParameterView>,
    pub return_type: Option<ParsedTypeView>,
    pub cxx_name: Option<Seq<char>>,
}

impl View for ParsedInvokable {
    type V = ParsedInvokableView;

    open spec fn view(&self) -> ParsedInvokableView {
        ParsedInvokableView {
            ident: self.ident@,
            parameters: parameter_views(self.parameters@),
            return_type: optional_type(self.return_type),
            cxx_name: optional_name(self.cxx_name),
        }
    }
}

/// One declared construct of an object.
#[derive(Clone, Debug, PartialEq, Eq)]
pub enum Declaration {
    /// A signal.
    Signal(ParsedSignal),
    /// A property.
    Property(ParsedProperty),
    /// An invokable method.
    Invokable(ParsedInvokable),
}

/// The model of a [`Declaration`].
pub enum DeclarationView {
    Signal(ParsedSignalView),
    Property(ParsedPropertyView),
    Invokable(ParsedInvokableView),
}

impl View for Declaration {
    type V = DeclarationView;

    open spec fn view(&self) -> DeclarationView {
        match self {
            Declaration::Signal(signal) => DeclarationView::Signal(signal@),
            Declaration::Property(property) => DeclarationView::Property(property@),
            Declaration::Invokable(invokable) => DeclarationView::Invokable(invokable@),
        }
    }
}

/// The models of the declarations in `declarations`, in order.
pub open spec fn declaration_views(declarations: Seq<Declaration>) -> Seq<DeclarationView> {
    declarations.map_values(|d: Declaration| d@)
}

/// An object and what it declares, in the order of the declarations.
#[derive(Clone, Debug, PartialEq, Eq)]
pub struct ParsedObject {
    /// The object's name.
    pub ident: String,
    /// What the object declares.
    pub declarations: Vec<Declaration>,
}

/// The model of a [`ParsedObject`].
pub struct ParsedObjectView {
    pub ident: Seq<char>,
    pub declarations: Seq<DeclarationView>,
}

impl View for ParsedObject {
    type V = ParsedObjectView;

    open spec fn view(&self) -> ParsedObjectView {
        ParsedObjectView {
            ident: self.ident@,
            declarations: declaration_views(self.declarations@),
        }
    }
}

} // verus!
