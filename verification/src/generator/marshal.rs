//! How values cross the boundary: the ownership convention of each type.

use crate::parser::{
    parameter_views, ParsedParameter, ParsedParameterView, ParsedType, ParsedTypeView, TypeKind,
};
use vstd::prelude::*;

verus! {

/// How a value is handed to the other side.
#[derive(Clone, Copy, Debug, PartialEq, Eq, Structural)]
pub enum Passing {
    /// The other side gets a duplicate.
    Copy,
    /// The other side becomes the owner.
    Move,
    /// The other side gets access for the length of the call and owns nothing.
    Borrow,
}

/// The convention for the values of a type of the given kind, if the kind
/// has a representation on the other side.
pub open spec fn passing_of(kind: TypeKind) -> Option<Passing> {
    match kind {
        TypeKind::CopyValue => Some(Passing::Copy),
        TypeKind::MoveValue => Some(Passing::Move),
        TypeKind::Reference => Some(Passing::Borrow),
        TypeKind::Unknown => None,
    }
}

/// A type together with the way in which its values cross the boundary.
#[derive(Clone, Debug, PartialEq, Eq)]
pub struct MarshalledType {
    /// The type's name on the host side.
    pub name: String,
    /// How its values are handed over.
    pub passing: Passing,
}

/// The model of a [`MarshalledType`].
pub struct MarshalledTypeView {
    pub name: Seq<char>,
    pub passing: Passing,
}

impl View for MarshalledType {
    type V = MarshalledTypeView;

    open spec fn view(&self) -> MarshalledTypeView {
        MarshalledTypeView { name: self.name@, passing: self.passing }
    }
}

/// A parameter together with the way in which its values cross the boundary.
#[derive(Clone, Debug, PartialEq, Eq)]
pub struct MarshalledParameter {
    /// The parameter's name.
    pub ident: String,
    /// The parameter's type.
    pub ty: MarshalledType,
}

/// The model of a [`MarshalledParameter`].
pub struct MarshalledParameterView {
    pub ident: Seq<char>,
    pub ty: MarshalledTypeView,
}

impl View for MarshalledParameter {
    type V = MarshalledParameterView;

    open spec fn view(&self) -> MarshalledParameterView {
        MarshalledParameterView { ident: self.ident@, ty: self.ty@ }
    }
}

/// The models of the parameters in `parameters`, in order.
pub open spec fn marshalled_views(parameters: Seq<MarshalledParameter>) -> Seq<
    MarshalledParameterView,
> {
    parameters.map_values(|p: MarshalledParameter| p@)
}

/// The model of an optional marshalled type.
pub open spec fn optional_marshalled(ty: Option<MarshalledType>) -> Option<MarshalledTypeView> {
    match ty {
        Some(t) => Some(t@),
        None => None,
    }
}

/// `ty` has a representation on the other side.
pub open spec fn is_representable(ty: ParsedTypeView) -> bool {
    passing_of(ty.kind) is Some
}

/// Every parameter in `parameters` has a type with a representation on the
/// other side.
pub open spec fn all_representable(parameters: Seq<ParsedParameterView>) -> bool {
    forall|i: int| 0 <= i < parameters.len() ==> is_representable(#[trigger] parameters[i].ty)
}

/// `ty` with the convention of its kind. Meant for types that have a
/// representation on the other side.
pub open spec fn marshalled_type(ty: ParsedTypeView) -> MarshalledTypeView {
    MarshalledTypeView { name: ty.name, passing: passing_of(ty.kind).unwrap() }
}

/// `parameter` with the convention of its type's kind.
pub open spec fn marshalled_parameter(parameter: ParsedParameterView) -> MarshalledParameterView {
    MarshalledParameterView { ident: parameter.ident, ty: marshalled_type(parameter.ty) }
}

/// The parameters in `parameters`, each with the convention of its type's
/// kind, in order.
pub open spec fn marshalled_parameters(parameters: Seq<ParsedParameterView>) -> Seq<
    MarshalledParameterView,
> {
    parameters.map_values(|p: ParsedParameterView| marshalled_parameter(p))
}

/// Finds the convention for the values of `ty`. There is none where the type
/// has no representation on the other side.
pub fn marshal_type(ty: &ParsedType) -> (r: Option<MarshalledType>)
    ensures
        r is Some <==> is_representable(ty@),
        r is Some ==> r->0@ == marshalled_type(ty@),
{
    let passing = match ty.kind {
        TypeKind::CopyValue => Passing::Copy,
        TypeKind::MoveValue => Passing::Move,
        TypeKind::Reference => Passing::Borrow,
        TypeKind::Unknown => {
            return None;
        },
    };
    Some(MarshalledType { name: ty.name.clone(), passing })
}

/// Finds the convention for each of `parameters`. There is none where a
/// parameter's type has no representation on the other side.
pub fn marshal_parameters(parameters: &Vec<ParsedParameter>) -> (r: Option<
    Vec<MarshalledParameter>,
>)
    ensures
        r is Some <==> all_representable(parameter_views(parameters@)),
        r is Some ==> marshalled_views(r->0@) == marshalled_parameters(
            parameter_views(parameters@),
        ),
{
    let mut marshalled: Vec<MarshalledParameter> = Vec::new();
    let count = parameters.len();
    for i in 0..count
        invariant
            count == parameters@.len(),
            marshalled@.len() == i,
            forall|k: int|
                0 <= k < i ==> {
                    &&& is_representable(#[trigger] parameter_views(parameters@)[k].ty)
                    &&& marshalled@[k]@ == marshalled_parameter(parameter_views(parameters@)[k])
                },
    {
        let parameter = &parameters[i];
        match marshal_type(&parameter.ty) {
            Some(ty) => {
                marshalled.push(MarshalledParameter { ident: parameter.ident.clone(), ty });
            },
            None => {
                assert(!is_representable(parameter_views(parameters@)[i as int].ty));
                return None;
            },
        }
    }
    assert(marshalled_views(marshalled@) =~= marshalled_parameters(parameter_views(parameters@)));
    Some(marshalled)
}

/// Duplicates a marshalled type.
pub fn copy_type(ty: &MarshalledType) -> (r: MarshalledType)
    ensures
        r@ == ty@,
{
    MarshalledType { name: ty.name.clone(), passing: ty.passing }
}

/// Duplicates a list of marshalled parameters.
pub fn copy_parameters(parameters: &Vec<MarshalledParameter>) -> (r: Vec<MarshalledParameter>)
    ensures
        marshalled_views(r@) == marshalled_views(parameters@),
{
    let mut copy: Vec<MarshalledParameter> = Vec::new();
    let count = parameters.len();
    for i in 0..count
        invariant
            count == parameters@.len(),
            copy@.len() == i,
            forall|k: int| 0 <= k < i ==> copy@[k]@ == parameters@[k]@,
    {
        let parameter = &parameters[i];
        copy.push(
            MarshalledParameter { ident: parameter.ident.clone(), ty: copy_type(&parameter.ty) },
        );
    }
    assert(marshalled_views(copy@) =~= marshalled_views(parameters@));
    copy
}

} // verus!
