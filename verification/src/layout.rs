//! Binding of value types that cross the boundary by value.
//!
//! The host side keeps a value of such a type in placeholder storage of the
//! native type's size and alignment. Both may differ between major versions
//! of the native framework, so a descriptor lists the shape for each version
//! that it knows, and binding picks the shape of the version that is built
//! for. A version that the descriptor does not know is refused.

use crate::parser::{parameter_views, ParsedParameter, ParsedParameterView};
use vstd::prelude::*;

verus! {

/// Size and alignment of placeholder storage, in bytes.
#[derive(Clone, Copy, Debug, PartialEq, Eq, Structural)]
pub struct StorageShape {
    /// The size of the storage.
    pub size: usize,
    /// The alignment of the storage.
    pub align: usize,
}

/// `n` is a power of two.
pub open spec fn is_power_of_two(n: nat) -> bool
    decreases n,
{
    n == 1 || (n > 1 && n % 2 == 0 && is_power_of_two(n / 2))
}

impl StorageShape {
    /// Some type can have this shape: the alignment is a power of two and
    /// the size is a multiple of it.
    pub open spec fn is_possible(self) -> bool {
        is_power_of_two(self.align as nat) && self.size as nat % self.align as nat == 0
    }

    /// Tells whether some type can have this shape.
    pub fn possible(&self) -> (b: bool)
        ensures
            b == self.is_possible(),
    {
        let mut rest: usize = self.align;
        while rest > 1 && rest % 2 == 0
            invariant
                is_power_of_two(rest as nat) == is_power_of_two(self.align as nat),
            decreases rest,
        {
            rest = rest / 2;
        }
        rest == 1 && self.size % self.align == 0
    }
}

/// The shape of a value type's storage under one major version of the
/// native framework.
#[derive(Clone, Copy, Debug, PartialEq, Eq, Structural)]
pub struct VersionedShape {
    /// The major version.
    pub major: u32,
    /// The shape under that version.
    pub shape: StorageShape,
}

/// One operation on a bound value type that is forwarded to the native side.
#[derive(Clone, Copy, Debug, PartialEq, Eq, Structural)]
pub enum Proxy {
    /// Construction without arguments.
    DefaultConstruct,
    /// Construction by the constructor at the given place of the descriptor.
    Construct(usize),
    /// Destruction.
    Destruct,
    /// Duplication.
    Copy,
    /// Comparison for equality.
    Equality,
    /// Formatting for display and debugging.
    DebugString,
    /// Access to the value as a value of the base type.
    Upcast,
    /// Access to a value of the base type as a value of this type.
    Downcast,
}

/// A value type to bind.
#[derive(Clone, Debug, PartialEq, Eq)]
pub struct ValueTypeDescriptor {
    /// The type's name.
    pub name: String,
    /// The shape of the type's storage, for each major version that is known.
    pub shapes: Vec<VersionedShape>,
    /// The parameters of each constructor that takes any.
    pub constructors: Vec<Vec<ParsedParameter>>,
    /// The value type as which this one can be used, if there is one.
    pub base: Option<String>,
}

/// The model of a [`ValueTypeDescriptor`].
pub struct ValueTypeDescriptorView {
    pub name: Seq<char>,
    pub shapes: Seq<VersionedShape>,
    pub constructors: Seq<Seq<ParsedParameterView>>,
    pub base: Option<Seq<char>>,
}

impl View for ValueTypeDescriptor {
    type V = ValueTypeDescriptorView;

    open spec fn view(&self) -> ValueTypeDescriptorView {
        ValueTypeDescriptorView {
            name: self.name@,
            shapes: self.shapes@,
            constructors: self.constructors@.map_values(
                |c: Vec<ParsedParameter>| parameter_views(c@),
            ),
            base: crate::parser::optional_name(self.base),
        }
    }
}

/// Why a value type could not be bound.
#[derive(Clone, Copy, Debug, PartialEq, Eq, Structural)]
pub enum LayoutError {
    /// The descriptor has no shape for the major version that is built for.
    UnsupportedVersion,
    /// The shape for the major version that is built for is one that no type
    /// can have, so no assertion on the native side could confirm it.
    Unverifiable,
}

/// A bound value type: the storage that holds a value on the host side, and
/// the operations that are forwarded to the native side.
#[derive(Clone, Debug, PartialEq, Eq)]
pub struct ValueTypeBinding {
    /// The shape of the placeholder storage.
    pub storage: StorageShape,
    /// The forwarded operations.
    pub proxies: Vec<Proxy>,
}

/// The shape that the first of the first `count` entries of `shapes` with
/// the major version `major` gives, if there is such an entry.
pub open spec fn shape_for(shapes: Seq<VersionedShape>, major: u32, count: nat) -> Option<
    StorageShape,
>
    decreases count,
{
    if count == 0 {
        None
    } else {
        match shape_for(shapes, major, (count - 1) as nat) {
            Some(shape) => Some(shape),
            None => if shapes[count - 1].major == major {
                Some(shapes[count - 1].shape)
            } else {
                None
            },
        }
    }
}

/// The operations of a value type with `constructors` constructors that take
/// parameters: construction without arguments, each of those constructors,
/// destruction, duplication, comparison and formatting; and both directions
/// of the cast if the type has a base.
pub open spec fn proxies_of(constructors: nat, has_base: bool) -> Seq<Proxy> {
    seq![Proxy::DefaultConstruct] + Seq::new(constructors, |i: int| Proxy::Construct(i as usize))
        + seq![Proxy::Destruct, Proxy::Copy, Proxy::Equality, Proxy::DebugString] + if has_base {
        seq![Proxy::Upcast, Proxy::Downcast]
    } else {
        Seq::empty()
    }
}

/// What binding yields for a value type with the given shapes, the given
/// number of constructors and with or without a base, when built for the
/// major version `major`.
pub open spec fn binding_of(
    descriptor: ValueTypeDescriptorView,
    major: u32,
) -> Result<(StorageShape, Seq<Proxy>), LayoutError> {
    match shape_for(descriptor.shapes, major, descriptor.shapes.len()) {
        None => Err(LayoutError::UnsupportedVersion),
        Some(shape) => if shape.is_possible() {
            Ok((shape, proxies_of(descriptor.constructors.len(), descriptor.base is Some)))
        } else {
            Err(LayoutError::Unverifiable)
        },
    }
}

/// The model of what binding hands back.
pub open spec fn binding_view(result: Result<ValueTypeBinding, LayoutError>) -> Result<
    (StorageShape, Seq<Proxy>),
    LayoutError,
> {
    match result {
        Ok(binding) => Ok((binding.storage, binding.proxies@)),
        Err(e) => Err(e),
    }
}

/// Binds the value type `descriptor` for the major version `major` of the
/// native framework.
///
/// The shape is settled before any operation is listed: for a version
/// without a known shape, and for a shape that no type can have, binding
/// fails and hands back nothing.
pub fn bind_value_type(descriptor: &ValueTypeDescriptor, major: u32) -> (r: Result<
    ValueTypeBinding,
    LayoutError,
>)
    ensures
        binding_view(r) == binding_of(descriptor@, major),
{
    let mut found: Option<StorageShape> = None;
    let known = descriptor.shapes.len();
    for i in 0..known
        invariant
            known == descriptor.shapes@.len(),
            found == shape_for(descriptor.shapes@, major, i as nat),
    {
        if found.is_none() && descriptor.shapes[i].major == major {
            found = Some(descriptor.shapes[i].shape);
        }
    }
    let storage = match found {
        Some(shape) => shape,
        None => {
            return Err(LayoutError::UnsupportedVersion);
        },
    };
    if !storage.possible() {
        return Err(LayoutError::Unverifiable);
    }
    let mut proxies: Vec<Proxy> = Vec::new();
    proxies.push(Proxy::DefaultConstruct);
    let constructors = descriptor.constructors.len();
    for i in 0..constructors
        invariant
            constructors == descriptor.constructors@.len(),
            proxies@ == seq![Proxy::DefaultConstruct] + Seq::new(
                i as nat,
                |k: int| Proxy::Construct(k as usize),
            ),
    {
        proxies.push(Proxy::Construct(i));
    }
    proxies.push(Proxy::Destruct);
    proxies.push(Proxy::Copy);
    proxies.push(Proxy::Equality);
    proxies.push(Proxy::DebugString);
    if descriptor.base.is_some() {
        proxies.push(Proxy::Upcast);
        proxies.push(Proxy::Downcast);
    }
    assert(proxies@ =~= proxies_of(descriptor@.constructors.len(), descriptor@.base is Some));
    Ok(ValueTypeBinding { storage, proxies })
}

/// A major version that none of the known shapes is for is refused, whatever
/// else the descriptor holds.
pub proof fn lemma_unknown_version_fails(descriptor: ValueTypeDescriptorView, major: u32)
    requires
        forall|i: int| 0 <= i < descriptor.shapes.len() ==> descriptor.shapes[i].major != major,
    ensures
        binding_of(descriptor, major) == Err::<(StorageShape, Seq<Proxy>), LayoutError>(
            LayoutError::UnsupportedVersion,
        ),
{
    lemma_no_shape(descriptor.shapes, major, descriptor.shapes.len());
}

/// Where none of the first `count` entries is for `major`, no shape is found
/// among them.
proof fn lemma_no_shape(shapes: Seq<VersionedShape>, major: u32, count: nat)
    requires
        count <= shapes.len(),
        forall|i: int| 0 <= i < count ==> shapes[i].major != major,
    ensures
        shape_for(shapes, major, count) is None,
    decreases count,
{
    if count > 0 {
        lemma_no_shape(shapes, major, (count - 1) as nat);
    }
}

} // verus!
