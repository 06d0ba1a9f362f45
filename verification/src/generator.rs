//! Generation of the paired native-side and host-side artifacts.
//!
//! Generation takes the declarations of an object in their order and emits
//! all artifacts of one declaration together. It is all or nothing: a fault
//! in any declaration leaves the object without artifacts.

pub mod artifact;
pub mod collision;
pub mod marshal;
pub mod naming;

use crate::generator::artifact::{
    declaration_host, declaration_native, entry_fits, host_views, invokable_host,
    invokable_native, native_views, property_host, property_native, signal_host, signal_native,
    ArtifactKind, GeneratedObject, GeneratedObjectView, HostArtifact, HostArtifactView,
    NativeArtifact, NativeArtifactView,
};
use crate::generator::collision::{
    collide_at, collision_free, entries_collide, find_collision, is_first_collision,
    CollisionError,
};
use crate::generator::marshal::{
    all_representable, copy_parameters, copy_type, is_representable, marshal_parameters,
    marshal_type, marshalled_views, MarshalledParameter,
};
use crate::generator::naming::invokable::QInvokableName;
use crate::generator::naming::property::QPropertyName;
use crate::generator::naming::signals::QSignalName;
use crate::generator::naming::table::{
    declaration_names, declaration_naming_error, entry_views, naming_table, NamingFailure,
    NamingTableEntry, NamingTableEntryView,
};
use crate::parser::{
    Declaration, DeclarationView, ParsedInvokable, ParsedObject, ParsedProperty, ParsedSignal,
};
use vstd::prelude::*;
use vstd::string::*;

verus! {

/// A declaration with a type that has no representation on the other side.
#[derive(Clone, Copy, Debug, PartialEq, Eq, Structural)]
pub struct MarshalError {
    /// The place of the declaration among the object's declarations.
    pub declaration: usize,
}

/// Why an object got no artifacts.
#[derive(Clone, Copy, Debug, PartialEq, Eq, Structural)]
pub enum GenerationError {
    /// The names of a declaration could not be derived.
    Naming(NamingFailure),
    /// Two declarations resolve to the same identifier.
    Collision(CollisionError),
    /// A parameter or a returned value cannot cross the boundary.
    Marshal(MarshalError),
}

/// Every type that `declaration` mentions has a representation on the
/// other side.
pub open spec fn declaration_marshals(declaration: DeclarationView) -> bool {
    match declaration {
        DeclarationView::Signal(signal) => all_representable(signal.parameters),
        DeclarationView::Property(property) => is_representable(property.ty),
        DeclarationView::Invokable(invokable) => {
            &&& all_representable(invokable.parameters)
            &&& invokable.return_type is Some ==> is_representable(invokable.return_type->0)
        },
    }
}

/// `table` has one entry for each of `declarations`, of the declaration's
/// kind.
pub open spec fn table_fits(
    declarations: Seq<DeclarationView>,
    table: Seq<NamingTableEntryView>,
) -> bool {
    &&& table.len() == declarations.len()
    &&& forall|i: int|
        0 <= i < declarations.len() ==> entry_fits(#[trigger] declarations[i], table[i])
}

/// The native side's artifacts of the first `count` declarations, in the
/// order of the declarations.
pub open spec fn generated_native(
    declarations: Seq<DeclarationView>,
    table: Seq<NamingTableEntryView>,
    count: nat,
) -> Seq<NativeArtifactView>
    decreases count,
{
    if count == 0 {
        Seq::empty()
    } else {
        generated_native(declarations, table, (count - 1) as nat) + declaration_native(
            declarations[count - 1],
            table[count - 1],
        )
    }
}

/// The host side's artifacts of the first `count` declarations, in the order
/// of the declarations.
pub open spec fn generated_host(
    declarations: Seq<DeclarationView>,
    table: Seq<NamingTableEntryView>,
    count: nat,
) -> Seq<HostArtifactView>
    decreases count,
{
    if count == 0 {
        Seq::empty()
    } else {
        generated_host(declarations, table, (count - 1) as nat) + declaration_host(
            declarations[count - 1],
            table[count - 1],
        )
    }
}

/// The first `count` of `declarations` mention no type without a
/// representation on the other side.
pub open spec fn all_marshal(declarations: Seq<DeclarationView>, count: int) -> bool {
    forall|i: int| 0 <= i < count ==> declaration_marshals(#[trigger] declarations[i])
}

/// `result` is what generation yields for `declarations` under the names in
/// `table`.
///
/// Collisions are looked for first, and the first one is what generation
/// fails with. Then the first declaration with a type that cannot cross the
/// boundary is what it fails with. Else every declaration gets its
/// artifacts, in the order of the declarations.
pub open spec fn generation_result(
    declarations: Seq<DeclarationView>,
    table: Seq<NamingTableEntryView>,
    result: Result<GeneratedObjectView, GenerationError>,
) -> bool {
    match result {
        Ok(generated) => {
            &&& collision_free(table)
            &&& all_marshal(declarations, declarations.len() as int)
            &&& generated.native == generated_native(declarations, table, declarations.len())
            &&& generated.host == generated_host(declarations, table, declarations.len())
        },
        Err(GenerationError::Collision(collision)) => is_first_collision(table, collision),
        Err(GenerationError::Marshal(fault)) => {
            &&& collision_free(table)
            &&& fault.declaration < declarations.len()
            &&& all_marshal(declarations, fault.declaration as int)
            &&& !declaration_marshals(declarations[fault.declaration as int])
        },
        Err(GenerationError::Naming(_)) => false,
    }
}

/// The model of what generation hands back.
pub open spec fn result_view(result: Result<GeneratedObject, GenerationError>) -> Result<
    GeneratedObjectView,
    GenerationError,
> {
    match result {
        Ok(generated) => Ok(generated@),
        Err(e) => Err(e),
    }
}

/// Where two declarations of an object share a name on one side, generation
/// fails with a collision, whatever else holds of the object, and so emits
/// nothing for it.
pub proof fn lemma_collision_fails(
    declarations: Seq<DeclarationView>,
    table: Seq<NamingTableEntryView>,
    result: Result<GeneratedObjectView, GenerationError>,
    first: int,
    second: int,
)
    requires
        generation_result(declarations, table, result),
        0 <= first < second < table.len(),
        entries_collide(table[first], table[second]),
    ensures
        result is Err,
        result->Err_0 is Collision,
{
    assert(collide_at(table, first, second));
}

/// Generation is a function of its input: the same declarations under the
/// same names give the same artifacts, or the same fault.
pub proof fn lemma_generation_is_deterministic(
    declarations: Seq<DeclarationView>,
    table: Seq<NamingTableEntryView>,
    a: Result<GeneratedObjectView, GenerationError>,
    b: Result<GeneratedObjectView, GenerationError>,
)
    requires
        generation_result(declarations, table, a),
        generation_result(declarations, table, b),
    ensures
        a == b,
{
    match (a, b) {
        (Ok(x), Ok(y)) => {
            assert(x.native == y.native);
            assert(x.host == y.host);
        },
        (Err(GenerationError::Collision(x)), Err(GenerationError::Collision(y))) => {
            assert(collide_at(table, x.first as int, x.second as int));
            assert(collide_at(table, y.first as int, y.second as int));
            assert(x.second == y.second);
            assert(x.first == y.first);
            assert(x.side == y.side);
        },
        (Err(GenerationError::Marshal(x)), Err(GenerationError::Marshal(y))) => {
            if x.declaration < y.declaration {
                assert(declaration_marshals(declarations[x.declaration as int]));
            } else if y.declaration < x.declaration {
                assert(declaration_marshals(declarations[y.declaration as int]));
            }
        },
        (Ok(_), Err(GenerationError::Collision(y))) => {
            assert(collide_at(table, y.first as int, y.second as int));
        },
        (Err(GenerationError::Collision(x)), Ok(_)) => {
            assert(collide_at(table, x.first as int, x.second as int));
        },
        (Err(GenerationError::Marshal(x)), Err(GenerationError::Collision(y))) => {
            assert(collide_at(table, y.first as int, y.second as int));
        },
        (Err(GenerationError::Collision(x)), Err(GenerationError::Marshal(y))) => {
            assert(collide_at(table, x.first as int, x.second as int));
        },
        (Ok(_), Err(GenerationError::Marshal(y))) => {
            assert(declaration_marshals(declarations[y.declaration as int]));
        },
        (Err(GenerationError::Marshal(x)), Ok(_)) => {
            assert(declaration_marshals(declarations[x.declaration as int]));
        },
        _ => {},
    }
}

/// Emits the artifacts of a signal, unless one of its parameters cannot
/// cross the boundary.
fn emit_signal(
    signal: &ParsedSignal,
    names: &QSignalName,
    native: &mut Vec<NativeArtifact>,
    host: &mut Vec<HostArtifact>,
) -> (emitted: bool)
    ensures
        emitted == all_representable(signal@.parameters),
        emitted ==> native_views(final(native)@) == native_views(old(native)@) + signal_native(
            signal@,
            names@,
        ),
        emitted ==> host_views(final(host)@) == host_views(old(host)@) + signal_host(
            signal@,
            names@,
        ),
{
    let parameters = match marshal_parameters(&signal.parameters) {
        Some(parameters) => parameters,
        None => {
            return false;
        },
    };
    native.push(
        NativeArtifact {
            kind: ArtifactKind::Signal,
            name: names.name.cpp.clone(),
            parameters: copy_parameters(&parameters),
            return_type: None,
            signal: None,
        },
    );
    native.push(
        NativeArtifact {
            kind: ArtifactKind::Emit,
            name: names.emit_name.cpp.clone(),
            parameters: copy_parameters(&parameters),
            return_type: None,
            signal: Some(names.name.cpp.clone()),
        },
    );
    host.push(
        HostArtifact {
            kind: ArtifactKind::Emit,
            name: names.emit_name.rust.clone(),
            parameters: copy_parameters(&parameters),
            return_type: None,
            native: names.emit_name.cpp.clone(),
            handler: None,
        },
    );
    host.push(
        HostArtifact {
            kind: ArtifactKind::Connect,
            name: names.connect_name.rust.clone(),
            parameters,
            return_type: None,
            native: names.connect_name.cpp.clone(),
            handler: Some(names.on_name.clone()),
        },
    );
    assert(native_views(native@) =~= native_views(old(native)@) + signal_native(signal@, names@));
    assert(host_views(host@) =~= host_views(old(host)@) + signal_host(signal@, names@));
    true
}

/// Emits the artifacts of a property, unless its type cannot cross the
/// boundary.
fn emit_property(
    property: &ParsedProperty,
    names: &QPropertyName,
    native: &mut Vec<NativeArtifact>,
    host: &mut Vec<HostArtifact>,
) -> (emitted: bool)
    ensures
        emitted == is_representable(property@.ty),
        emitted ==> native_views(final(native)@) == native_views(old(native)@) + property_native(
            property@,
            names@,
        ),
        emitted ==> host_views(final(host)@) == host_views(old(host)@) + property_host(
            property@,
            names@,
        ),
{
    let ty = match marshal_type(&property.ty) {
        Some(ty) => ty,
        None => {
            return false;
        },
    };
    let mut value: Vec<MarshalledParameter> = Vec::new();
    value.push(MarshalledParameter { ident: String::from_str("value"), ty: copy_type(&ty) });
    let notification = match &names.notify {
        Some(notify) => Some(notify.cpp.clone()),
        None => None,
    };
    let getter_parameters: Vec<MarshalledParameter> = Vec::new();
    let host_getter_parameters: Vec<MarshalledParameter> = Vec::new();
    let setter_parameters = copy_parameters(&value);
    proof {
        assert(marshalled_views(value@) =~= crate::generator::artifact::setter_parameters(
            property@,
        ));
        assert(marshalled_views(getter_parameters@) =~= Seq::empty());
        assert(marshalled_views(host_getter_parameters@) =~= Seq::empty());
    }
    native.push(
        NativeArtifact {
            kind: ArtifactKind::Getter,
            name: names.getter.cpp.clone(),
            parameters: getter_parameters,
            return_type: Some(copy_type(&ty)),
            signal: None,
        },
    );
    native.push(
        NativeArtifact {
            kind: ArtifactKind::Setter,
            name: names.setter.cpp.clone(),
            parameters: setter_parameters,
            return_type: None,
            signal: notification,
        },
    );
    host.push(
        HostArtifact {
            kind: ArtifactKind::Getter,
            name: names.getter.rust.clone(),
            parameters: host_getter_parameters,
            return_type: Some(ty),
            native: names.getter.cpp.clone(),
            handler: None,
        },
    );
    host.push(
        HostArtifact {
            kind: ArtifactKind::Setter,
            name: names.setter.rust.clone(),
            parameters: value,
            return_type: None,
            native: names.setter.cpp.clone(),
            handler: None,
        },
    );
    assert(native_views(native@) =~= native_views(old(native)@) + property_native(
        property@,
        names@,
    ));
    assert(host_views(host@) =~= host_views(old(host)@) + property_host(property@, names@));
    true
}

/// Emits the artifacts of an invokable method, unless one of its types
/// cannot cross the boundary.
fn emit_invokable(
    invokable: &ParsedInvokable,
    names: &QInvokableName,
    native: &mut Vec<NativeArtifact>,
    host: &mut Vec<HostArtifact>,
) -> (emitted: bool)
    ensures
        emitted == declaration_marshals(DeclarationView::Invokable(invokable@)),
        emitted ==> native_views(final(native)@) == native_views(old(native)@) + invokable_native(
            invokable@,
            names@,
        ),
        emitted ==> host_views(final(host)@) == host_views(old(host)@) + invokable_host(
            invokable@,
            names@,
        ),
{
    let parameters = match marshal_parameters(&invokable.parameters) {
        Some(parameters) => parameters,
        None => {
            return false;
        },
    };
    let return_type = match &invokable.return_type {
        Some(ty) => match marshal_type(ty) {
            Some(marshalled) => Some(marshalled),
            None => {
                return false;
            },
        },
        None => None,
    };
    let native_return_type = match &return_type {
        Some(ty) => Some(copy_type(ty)),
        None => None,
    };
    native.push(
        NativeArtifact {
            kind: ArtifactKind::Invokable,
            name: names.name.cpp.clone(),
            parameters: copy_parameters(&parameters),
            return_type: native_return_type,
            signal: None,
        },
    );
    host.push(
        HostArtifact {
            kind: ArtifactKind::Invokable,
            name: names.name.rust.clone(),
            parameters,
            return_type,
            native: names.name.cpp.clone(),
            handler: None,
        },
    );
    assert(native_views(native@) =~= native_views(old(native)@) + invokable_native(
        invokable@,
        names@,
    ));
    assert(host_views(host@) =~= host_views(old(host)@) + invokable_host(invokable@, names@));
    true
}

/// Tells whether `table` has one entry for each declaration of `object`, of
/// the declaration's kind: whether `generate` may be called with the two.
pub fn fits(object: &ParsedObject, table: &Vec<NamingTableEntry>) -> (b: bool)
    ensures
        b == table_fits(object@.declarations, entry_views(table@)),
{
    let count = object.declarations.len();
    if table.len() != count {
        return false;
    }
    for i in 0..count
        invariant
            count == object.declarations@.len(),
            count == table@.len(),
            forall|k: int|
                0 <= k < i ==> entry_fits(
                    #[trigger] object@.declarations[k],
                    entry_views(table@)[k],
                ),
    {
        let same_kind = match (&object.declarations[i], &table[i]) {
            (Declaration::Signal(_), NamingTableEntry::Signal(_)) => true,
            (Declaration::Property(_), NamingTableEntry::Property(_)) => true,
            (Declaration::Invokable(_), NamingTableEntry::Invokable(_)) => true,
            _ => false,
        };
        if !same_kind {
            assert(!entry_fits(object@.declarations[i as int], entry_views(table@)[i as int]));
            return false;
        }
    }
    true
}

/// Generates the artifacts of `object` under the names in `table`.
///
/// Nothing is emitted unless the whole object can be generated: collisions
/// between the names of two declarations are looked for before any artifact
/// is made, and a declaration that cannot be marshalled discards what was
/// made for the declarations before it.
pub fn generate(object: &ParsedObject, table: &Vec<NamingTableEntry>) -> (r: Result<
    GeneratedObject,
    GenerationError,
>)
    requires
        table_fits(object@.declarations, entry_views(table@)),
    ensures
        generation_result(object@.declarations, entry_views(table@), result_view(r)),
{
    match find_collision(table) {
        Some(collision) => {
            return Err(GenerationError::Collision(collision));
        },
        None => {},
    }
    let ghost declarations = object@.declarations;
    let ghost names = entry_views(table@);
    let mut native: Vec<NativeArtifact> = Vec::new();
    let mut host: Vec<HostArtifact> = Vec::new();
    let count = object.declarations.len();
    for i in 0..count
        invariant
            count == declarations.len(),
            declarations == object@.declarations,
            names == entry_views(table@),
            table_fits(declarations, names),
            collision_free(names),
            all_marshal(declarations, i as int),
            native_views(native@) == generated_native(declarations, names, i as nat),
            host_views(host@) == generated_host(declarations, names, i as nat),
    {
        let emitted = match (&object.declarations[i], &table[i]) {
            (Declaration::Signal(signal), NamingTableEntry::Signal(entry)) => emit_signal(
                signal,
                entry,
                &mut native,
                &mut host,
            ),
            (Declaration::Property(property), NamingTableEntry::Property(entry)) => emit_property(
                property,
                entry,
                &mut native,
                &mut host,
            ),
            (
                Declaration::Invokable(invokable),
                NamingTableEntry::Invokable(entry),
            ) => emit_invokable(invokable, entry, &mut native, &mut host),
            _ => true,
        };
        assert(entry_fits(declarations[i as int], names[i as int]));
        if !emitted {
            return Err(GenerationError::Marshal(MarshalError { declaration: i }));
        }
    }
    Ok(GeneratedObject { native, host })
}

/// Derives the names of the declarations of `object` and generates its
/// artifacts.
pub fn generate_object(object: &ParsedObject) -> (r: Result<GeneratedObject, GenerationError>)
    ensures
        match r {
            Err(GenerationError::Naming(failure)) => {
                &&& failure.declaration < object@.declarations.len()
                &&& forall|i: int|
                    0 <= i < failure.declaration ==> declaration_naming_error(
                        #[trigger] object@.declarations[i],
                    ) is None
                &&& declaration_naming_error(object@.declarations[failure.declaration as int])
                    == Some(failure.error)
            },
            _ => {
                &&& forall|i: int|
                    0 <= i < object@.declarations.len() ==> declaration_naming_error(
                        #[trigger] object@.declarations[i],
                    ) is None
                &&& generation_result(
                    object@.declarations,
                    object@.declarations.map_values(|d: DeclarationView| declaration_names(d)),
                    result_view(r),
                )
            },
        },
{
    let table = match naming_table(object) {
        Ok(table) => table,
        Err(failure) => {
            return Err(GenerationError::Naming(failure));
        },
    };
    assert(entry_views(table@) =~= object@.declarations.map_values(
        |d: DeclarationView| declaration_names(d),
    ));
    generate(object, &table)
}

} // verus!
