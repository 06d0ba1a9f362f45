//! Name collisions between the declarations of one object.
//!
//! The names of an object's declarations share one namespace on each side.
//! Two declarations collide if a native name of one is a native name of the
//! other, or a host name of one is a host name of the other.

use crate::generator::naming::table::{entry_views, NamingTableEntry, NamingTableEntryView};
use vstd::prelude::*;

verus! {

/// The names that `entry` puts in the namespace of the native side.
pub open spec fn native_names(entry: NamingTableEntryView) -> Seq<Seq<char>> {
    match entry {
        NamingTableEntryView::Signal(names) => seq![
            names.name.cpp,
            names.emit_name.cpp,
            names.connect_name.cpp,
        ],
        NamingTableEntryView::Property(names) => match names.notify {
            Some(notify) => seq![names.getter.cpp, names.setter.cpp, notify.cpp],
            None => seq![names.getter.cpp, names.setter.cpp],
        },
        NamingTableEntryView::Invokable(names) => seq![names.name.cpp],
    }
}

/// The names that `entry` puts in the namespace of the host side.
pub open spec fn host_names(entry: NamingTableEntryView) -> Seq<Seq<char>> {
    match entry {
        NamingTableEntryView::Signal(names) => seq![
            names.name.rust,
            names.emit_name.rust,
            names.connect_name.rust,
            names.on_name,
        ],
        NamingTableEntryView::Property(names) => match names.notify {
            Some(notify) => seq![names.getter.rust, names.setter.rust, notify.rust],
            None => seq![names.getter.rust, names.setter.rust],
        },
        NamingTableEntryView::Invokable(names) => seq![names.name.rust],
    }
}

/// Some name of `a` is a name of `b`.
pub open spec fn share_name(a: Seq<Seq<char>>, b: Seq<Seq<char>>) -> bool {
    exists|i: int, j: int| 0 <= i < a.len() && 0 <= j < b.len() && #[trigger] a[i] == #[trigger] b[j]
}

/// The entries `a` and `b` collide: they share a native name or a host name.
pub open spec fn entries_collide(a: NamingTableEntryView, b: NamingTableEntryView) -> bool {
    share_name(native_names(a), native_names(b)) || share_name(host_names(a), host_names(b))
}

/// The entries at `first` and `second` of `table` collide.
pub open spec fn collide_at(table: Seq<NamingTableEntryView>, first: int, second: int) -> bool {
    &&& 0 <= first < second < table.len()
    &&& entries_collide(table[first], table[second])
}

/// No two entries of `table` collide.
pub open spec fn collision_free(table: Seq<NamingTableEntryView>) -> bool {
    forall|i: int, j: int| !collide_at(table, i, j)
}

/// The side on which two declarations share a name.
#[derive(Clone, Copy, Debug, PartialEq, Eq, Structural)]
pub enum Side {
    /// The native side.
    Native,
    /// The host side.
    Host,
}

/// Two declarations of one object that resolve to the same identifier.
#[derive(Clone, Copy, Debug, PartialEq, Eq, Structural)]
pub struct CollisionError {
    /// The place of the earlier declaration.
    pub first: usize,
    /// The place of the later declaration.
    pub second: usize,
    /// The side on which they share a name; the native side if they share a
    /// name on both.
    pub side: Side,
}

/// `collision` is the first collision in `table`: no declaration before its
/// later one collides with a declaration before itself, and its earlier one
/// is the first with which the later one collides.
pub open spec fn is_first_collision(
    table: Seq<NamingTableEntryView>,
    collision: CollisionError,
) -> bool {
    &&& collide_at(table, collision.first as int, collision.second as int)
    &&& collision.side == Side::Native <==> share_name(
        native_names(table[collision.first as int]),
        native_names(table[collision.second as int]),
    )
    &&& forall|i: int, j: int|
        j < collision.second || (j == collision.second && i < collision.first) ==> !collide_at(
            table,
            i,
            j,
        )
}

/// The models of the names in `names`, in order.
pub open spec fn name_views(names: Seq<&String>) -> Seq<Seq<char>> {
    names.map_values(|n: &String| n@)
}

/// Lists the names that `entry` puts in the namespace of the native side.
fn list_native_names(entry: &NamingTableEntry) -> (names: Vec<&String>)
    ensures
        name_views(names@) == native_names(entry@),
{
    let mut names: Vec<&String> = Vec::new();
    match entry {
        NamingTableEntry::Signal(signal) => {
            names.push(&signal.name.cpp);
            names.push(&signal.emit_name.cpp);
            names.push(&signal.connect_name.cpp);
        },
        NamingTableEntry::Property(property) => {
            names.push(&property.getter.cpp);
            names.push(&property.setter.cpp);
            match &property.notify {
                Some(notify) => {
                    names.push(&notify.cpp);
                },
                None => {},
            }
        },
        NamingTableEntry::Invokable(invokable) => {
            names.push(&invokable.name.cpp);
        },
    }
    assert(name_views(names@) =~= native_names(entry@));
    names
}

/// Lists the names that `entry` puts in the namespace of the host side.
fn list_host_names(entry: &NamingTableEntry) -> (names: Vec<&String>)
    ensures
        name_views(names@) == host_names(entry@),
{
    let mut names: Vec<&String> = Vec::new();
    match entry {
        NamingTableEntry::Signal(signal) => {
            names.push(&signal.name.rust);
            names.push(&signal.emit_name.rust);
            names.push(&signal.connect_name.rust);
            names.push(&signal.on_name);
        },
        NamingTableEntry::Property(property) => {
            names.push(&property.getter.rust);
            names.push(&property.setter.rust);
            match &property.notify {
                Some(notify) => {
                    names.push(&notify.rust);
                },
                None => {},
            }
        },
        NamingTableEntry::Invokable(invokable) => {
            names.push(&invokable.name.rust);
        },
    }
    assert(name_views(names@) =~= host_names(entry@));
    names
}

/// Tells whether some name of `a` is a name of `b`.
fn shares_name(a: &Vec<&String>, b: &Vec<&String>) -> (shared: bool)
    ensures
        shared == share_name(name_views(a@), name_views(b@)),
{
    for i in 0..a.len()
        invariant
            forall|x: int, y: int|
                0 <= x < i && 0 <= y < b@.len() ==> #[trigger] name_views(a@)[x]
                    != #[trigger] name_views(b@)[y],
    {
        for j in 0..b.len()
            invariant
                0 <= i < a@.len(),
                forall|x: int, y: int|
                    0 <= x < i && 0 <= y < b@.len() ==> #[trigger] name_views(a@)[x]
                        != #[trigger] name_views(b@)[y],
                forall|y: int|
                    0 <= y < j ==> name_views(a@)[i as int] != #[trigger] name_views(b@)[y],
        {
            if *a[i] == *b[j] {
                assert(name_views(a@)[i as int] == name_views(b@)[j as int]);
                return true;
            }
        }
    }
    false
}

/// Tells on which side `a` and `b` share a name, if they share one.
pub fn collision_side(a: &NamingTableEntry, b: &NamingTableEntry) -> (side: Option<Side>)
    ensures
        side is Some <==> entries_collide(a@, b@),
        side == Some(Side::Native) <==> share_name(native_names(a@), native_names(b@)),
{
    if shares_name(&list_native_names(a), &list_native_names(b)) {
        Some(Side::Native)
    } else if shares_name(&list_host_names(a), &list_host_names(b)) {
        Some(Side::Host)
    } else {
        None
    }
}

/// Finds the first two entries of `table` that collide, if any two do.
pub fn find_collision(table: &Vec<NamingTableEntry>) -> (found: Option<CollisionError>)
    ensures
        match found {
            Some(collision) => is_first_collision(entry_views(table@), collision),
            None => collision_free(entry_views(table@)),
        },
{
    let count = table.len();
    for second in 0..count
        invariant
            count == table@.len(),
            forall|i: int, j: int| j < second ==> !collide_at(entry_views(table@), i, j),
    {
        for first in 0..second
            invariant
                count == table@.len(),
                second < count,
                forall|i: int, j: int| j < second ==> !collide_at(entry_views(table@), i, j),
                forall|i: int| i < first ==> !collide_at(entry_views(table@), i, second as int),
        {
            match collision_side(&table[first], &table[second]) {
                Some(side) => {
                    return Some(CollisionError { first, second, side });
                },
                None => {},
            }
        }
    }
    None
}

} // verus!
