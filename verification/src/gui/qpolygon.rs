//! A polygon: a list of points.
//!
//! On the native side a polygon is a vector of points and can be used as
//! one. Here it holds its points as plain values, so that construction,
//! duplication and comparison can be stated and proved.

use crate::gui::qpoint::QPoint;
use crate::gui::qrect::QRect;
use crate::layout::{StorageShape, ValueTypeDescriptor, VersionedShape};
use crate::parser::{
    parameter_views, ParsedParameter, ParsedParameterView, ParsedType, ParsedTypeView, TypeKind,
};
use vstd::prelude::*;
use vstd::std_specs::cmp::{PartialEqSpec, PartialEqSpecImpl};
use vstd::string::*;

verus! {

/// The QPolygon class provides a list of QPoint.
#[derive(Debug)]
pub struct QPolygon {
    points: Vec<QPoint>,
}

impl View for QPolygon {
    type V = Seq<QPoint>;

    closed spec fn view(&self) -> Seq<QPoint> {
        self.points@
    }
}

/// The points of the polygon that runs along `rect`: its four corners in
/// clockwise order from the top left, and the top left corner once more at
/// the end if the polygon is closed.
pub open spec fn rect_points(rect: QRect, closed: bool) -> Seq<QPoint> {
    let corners = seq![rect.top_left(), rect.top_right(), rect.bottom_right(), rect.bottom_left()];
    if closed {
        corners.push(rect.top_left())
    } else {
        corners
    }
}

/// The size of a pointer, in bytes.
pub open spec fn word_bytes() -> usize {
    (usize::BITS / 8) as usize
}

/// The shapes of a polygon's storage. Under major version 5 of the native
/// framework a polygon is one pointer; under major version 6 it is two
/// pointers and a size.
pub open spec fn polygon_shapes() -> Seq<VersionedShape> {
    seq![
        VersionedShape {
            major: 5,
            shape: StorageShape { size: word_bytes(), align: word_bytes() },
        },
        VersionedShape {
            major: 6,
            shape: StorageShape { size: (3 * word_bytes()) as usize, align: word_bytes() },
        },
    ]
}

/// The parameters of the constructor that makes a polygon from a rectangle.
pub open spec fn rect_constructor() -> Seq<ParsedParameterView> {
    seq![
        ParsedParameterView {
            ident: "rect"@,
            ty: ParsedTypeView { name: "QRect"@, kind: TypeKind::Reference },
        },
        ParsedParameterView {
            ident: "closed"@,
            ty: ParsedTypeView { name: "bool"@, kind: TypeKind::CopyValue },
        },
    ]
}

impl QPolygon {
    /// Constructs a polygon from the given rectangle. If closed is false, the polygon
    /// just contains the four points of the rectangle ordered clockwise, otherwise the
    /// polygon's fifth point is set to rectangle.topLeft().
    pub fn new(rect: &QRect, closed: bool) -> (polygon: Self)
        ensures
            polygon@ == rect_points(*rect, closed),
    {
        let mut points: Vec<QPoint> = Vec::new();
        points.push(rect.top_left());
        points.push(rect.top_right());
        points.push(rect.bottom_right());
        points.push(rect.bottom_left());
        if closed {
            points.push(rect.top_left());
        }
        assert(points@ =~= rect_points(*rect, closed));
        QPolygon { points }
    }

    /// Describes the polygon as a value type to bind: its storage under each
    /// known major version of the native framework, its constructor from a
    /// rectangle, and the vector of points as which it can be used.
    pub fn descriptor() -> (descriptor: ValueTypeDescriptor)
        ensures
            descriptor@.name == "QPolygon"@,
            descriptor@.shapes == polygon_shapes(),
            descriptor@.constructors == seq![rect_constructor()],
            descriptor@.base == Some("QVector_QPoint"@),
    {
        let word: usize = (usize::BITS / 8) as usize;
        let mut shapes: Vec<VersionedShape> = Vec::new();
        shapes.push(VersionedShape { major: 5, shape: StorageShape { size: word, align: word } });
        shapes.push(
            VersionedShape { major: 6, shape: StorageShape { size: 3 * word, align: word } },
        );
        let mut from_rect: Vec<ParsedParameter> = Vec::new();
        from_rect.push(
            ParsedParameter {
                ident: String::from_str("rect"),
                ty: ParsedType { name: String::from_str("QRect"), kind: TypeKind::Reference },
            },
        );
        from_rect.push(
            ParsedParameter {
                ident: String::from_str("closed"),
                ty: ParsedType { name: String::from_str("bool"), kind: TypeKind::CopyValue },
            },
        );
        assert(parameter_views(from_rect@) =~= rect_constructor());
        let mut constructors: Vec<Vec<ParsedParameter>> = Vec::new();
        constructors.push(from_rect);
        let descriptor = ValueTypeDescriptor {
            name: String::from_str("QPolygon"),
            shapes,
            constructors,
            base: Some(String::from_str("QVector_QPoint")),
        };
        assert(descriptor@.shapes =~= polygon_shapes());
        assert(descriptor@.constructors =~= seq![rect_constructor()]);
        descriptor
    }

    /// The polygon as the list of points that it is.
    pub fn upcast(&self) -> (points: &Vec<QPoint>)
        ensures
            points@ == self@,
    {
        &self.points
    }

    /// The list of points `base` as a polygon.
    pub fn from_base(base: Vec<QPoint>) -> (polygon: Self)
        ensures
            polygon@ == base@,
    {
        QPolygon { points: base }
    }
}

impl Default for QPolygon {
    /// Constructs a polygon without points.
    fn default() -> (polygon: Self)
        ensures
            polygon@ == Seq::<QPoint>::empty(),
    {
        QPolygon { points: Vec::new() }
    }
}

impl Clone for QPolygon {
    /// Constructs a copy of the given polygon.
    fn clone(&self) -> (copy: Self)
        ensures
            copy@ == self@,
    {
        let mut points: Vec<QPoint> = Vec::new();
        let count = self.points.len();
        for i in 0..count
            invariant
                count == self.points@.len(),
                points@ == self.points@.subrange(0, i as int),
        {
            points.push(self.points[i]);
        }
        assert(points@ =~= self.points@);
        QPolygon { points }
    }
}

impl PartialEqSpecImpl for QPolygon {
    open spec fn obeys_eq_spec() -> bool {
        true
    }

    open spec fn eq_spec(&self, other: &Self) -> bool {
        self@ == other@
    }
}

impl PartialEq for QPolygon {
    /// Two polygons are equal if they hold the same points in the same order.
    fn eq(&self, other: &Self) -> (equal: bool) {
        if self.points.len() != other.points.len() {
            return false;
        }
        let count = self.points.len();
        for i in 0..count
            invariant
                count == self.points@.len(),
                count == other.points@.len(),
                forall|k: int| 0 <= k < i ==> self.points@[k] == other.points@[k],
        {
            if self.points[i].x != other.points[i].x || self.points[i].y != other.points[i].y {
                return false;
            }
        }
        assert(self.points@ =~= other.points@);
        true
    }
}

impl Eq for QPolygon {

}

/// A copy of a polygon compares equal to the polygon it was made from, in
/// both directions. This holds of every polygon, and so of each that a
/// constructor made.
pub proof fn lemma_copy_equals_source(source: QPolygon, copy: QPolygon)
    requires
        copy@ == source@,
    ensures
        PartialEqSpec::eq_spec(&copy, &source),
        PartialEqSpec::eq_spec(&source, &copy),
{
}

} // verus!
