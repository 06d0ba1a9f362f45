use cxx_qt_gen::gui::qpoint::QPoint;
use cxx_qt_gen::gui::qpolygon::QPolygon;
use cxx_qt_gen::gui::qrect::QRect;

fn sample_rect() -> QRect {
    QRect::new(QPoint::new(1, 2), QPoint::new(11, 22))
}

#[test]
fn open_polygon_holds_the_four_corners_clockwise() {
    let polygon = QPolygon::new(&sample_rect(), false);
    assert_eq!(
        polygon.upcast(),
        &vec![QPoint::new(1, 2), QPoint::new(11, 2), QPoint::new(11, 22), QPoint::new(1, 22)]
    );
}

#[test]
fn closed_polygon_ends_where_it_starts() {
    let polygon = QPolygon::new(&sample_rect(), true);
    assert_eq!(
        polygon.upcast(),
        &vec![
            QPoint::new(1, 2),
            QPoint::new(11, 2),
            QPoint::new(11, 22),
            QPoint::new(1, 22),
            QPoint::new(1, 2),
        ]
    );
}

#[test]
fn rect_corners() {
    let rect = sample_rect();
    assert_eq!(rect.top_left(), QPoint { x: 1, y: 2 });
    assert_eq!(rect.top_right(), QPoint { x: 11, y: 2 });
    assert_eq!(rect.bottom_right(), QPoint { x: 11, y: 22 });
    assert_eq!(rect.bottom_left(), QPoint { x: 1, y: 22 });
}

#[test]
fn polygon_of_extreme_rectangle() {
    let rect = QRect { left: i32::MIN, top: i32::MIN, right: i32::MAX, bottom: i32::MAX };
    let polygon = QPolygon::new(&rect, false);
    assert_eq!(polygon.upcast()[2], QPoint::new(i32::MAX, i32::MAX));
    assert_eq!(polygon.upcast().len(), 4);
}

#[test]
fn default_polygon_is_empty() {
    assert!(QPolygon::default().upcast().is_empty());
    assert!(QPolygon::default() == QPolygon::from_base(vec![]));
}

#[test]
fn copy_of_a_constructed_polygon_equals_its_source() {
    let open = QPolygon::new(&sample_rect(), false);
    assert!(open.clone() == open);
    let closed = QPolygon::new(&sample_rect(), true);
    assert!(closed.clone() == closed);
    let empty = QPolygon::default();
    assert!(empty.clone() == empty);
    assert_eq!(closed.clone().upcast(), closed.upcast());
}

#[test]
fn polygons_with_different_points_differ() {
    let open = QPolygon::new(&sample_rect(), false);
    let closed = QPolygon::new(&sample_rect(), true);
    assert!(open != closed);
    let other = QPolygon::new(&QRect::new(QPoint::new(1, 2), QPoint::new(11, 23)), false);
    assert!(open != other);
    let reversed = QPolygon::from_base(vec![
        QPoint::new(1, 22),
        QPoint::new(11, 22),
        QPoint::new(11, 2),
        QPoint::new(1, 2),
    ]);
    assert!(open != reversed);
}

#[test]
fn downcast_of_the_upcast_is_the_polygon() {
    let polygon = QPolygon::new(&sample_rect(), true);
    let again = QPolygon::from_base(polygon.upcast().clone());
    assert!(again == polygon);
}
