use smithay::utils::geometry::{Point, Rectangle, Size};
use smithay::utils::rects::cut_out;
use smithay::utils::transform::Transform;

fn rect(x: i32, y: i32, w: i32, h: i32) -> Rectangle {
    Rectangle::new(Point::new(x, y), Size::new(w, h))
}

fn has(r: &Rectangle, x: i32, y: i32) -> bool {
    r.loc.x <= x && x < r.loc.x + r.size.w && r.loc.y <= y && y < r.loc.y + r.size.h
}

fn covered(rects: &[Rectangle], x: i32, y: i32) -> usize {
    rects.iter().filter(|r| has(r, x, y)).count()
}

const ALL: [Transform; 8] = [
    Transform::Normal,
    Transform::_90,
    Transform::_180,
    Transform::_270,
    Transform::Flipped,
    Transform::Flipped90,
    Transform::Flipped180,
    Transform::Flipped270,
];

#[test]
fn rectangles_that_touch_do_not_overlap() {
    let a = rect(0, 0, 10, 10);
    let b = rect(10, 0, 5, 5);
    assert!(!a.overlaps(b));
    assert!(a.overlaps_or_touches(b));
    assert!(!a.overlaps_or_touches(rect(11, 0, 5, 5)));
    assert!(a.overlaps(rect(9, 9, 5, 5)));
}

#[test]
fn intersection_holds_the_shared_pixels() {
    let a = rect(0, 0, 10, 10);
    let b = rect(5, 6, 10, 10);
    assert_eq!(a.intersection(b), Some(rect(5, 6, 5, 4)));
    assert_eq!(b.intersection(a), a.intersection(b));
    assert_eq!(a.intersection(rect(20, 20, 1, 1)), None);
}

#[test]
fn merge_is_the_bounding_box() {
    assert_eq!(rect(0, 0, 2, 2).merge(rect(5, 5, 1, 1)), rect(0, 0, 6, 6));
    assert!(rect(0, 0, 6, 6).contains_rect(rect(5, 5, 1, 1)));
}

#[test]
fn moving_there_and_back() {
    let r = rect(3, 4, 5, 6);
    let by = Point::new(-7, 9);
    assert_eq!(r.moved(by), rect(-4, 13, 5, 6));
    assert_eq!(r.moved(by).relative_to(by), r);
}

#[test]
fn points_and_sizes_are_constrained() {
    assert_eq!(Point::new(50, -3).constrain(rect(0, 0, 10, 10)), Point::new(10, 0));
    assert_eq!(Size::new(50, 1).clamp(Size::new(2, 2), Size::new(10, 10)), Size::new(10, 2));
    assert!(Size::new(0, 3).is_empty());
}

#[test]
fn cutting_a_hole_leaves_the_rest() {
    let parts = rect(0, 0, 10, 10).subtract_rect(rect(3, 3, 4, 4));
    for x in -1..11 {
        for y in -1..11 {
            let expected = has(&rect(0, 0, 10, 10), x, y) && !has(&rect(3, 3, 4, 4), x, y);
            assert_eq!(covered(&parts, x, y), expected as usize);
        }
    }
    assert_eq!(rect(0, 0, 2, 2).subtract_rect(rect(0, 0, 2, 2)), Vec::new());
    assert_eq!(rect(0, 0, 2, 2).subtract_rect(rect(5, 5, 2, 2)), vec![rect(0, 0, 2, 2)]);
}

#[test]
fn cutting_many_holes_leaves_the_rest() {
    let holes = vec![rect(0, 0, 3, 3), rect(2, 2, 3, 3), rect(8, 8, 9, 9)];
    let parts = rect(0, 0, 10, 10).subtract_rects(&holes);
    let other = cut_out(vec![rect(0, 0, 10, 10)], &holes);
    let both = Rectangle::subtract_rects_many_in_place(
        vec![rect(0, 0, 10, 10), rect(20, 20, 2, 2)],
        &holes,
    );
    for x in 0..25 {
        for y in 0..25 {
            let hole = covered(&holes, x, y) > 0;
            let expected = has(&rect(0, 0, 10, 10), x, y) && !hole;
            assert_eq!(covered(&parts, x, y) > 0, expected);
            assert_eq!(covered(&other, x, y) > 0, expected);
            assert_eq!(
                covered(&both, x, y) > 0,
                expected || has(&rect(20, 20, 2, 2), x, y)
            );
        }
    }
}

#[test]
fn transforms_have_parts() {
    for t in ALL {
        assert_eq!(Transform::from_parts(t.flipped(), t.quarters()), t);
    }
    assert_eq!(Transform::Flipped270.quarters(), 3);
    assert!(!Transform::_90.flipped());
}

#[test]
fn quarter_turns_swap_the_sides() {
    assert_eq!(Transform::_90.transform_size(Size::new(3, 4)), Size::new(4, 3));
    assert_eq!(Transform::Flipped180.transform_size(Size::new(3, 4)), Size::new(3, 4));
}

#[test]
fn a_rectangle_is_turned_within_its_area() {
    let area = Size::new(10, 20);
    let r = rect(1, 2, 3, 4);
    assert_eq!(Transform::Normal.transform_rect_in(r, area), r);
    assert_eq!(Transform::_90.transform_rect_in(r, area), rect(14, 1, 4, 3));
    assert_eq!(Transform::_180.transform_rect_in(r, area), rect(6, 14, 3, 4));
    assert_eq!(Transform::_270.transform_rect_in(r, area), rect(2, 6, 4, 3));
    assert_eq!(Transform::Flipped.transform_rect_in(r, area), rect(6, 2, 3, 4));
    assert_eq!(Transform::Flipped180.transform_rect_in(r, area), rect(1, 14, 3, 4));
}

#[test]
fn turning_back_gives_the_rectangle() {
    let area = Size::new(10, 20);
    let r = rect(1, 2, 3, 4);
    for t in ALL {
        let turned = t.transform_rect_in(r, area);
        let turned_area = t.transform_size(area);
        let back = match t {
            Transform::Flipped90 | Transform::Flipped270 => t,
            _ => t.invert(),
        };
        assert_eq!(back.transform_rect_in(turned, turned_area), r);
        assert!(turned.loc.x >= 0 && turned.loc.x + turned.size.w <= turned_area.w);
    }
    assert_eq!(Transform::_90.invert(), Transform::_270);
}
