use kawa::geometry::{cover_rects, extend_rect_to_cover, Point, Size};

#[test]
fn extending_moves_the_start_and_grows_the_length() {
    let mut pos = Point::new(10, 10);
    let mut size = Size::new(5, 5);
    extend_rect_to_cover(&mut pos, &mut size, &Point::new(12, 4), &Size::new(10, 2));
    assert_eq!(pos, Point::new(10, 4));
    assert_eq!(size, Size::new(12, 5));
}

#[test]
fn a_rectangle_further_left_drops_the_old_right_edge() {
    let mut pos = Point::new(10, 0);
    let mut size = Size::new(5, 1);
    extend_rect_to_cover(&mut pos, &mut size, &Point::new(0, 0), &Size::new(3, 1));
    assert_eq!(pos, Point::new(0, 0));
    assert_eq!(size, Size::new(5, 1));
}

#[test]
fn covering_the_widgets_of_a_panel() {
    let rects = vec![
        (Point::new(0, 0), Size::new(24, 12)),
        (Point::new(26, 0), Size::new(24, 12)),
        (Point::new(54, 30), Size::new(20, 20)),
    ];
    assert_eq!(cover_rects(&rects), (Point::new(0, 0), Size::new(74, 50)));
    assert_eq!(cover_rects(&Vec::new()), (Point::new(i32::MAX, i32::MAX), Size::new(0, 0)));
}
