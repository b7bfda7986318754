use gui_bootstrap::geometry::{Point, Rect, Size};

fn rect(x: i64, y: i64, width: u32, height: u32) -> Rect {
    Rect { origin: Point { x, y }, size: Size { width, height } }
}

#[test]
fn new_accepts_a_valid_rectangle() {
    assert_eq!(Rect::new(0, 0, 200, 200), Some(rect(0, 0, 200, 200)));
    assert_eq!(Rect::new(-50, 7, 1, 1), Some(rect(-50, 7, 1, 1)));
}

#[test]
fn new_refuses_a_degenerate_rectangle() {
    assert_eq!(Rect::new(0, 0, 0, 200), None);
    assert_eq!(Rect::new(0, 0, 200, 0), None);
    assert_eq!(Rect::new(5, 5, 0, 0), None);
}

#[test]
fn new_refuses_edges_past_the_last_coordinate() {
    assert_eq!(Rect::new(i64::MAX, 0, 1, 1), None);
    assert_eq!(Rect::new(0, i64::MAX, 1, 1), None);
    assert_eq!(Rect::new(i64::MAX - 1, 0, 1, 1), Some(rect(i64::MAX - 1, 0, 1, 1)));
    assert_eq!(Rect::new(i64::MAX - 1, 0, 2, 1), None);
    assert_eq!(Rect::new(i64::MIN, i64::MIN, u32::MAX, u32::MAX).is_some(), true);
}

#[test]
fn is_valid_agrees_with_new() {
    assert!(rect(0, 0, 1, 1).is_valid());
    assert!(!rect(0, 0, 0, 1).is_valid());
    assert!(!rect(0, 0, 1, 0).is_valid());
    assert!(!rect(i64::MAX, 0, 1, 1).is_valid());
    assert!(!rect(0, i64::MAX - 3, 1, 4).is_valid());
    assert!(rect(0, i64::MAX - 4, 1, 4).is_valid());
}

#[test]
fn contains_rect_takes_the_rectangle_itself_and_its_parts() {
    let outer = rect(0, 0, 100, 100);
    assert!(outer.contains_rect(&outer));
    assert!(outer.contains_rect(&rect(10, 10, 90, 90)));
    assert!(outer.contains_rect(&rect(0, 0, 1, 1)));
    assert!(outer.contains_rect(&rect(99, 99, 1, 1)));
}

#[test]
fn contains_rect_refuses_what_sticks_out() {
    let outer = rect(0, 0, 100, 100);
    assert!(!outer.contains_rect(&rect(-1, 0, 10, 10)));
    assert!(!outer.contains_rect(&rect(0, -1, 10, 10)));
    assert!(!outer.contains_rect(&rect(91, 0, 10, 10)));
    assert!(!outer.contains_rect(&rect(0, 91, 10, 10)));
    assert!(!outer.contains_rect(&rect(0, 0, 101, 100)));
    assert!(!rect(10, 10, 5, 5).contains_rect(&outer));
}

#[test]
fn contains_rect_does_not_overflow_at_the_far_corner() {
    let far = rect(i64::MAX - 10, i64::MAX - 10, u32::MAX, u32::MAX);
    let near = rect(i64::MAX - 10, i64::MAX - 10, 10, 10);
    assert!(far.contains_rect(&near));
    assert!(!near.contains_rect(&far));
}

#[test]
fn center_in_splits_the_slack_evenly() {
    let display = rect(0, 0, 1440, 900);
    assert_eq!(rect(0, 0, 200, 200).center_in(&display), Some(rect(620, 350, 200, 200)));
    assert_eq!(rect(999, -999, 200, 200).center_in(&display), Some(rect(620, 350, 200, 200)));
    assert_eq!(rect(0, 0, 1440, 900).center_in(&display), Some(rect(0, 0, 1440, 900)));
}

#[test]
fn center_in_follows_the_origin_of_the_display() {
    let display = rect(-1000, 500, 100, 50);
    assert_eq!(rect(0, 0, 40, 10).center_in(&display), Some(rect(-970, 520, 40, 10)));
}

#[test]
fn center_in_rounds_an_odd_slack_down() {
    let display = rect(0, 0, 10, 201);
    assert_eq!(rect(0, 0, 3, 200).center_in(&display), Some(rect(3, 0, 3, 200)));
    assert_eq!(rect(0, 0, 9, 2).center_in(&display), Some(rect(0, 99, 9, 2)));
}

#[test]
fn center_in_lets_a_larger_rectangle_stick_out_on_both_sides() {
    let display = rect(100, 100, 200, 200);
    assert_eq!(rect(0, 0, 300, 400).center_in(&display), Some(rect(50, 0, 300, 400)));
    assert_eq!(rect(0, 0, 201, 203).center_in(&display), Some(rect(99, 98, 201, 203)));
}

#[test]
fn center_in_refuses_what_is_not_representable() {
    let low = rect(i64::MIN, 0, 1, 10);
    assert_eq!(rect(0, 0, 3, 1).center_in(&low), None);
    let high = rect(0, i64::MAX - 2, 10, 2);
    assert_eq!(rect(0, 0, 1, 4).center_in(&high), None);
    assert_eq!(rect(0, 0, 1, 2).center_in(&high), Some(rect(4, i64::MAX - 2, 1, 2)));
}

#[test]
fn center_in_refuses_invalid_rectangles() {
    let display = rect(0, 0, 1440, 900);
    assert_eq!(rect(0, 0, 0, 10).center_in(&display), None);
    assert_eq!(rect(0, 0, 10, 10).center_in(&rect(0, 0, 0, 900)), None);
    assert_eq!(rect(i64::MAX, 0, 10, 10).center_in(&display), None);
}

#[test]
fn a_centered_rectangle_that_fits_lies_on_the_display() {
    let display = rect(-300, 40, 1921, 1080);
    let sizes: [(u32, u32); 6] =
        [(1, 1), (200, 200), (1920, 1080), (1921, 1080), (7, 1079), (1921, 1)];
    let origins: [(i64, i64); 4] = [(0, 0), (-5000, 123), (i64::MIN, i64::MIN), (77, 1 << 40)];
    for (width, height) in sizes {
        for (x, y) in origins {
            let window = rect(x, y, width, height);
            let centered = window.center_in(&display).unwrap();
            assert_eq!(centered.size, window.size);
            assert!(display.contains_rect(&centered));
            assert!(centered.is_valid());
        }
    }
}

#[test]
fn move_top_left_to_puts_the_top_left_corner_at_the_point() {
    let moved = rect(0, 0, 200, 200).move_top_left_to(Point { x: 20, y: 20 });
    assert_eq!(moved, Some(rect(20, -180, 200, 200)));
    let moved = rect(5, 5, 10, 30).move_top_left_to(Point { x: -7, y: 100 });
    assert_eq!(moved, Some(rect(-7, 70, 10, 30)));
}

#[test]
fn move_top_left_to_refuses_what_is_not_representable() {
    let r = rect(0, 0, 200, 200);
    assert_eq!(r.move_top_left_to(Point { x: 0, y: i64::MIN + 199 }), None);
    assert_eq!(
        r.move_top_left_to(Point { x: 0, y: i64::MIN + 200 }),
        Some(rect(0, i64::MIN, 200, 200))
    );
    assert_eq!(r.move_top_left_to(Point { x: i64::MAX - 199, y: 0 }), None);
    assert_eq!(
        r.move_top_left_to(Point { x: i64::MAX - 200, y: 0 }),
        Some(rect(i64::MAX - 200, -200, 200, 200))
    );
    assert_eq!(rect(0, 0, 0, 1).move_top_left_to(Point { x: 0, y: 0 }), None);
}
