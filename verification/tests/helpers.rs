use std::time::Duration;

use endless_jumper::helpers::{
    checked_milliseconds, get_milliseconds, milliseconds, point_colliding_rect, rect_centered,
    Rect, MAX_POSITION, MAX_SIZE, MIN_POSITION,
};

#[test]
fn milliseconds_of_nothing_is_zero() {
    assert_eq!(get_milliseconds(&Duration::new(0, 0)), 0);
    assert_eq!(milliseconds(0, 0), Some(0));
}

#[test]
fn milliseconds_are_cut_off_not_rounded() {
    assert_eq!(get_milliseconds(&Duration::new(0, 1_999_999)), 1);
    assert_eq!(get_milliseconds(&Duration::new(0, 999_999)), 0);
    assert_eq!(get_milliseconds(&Duration::new(0, 1_000_000)), 1);
    assert_eq!(milliseconds(0, 1_999_999), Some(1));
}

#[test]
fn milliseconds_count_the_seconds() {
    assert_eq!(get_milliseconds(&Duration::new(3, 250_000_000)), 3250);
    assert_eq!(get_milliseconds(&Duration::from_millis(15)), 15);
    assert_eq!(milliseconds(7, 999_999_999), Some(7999));
}

#[test]
fn milliseconds_grow_with_the_duration() {
    let durations = [
        Duration::new(0, 0),
        Duration::new(0, 999_999),
        Duration::new(0, 1_000_000),
        Duration::new(0, 999_999_999),
        Duration::new(1, 0),
        Duration::new(1, 1),
        Duration::new(2, 500_000_000),
        Duration::new(1_000_000, 3),
    ];
    for pair in durations.windows(2) {
        assert!(pair[0] < pair[1]);
        assert!(get_milliseconds(&pair[0]) <= get_milliseconds(&pair[1]));
    }
}

#[test]
fn milliseconds_of_whole_milliseconds_come_back() {
    for ms in [0u64, 1, 14, 15, 999, 1000, 1001, 123_456_789] {
        let once = get_milliseconds(&Duration::from_millis(ms));
        assert_eq!(once, ms);
        assert_eq!(get_milliseconds(&Duration::from_millis(once)), once);
    }
}

#[test]
fn milliseconds_beyond_u64_are_none() {
    let longest = Duration::new(u64::MAX, 999_999_999);
    assert_eq!(checked_milliseconds(&longest), None);
    assert_eq!(milliseconds(u64::MAX, 999_999_999), None);
    let last = u64::MAX / 1000;
    assert_eq!(checked_milliseconds(&Duration::new(last, 0)), Some(last * 1000));
    assert_eq!(milliseconds(last, 615_999_999), Some(u64::MAX));
    assert_eq!(milliseconds(last, 616_000_000), None);
    assert_eq!(checked_milliseconds(&Duration::new(2, 5_000_000)), Some(2005));
}

#[test]
fn rect_new_keeps_ordinary_values() {
    let r = Rect::new(3, -4, 10, 20);
    assert_eq!((r.x(), r.y(), r.width(), r.height()), (3, -4, 10, 20));
}

#[test]
fn rect_new_clamps_sides_and_corner() {
    let r = Rect::new(i32::MAX, i32::MIN, 0, u32::MAX);
    assert_eq!(r.x(), MAX_POSITION);
    assert_eq!(r.y(), MIN_POSITION);
    assert_eq!(r.width(), 1);
    assert_eq!(r.height(), MAX_SIZE);
    assert_eq!(MAX_SIZE, (i32::MAX as u32) / 2);
    assert_eq!(MIN_POSITION, i32::MIN / 2);
}

#[test]
fn rect_centered_lies_round_the_window_centre() {
    let r = rect_centered(200, 60, 0, 30);
    assert_eq!((r.x(), r.y(), r.width(), r.height()), (300, 300, 200, 60));
    let r = rect_centered(400, 50, 0, -100);
    assert_eq!((r.x(), r.y(), r.width(), r.height()), (200, 175, 400, 50));
    let r = rect_centered(190, 50, 0, 100);
    assert_eq!((r.x(), r.y(), r.width(), r.height()), (305, 375, 190, 50));
}

#[test]
fn rect_centered_rounds_halves_towards_zero() {
    let r = rect_centered(5, 7, 0, 0);
    assert_eq!((r.x(), r.y()), (398, 297));
    let r = rect_centered(-5, -7, 1, 2);
    assert_eq!((r.x(), r.y()), (403, 305));
    assert_eq!((r.width(), r.height()), (MAX_SIZE, MAX_SIZE));
}

#[test]
fn rect_centered_clamps_far_offsets() {
    let r = rect_centered(0, 0, i32::MAX, i32::MIN);
    assert_eq!((r.x(), r.y(), r.width(), r.height()), (MAX_POSITION, MIN_POSITION, 1, 1));
}

#[test]
fn point_on_an_edge_collides() {
    let r = rect_centered(200, 60, 0, 30);
    assert!(point_colliding_rect(300, 300, &r));
    assert!(point_colliding_rect(500, 360, &r));
    assert!(point_colliding_rect(400, 330, &r));
    assert!(!point_colliding_rect(299, 330, &r));
    assert!(!point_colliding_rect(501, 330, &r));
    assert!(!point_colliding_rect(400, 299, &r));
    assert!(!point_colliding_rect(400, 361, &r));
}

#[test]
fn point_collides_with_the_widest_rect() {
    let r = Rect::new(MAX_POSITION, MAX_POSITION, u32::MAX, u32::MAX);
    assert!(point_colliding_rect(i32::MAX - 1, i32::MAX - 1, &r));
    assert!(!point_colliding_rect(i32::MAX, i32::MAX, &r));
    assert!(!point_colliding_rect(0, 0, &r));
}
