use uncl::constants::{
    ResizeDirection, DEFAULT_HEIGHT, DEFAULT_WIDTH, DEFAULT_X, DEFAULT_Y, MIN_HEIGHT, MIN_WIDTH,
};
use uncl::geometry::{Overlay, Rect, Size};

fn rect(x: u16, y: u16, width: u16, height: u16) -> Rect {
    Rect { x, y, width, height }
}

fn resizing_from(direction: ResizeDirection) -> Overlay {
    let mut overlay = Overlay::new();
    overlay.resizing = true;
    overlay.resize_direction = Some(direction);
    overlay
}

#[test]
fn new_overlay_has_default_geometry() {
    let overlay = Overlay::new();
    assert_eq!(overlay.rect, rect(DEFAULT_X, DEFAULT_Y, DEFAULT_WIDTH, DEFAULT_HEIGHT));
    assert_eq!(overlay.rect, rect(10, 5, 80, 25));
    assert_eq!(overlay.size, Size { cols: 80, rows: 25 });
    assert!(!overlay.dragging);
    assert!(!overlay.resizing);
    assert_eq!(overlay.resize_direction, None);
    assert_eq!(overlay.drag_offset, (0, 0));
    assert!(overlay.is_dead);
}

#[test]
fn resize_below_minimum_width_is_dropped() {
    let mut overlay = Overlay::new();
    overlay.resize_to(0, 0, MIN_WIDTH - 1, 20, (100, 50));
    assert_eq!(overlay.rect, rect(10, 5, 80, 25));
    assert_eq!(overlay.size, Size { cols: 80, rows: 25 });
}

#[test]
fn resize_below_minimum_height_is_dropped() {
    let mut overlay = Overlay::new();
    overlay.resize_to(0, 0, 20, MIN_HEIGHT - 1, (100, 50));
    assert_eq!(overlay.rect, rect(10, 5, 80, 25));
}

#[test]
fn resize_to_zero_is_dropped() {
    let mut overlay = Overlay::new();
    overlay.resize_to(3, 3, 0, 0, (100, 50));
    assert_eq!(overlay.rect, rect(10, 5, 80, 25));
}

#[test]
fn resize_that_fits_is_taken_as_asked() {
    let mut overlay = Overlay::new();
    overlay.resize_to(5, 6, 30, 12, (100, 50));
    assert_eq!(overlay.rect, rect(5, 6, 30, 12));
    assert_eq!(overlay.size, Size { cols: 30, rows: 12 });
}

#[test]
fn resize_at_exact_minimum_is_taken() {
    let mut overlay = Overlay::new();
    overlay.resize_to(0, 0, MIN_WIDTH, MIN_HEIGHT, (100, 50));
    assert_eq!(overlay.rect, rect(0, 0, 10, 10));
}

#[test]
fn resize_cuts_extent_to_the_space_that_remains() {
    let mut overlay = Overlay::new();
    overlay.resize_to(90, 30, 30, 40, (100, 50));
    assert_eq!(overlay.rect, rect(90, 30, 10, 20));
    overlay.resize_to(0, 0, 200, 200, (100, 50));
    assert_eq!(overlay.rect, rect(0, 0, 100, 50));
}

#[test]
fn resize_pushes_origin_back_when_minimum_does_not_fit() {
    let mut overlay = Overlay::new();
    overlay.resize_to(95, 45, 20, 20, (100, 50));
    assert_eq!(overlay.rect, rect(90, 40, 10, 10));
}

#[test]
fn resize_with_origin_past_the_screen() {
    let mut overlay = Overlay::new();
    overlay.resize_to(200, 300, 20, 20, (100, 50));
    assert_eq!(overlay.rect, rect(90, 40, 10, 10));
    overlay.resize_to(u16::MAX, u16::MAX, u16::MAX, u16::MAX, (100, 50));
    assert_eq!(overlay.rect, rect(90, 40, 10, 10));
}

#[test]
fn resize_on_a_screen_smaller_than_the_minimum() {
    let mut overlay = Overlay::new();
    overlay.resize_to(3, 4, 20, 20, (5, 5));
    assert_eq!(overlay.rect, rect(0, 0, 10, 10));
    overlay.resize_to(3, 4, 20, 20, (0, 0));
    assert_eq!(overlay.rect, rect(0, 0, 10, 10));
}

#[test]
fn resize_after_the_screen_shrank() {
    let mut overlay = Overlay::new();
    overlay.resize_to(10, 5, 80, 25, (40, 20));
    assert_eq!(overlay.rect, rect(10, 5, 30, 15));
}

#[test]
fn resize_keeps_gesture_and_liveness() {
    let mut overlay = Overlay::new();
    overlay.dragging = true;
    overlay.drag_offset = (3, 4);
    overlay.is_dead = false;
    overlay.resize_to(1, 2, 20, 20, (100, 50));
    assert!(overlay.dragging);
    assert_eq!(overlay.drag_offset, (3, 4));
    assert!(!overlay.is_dead);
}

#[test]
fn resize_result_is_inside_bounds_and_not_below_minimum() {
    let positions = [0u16, 1, 9, 10, 11, 39, 40, 41, 99, 100, 101, 5000, u16::MAX];
    let extents = [10u16, 11, 25, 40, 99, 100, 101, u16::MAX];
    let bounds = [(10u16, 10u16), (11, 13), (40, 20), (100, 50), (u16::MAX, u16::MAX)];
    for &b in bounds.iter() {
        for &x in positions.iter() {
            for &y in positions.iter() {
                for &w in extents.iter() {
                    for &h in extents.iter() {
                        let mut overlay = Overlay::new();
                        overlay.resize_to(x, y, w, h, b);
                        let r = overlay.rect;
                        assert!(r.width >= MIN_WIDTH && r.height >= MIN_HEIGHT);
                        assert!(r.x as u32 + r.width as u32 <= b.0 as u32);
                        assert!(r.y as u32 + r.height as u32 <= b.1 as u32);
                        assert_eq!(overlay.size, Size { cols: r.width, rows: r.height });
                    }
                }
            }
        }
    }
}

#[test]
fn move_keeps_size_and_clamps_origin() {
    let mut overlay = Overlay::new();
    overlay.move_to(50, 40, (100, 50));
    assert_eq!(overlay.rect, rect(20, 25, 80, 25));
    overlay.move_to(3, 2, (100, 50));
    assert_eq!(overlay.rect, rect(3, 2, 80, 25));
    overlay.move_to(0, 0, (100, 50));
    assert_eq!(overlay.rect, rect(0, 0, 80, 25));
    assert_eq!(overlay.size, Size { cols: 80, rows: 25 });
}

#[test]
fn move_on_a_screen_smaller_than_the_window_goes_to_the_origin() {
    let mut overlay = Overlay::new();
    overlay.move_to(7, 9, (40, 20));
    assert_eq!(overlay.rect, rect(0, 0, 80, 25));
}

#[test]
fn move_stays_inside_bounds_when_the_window_fits() {
    let targets = [0u16, 1, 19, 20, 21, 25, 26, 1000, u16::MAX];
    for &x in targets.iter() {
        for &y in targets.iter() {
            let mut overlay = Overlay::new();
            overlay.move_to(x, y, (100, 50));
            assert_eq!(overlay.rect.width, 80);
            assert_eq!(overlay.rect.height, 25);
            assert!(overlay.rect.x + overlay.rect.width <= 100);
            assert!(overlay.rect.y + overlay.rect.height <= 50);
            assert_eq!(overlay.rect.x, x.min(20));
            assert_eq!(overlay.rect.y, y.min(25));
        }
    }
}

#[test]
fn press_near_a_corner_starts_a_resize() {
    let cases = [
        ((10u16, 5u16), ResizeDirection::TopLeft),
        ((11, 6), ResizeDirection::TopLeft),
        ((88, 5), ResizeDirection::TopRight),
        ((89, 6), ResizeDirection::TopRight),
        ((10, 28), ResizeDirection::BottomLeft),
        ((11, 29), ResizeDirection::BottomLeft),
        ((88, 28), ResizeDirection::BottomRight),
        ((89, 29), ResizeDirection::BottomRight),
    ];
    for &((column, row), direction) in cases.iter() {
        let mut overlay = Overlay::new();
        overlay.begin_gesture(column, row);
        assert!(overlay.resizing);
        assert!(!overlay.dragging);
        assert_eq!(overlay.resize_direction, Some(direction));
        assert_eq!(overlay.rect, rect(10, 5, 80, 25));
    }
}

#[test]
fn press_away_from_the_corners_starts_a_drag() {
    let cases = [(50u16, 15u16), (12, 7), (87, 27), (10, 15), (50, 5), (89, 15), (50, 29), (12, 6)];
    for &(column, row) in cases.iter() {
        let mut overlay = Overlay::new();
        overlay.begin_gesture(column, row);
        assert!(overlay.dragging);
        assert!(!overlay.resizing);
        assert_eq!(overlay.resize_direction, None);
        assert_eq!(overlay.drag_offset, (column - 10, row - 5));
    }
}

#[test]
fn top_left_wins_on_a_window_of_minimum_size() {
    let mut overlay = Overlay::new();
    overlay.resize_to(0, 0, 10, 10, (100, 50));
    overlay.begin_gesture(1, 1);
    assert_eq!(overlay.resize_direction, Some(ResizeDirection::TopLeft));
}

#[test]
fn drag_of_bottom_right_corner_follows_the_pointer() {
    let mut overlay = resizing_from(ResizeDirection::BottomRight);
    overlay.update_gesture(60, 20, (100, 50));
    assert_eq!(overlay.rect, rect(10, 5, 50, 15));
    assert_eq!(overlay.size, Size { cols: 50, rows: 15 });
    overlay.update_gesture(0, 0, (100, 50));
    assert_eq!(overlay.rect, rect(10, 5, 10, 10));
    overlay.update_gesture(500, 500, (100, 50));
    assert_eq!(overlay.rect, rect(10, 5, 90, 45));
}

#[test]
fn drag_of_top_left_corner_keeps_the_bottom_right_corner() {
    let mut overlay = resizing_from(ResizeDirection::TopLeft);
    overlay.update_gesture(20, 10, (100, 50));
    assert_eq!(overlay.rect, rect(20, 10, 70, 20));
    overlay.update_gesture(85, 28, (100, 50));
    assert_eq!(overlay.rect, rect(80, 20, 10, 10));
    overlay.update_gesture(0, 0, (100, 50));
    assert_eq!(overlay.rect, rect(0, 0, 90, 30));
}

#[test]
fn drag_of_top_right_corner_keeps_the_bottom_left_corner() {
    let mut overlay = resizing_from(ResizeDirection::TopRight);
    overlay.update_gesture(40, 8, (100, 50));
    assert_eq!(overlay.rect, rect(10, 8, 30, 22));
}

#[test]
fn drag_of_bottom_left_corner_keeps_the_top_right_corner() {
    let mut overlay = resizing_from(ResizeDirection::BottomLeft);
    overlay.update_gesture(15, 40, (100, 50));
    assert_eq!(overlay.rect, rect(15, 5, 75, 35));
}

#[test]
fn drag_update_twice_at_the_same_pointer_gives_the_same_rectangle() {
    let directions = [
        ResizeDirection::TopLeft,
        ResizeDirection::TopRight,
        ResizeDirection::BottomLeft,
        ResizeDirection::BottomRight,
    ];
    let pointers = [(0u16, 0u16), (20, 10), (60, 20), (85, 28), (99, 49), (500, 500)];
    let bounds = [(100u16, 50u16), (40, 20), (5, 5)];
    for &direction in directions.iter() {
        for &(column, row) in pointers.iter() {
            for &b in bounds.iter() {
                let mut overlay = resizing_from(direction);
                overlay.update_gesture(column, row, b);
                let once = overlay.rect;
                overlay.update_gesture(column, row, b);
                assert_eq!(overlay.rect, once);
            }
        }
    }
}

#[test]
fn resizing_without_a_direction_changes_nothing() {
    let mut overlay = Overlay::new();
    overlay.resizing = true;
    overlay.dragging = true;
    overlay.update_gesture(60, 20, (100, 50));
    assert_eq!(overlay.rect, rect(10, 5, 80, 25));
}

#[test]
fn drag_moves_the_window_with_the_pointer() {
    let mut overlay = Overlay::new();
    overlay.begin_gesture(50, 15);
    overlay.update_gesture(60, 30, (100, 50));
    assert_eq!(overlay.rect, rect(20, 20, 80, 25));
    overlay.update_gesture(45, 12, (100, 50));
    assert_eq!(overlay.rect, rect(5, 2, 80, 25));
    overlay.update_gesture(0, 0, (100, 50));
    assert_eq!(overlay.rect, rect(0, 0, 80, 25));
    assert_eq!(overlay.drag_offset, (40, 10));
}

#[test]
fn update_without_a_gesture_changes_nothing() {
    let mut overlay = Overlay::new();
    overlay.update_gesture(60, 30, (100, 50));
    assert_eq!(overlay.rect, rect(10, 5, 80, 25));
}

#[test]
fn release_clears_the_gesture() {
    let mut overlay = Overlay::new();
    overlay.begin_gesture(10, 5);
    overlay.dragging = true;
    overlay.end_gesture();
    assert!(!overlay.dragging);
    assert!(!overlay.resizing);
    assert_eq!(overlay.resize_direction, None);
    assert_eq!(overlay.rect, rect(10, 5, 80, 25));
}
