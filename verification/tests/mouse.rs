use uncl::constants::ResizeDirection;
use uncl::geometry::Rect;
use uncl::input::mouse::{
    encode_mouse, handle_mouse, is_within_overlay, MouseButton, MouseEvent, MouseEventKind,
};
use uncl::input::wire::Action;
use uncl::lease::Lease;

fn at(kind: MouseEventKind, column: u16, row: u16) -> MouseEvent {
    MouseEvent { kind, column, row }
}

fn live_lease() -> Lease {
    let mut lease = Lease::new();
    lease.tenant_started();
    lease.toggle_visibility();
    lease
}

const DOWN: MouseEventKind = MouseEventKind::Down(MouseButton::Left);
const DRAG: MouseEventKind = MouseEventKind::Drag(MouseButton::Left);
const UP: MouseEventKind = MouseEventKind::Up(MouseButton::Left);

#[test]
fn left_press_report() {
    assert_eq!(encode_mouse(at(DOWN, 5, 10)), Some(b"\x1b[<0;6;11M".to_vec()));
    assert_eq!(encode_mouse(at(DOWN, 0, 0)), Some(b"\x1b[<0;1;1M".to_vec()));
}

#[test]
fn release_reports_end_in_small_m() {
    assert_eq!(encode_mouse(at(UP, 5, 10)), Some(b"\x1b[<0;6;11m".to_vec()));
    assert_eq!(
        encode_mouse(at(MouseEventKind::Up(MouseButton::Middle), 5, 10)),
        Some(b"\x1b[<1;6;11m".to_vec())
    );
    assert_eq!(
        encode_mouse(at(MouseEventKind::Up(MouseButton::Right), 5, 10)),
        Some(b"\x1b[<2;6;11m".to_vec())
    );
}

#[test]
fn button_codes() {
    assert_eq!(
        encode_mouse(at(MouseEventKind::Down(MouseButton::Middle), 1, 2)),
        Some(b"\x1b[<1;2;3M".to_vec())
    );
    assert_eq!(
        encode_mouse(at(MouseEventKind::Down(MouseButton::Right), 1, 2)),
        Some(b"\x1b[<2;2;3M".to_vec())
    );
    assert_eq!(encode_mouse(at(DRAG, 1, 2)), Some(b"\x1b[<32;2;3M".to_vec()));
    assert_eq!(
        encode_mouse(at(MouseEventKind::Drag(MouseButton::Middle), 1, 2)),
        Some(b"\x1b[<33;2;3M".to_vec())
    );
    assert_eq!(
        encode_mouse(at(MouseEventKind::Drag(MouseButton::Right), 1, 2)),
        Some(b"\x1b[<34;2;3M".to_vec())
    );
    assert_eq!(encode_mouse(at(MouseEventKind::ScrollUp, 1, 2)), Some(b"\x1b[<64;2;3M".to_vec()));
    assert_eq!(encode_mouse(at(MouseEventKind::ScrollDown, 1, 2)), Some(b"\x1b[<65;2;3M".to_vec()));
}

#[test]
fn events_without_a_report() {
    assert_eq!(encode_mouse(at(MouseEventKind::Moved, 1, 2)), None);
    assert_eq!(encode_mouse(at(MouseEventKind::ScrollLeft, 1, 2)), None);
    assert_eq!(encode_mouse(at(MouseEventKind::ScrollRight, 1, 2)), None);
}

#[test]
fn report_of_large_coordinates() {
    assert_eq!(encode_mouse(at(DOWN, 9, 99)), Some(b"\x1b[<0;10;100M".to_vec()));
    assert_eq!(encode_mouse(at(DOWN, 999, 9999)), Some(b"\x1b[<0;1000;10000M".to_vec()));
    assert_eq!(
        encode_mouse(at(DOWN, u16::MAX, u16::MAX)),
        Some(b"\x1b[<0;65536;65536M".to_vec())
    );
}

#[test]
fn within_overlay_at_the_edges() {
    let r = Rect { x: 10, y: 5, width: 80, height: 25 };
    assert!(is_within_overlay(at(DOWN, 10, 5), r));
    assert!(is_within_overlay(at(DOWN, 89, 29), r));
    assert!(!is_within_overlay(at(DOWN, 9, 5), r));
    assert!(!is_within_overlay(at(DOWN, 10, 4), r));
    assert!(!is_within_overlay(at(DOWN, 90, 29), r));
    assert!(!is_within_overlay(at(DOWN, 89, 30), r));
    let far = Rect { x: u16::MAX, y: u16::MAX, width: 10, height: 10 };
    assert!(is_within_overlay(at(DOWN, u16::MAX, u16::MAX), far));
    let empty = Rect { x: 3, y: 3, width: 0, height: 0 };
    assert!(!is_within_overlay(at(DOWN, 3, 3), empty));
}

#[test]
fn press_beside_the_overlay_hides_it() {
    let mut lease = live_lease();
    let action = handle_mouse(&mut lease, at(DOWN, 0, 0), (100, 50));
    assert!(matches!(action, Action::Nothing));
    assert!(!lease.tenant_visible);
    assert!(!lease.tenant.dragging);
    assert!(!lease.tenant.resizing);
}

#[test]
fn press_on_a_hidden_overlay_does_nothing() {
    let mut lease = Lease::new();
    lease.tenant_started();
    handle_mouse(&mut lease, at(DOWN, 50, 15), (100, 50));
    assert!(!lease.tenant.dragging);
    handle_mouse(&mut lease, at(DOWN, 10, 5), (100, 50));
    assert!(!lease.tenant.resizing);
    handle_mouse(&mut lease, at(DOWN, 0, 0), (100, 50));
    assert!(!lease.tenant_visible);
}

#[test]
fn press_in_the_middle_then_drag_moves_the_overlay() {
    let mut lease = live_lease();
    handle_mouse(&mut lease, at(DOWN, 50, 15), (100, 50));
    assert!(lease.tenant.dragging);
    assert_eq!(lease.tenant.drag_offset, (40, 10));
    let action = handle_mouse(&mut lease, at(DRAG, 55, 20), (100, 50));
    assert!(matches!(action, Action::Nothing));
    assert_eq!(lease.tenant.rect, Rect { x: 15, y: 10, width: 80, height: 25 });
    let action = handle_mouse(&mut lease, at(UP, 55, 20), (100, 50));
    assert!(matches!(action, Action::Nothing));
    assert!(!lease.tenant.dragging);
    assert!(lease.tenant_visible);
}

#[test]
fn press_on_a_corner_then_drag_resizes_and_pushes_the_size() {
    let mut lease = live_lease();
    handle_mouse(&mut lease, at(DOWN, 89, 29), (100, 50));
    assert!(lease.tenant.resizing);
    assert_eq!(lease.tenant.resize_direction, Some(ResizeDirection::BottomRight));
    let action = handle_mouse(&mut lease, at(DRAG, 60, 20), (100, 50));
    assert!(matches!(action, Action::Resize(15, 50)));
    assert_eq!(lease.tenant.rect, Rect { x: 10, y: 5, width: 50, height: 15 });
    assert_eq!(lease.tenant_parser.size(), (15, 50));
    let action = handle_mouse(&mut lease, at(DRAG, 60, 20), (100, 50));
    assert!(matches!(action, Action::Nothing));
    assert_eq!(lease.tenant.rect, Rect { x: 10, y: 5, width: 50, height: 15 });
    let action = handle_mouse(&mut lease, at(DRAG, 200, 200), (100, 50));
    assert!(matches!(action, Action::Resize(45, 90)));
    assert_eq!(lease.tenant_parser.size(), (45, 90));
    handle_mouse(&mut lease, at(UP, 200, 200), (100, 50));
    assert!(!lease.tenant.resizing);
    assert_eq!(lease.tenant.resize_direction, None);
}

#[test]
fn drag_of_the_top_left_corner_pushes_the_size() {
    let mut lease = live_lease();
    handle_mouse(&mut lease, at(DOWN, 10, 5), (100, 50));
    let action = handle_mouse(&mut lease, at(DRAG, 20, 10), (100, 50));
    assert!(matches!(action, Action::Resize(20, 70)));
    assert_eq!(lease.tenant.rect, Rect { x: 20, y: 10, width: 70, height: 20 });
}

#[test]
fn other_buttons_and_motion_leave_the_overlay_alone() {
    let kinds = [
        MouseEventKind::Down(MouseButton::Right),
        MouseEventKind::Down(MouseButton::Middle),
        MouseEventKind::Up(MouseButton::Right),
        MouseEventKind::Drag(MouseButton::Right),
        MouseEventKind::Drag(MouseButton::Middle),
        MouseEventKind::Moved,
        MouseEventKind::ScrollUp,
        MouseEventKind::ScrollDown,
        MouseEventKind::ScrollLeft,
        MouseEventKind::ScrollRight,
    ];
    for kind in kinds {
        let mut lease = live_lease();
        lease.tenant.begin_gesture(89, 29);
        let action = handle_mouse(&mut lease, at(kind, 0, 0), (100, 50));
        assert!(matches!(action, Action::Nothing));
        assert!(lease.tenant_visible);
        assert!(lease.tenant.resizing);
        assert_eq!(lease.tenant.rect, Rect { x: 10, y: 5, width: 80, height: 25 });
    }
}
