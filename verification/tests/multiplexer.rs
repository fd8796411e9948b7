use viewport::screen_multiplexer::{Modifiers, ScreenMultiplexer, WindowEvent};

fn moved(x: i64, y: i64) -> WindowEvent {
    WindowEvent::CursorMoved { x, y }
}

#[test]
fn areas_tile_the_window() {
    let m = ScreenMultiplexer::new(500, (800, 600));
    let (left, right) = m.areas();
    assert_eq!(left.position, (0, 0));
    assert_eq!(left.size, (500, 600));
    assert_eq!(right.position, (500, 0));
    assert_eq!(right.size, (300, 600));
    assert_eq!(left.size.0 + right.size.0, 800);
    assert_eq!(left.size.1, 600);
    assert_eq!(right.size.1, 600);
}

#[test]
fn fresh_multiplexer_defaults() {
    let m = ScreenMultiplexer::new(500, (800, 600));
    assert_eq!(m.cursors(), ((-1, -1), (-1, -1)));
    assert_eq!(
        m.modifiers(),
        Modifiers { shift: false, ctrl: false, alt: false, logo: false }
    );
    assert!(m.left_focus);
    assert!(!m.mouse_clicked);
}

#[test]
fn focus_follows_cursor_moves() {
    let mut m = ScreenMultiplexer::new(500, (800, 600));
    let (l, r) = m.event(moved(100, 100));
    assert_eq!(l, Some(moved(100, 100)));
    assert_eq!(r, None);
    let (l, r) = m.event(moved(600, 300));
    assert_eq!(l, None);
    assert_eq!(r, Some(moved(600, 300)));
    let (l, r) = m.event(moved(10, 10));
    assert_eq!(l, Some(moved(10, 10)));
    assert_eq!(r, None);
}

#[test]
fn drag_lock_freezes_focus() {
    let mut m = ScreenMultiplexer::new(500, (800, 600));
    m.event(moved(100, 100));
    assert!(m.left_focus);
    m.event(WindowEvent::MouseInput { pressed: true });
    // Dragging across the partition boundary: focus must not move.
    let (l, r) = m.event(moved(600, 300));
    assert_eq!(l, Some(moved(600, 300)));
    assert_eq!(r, None);
    assert!(m.left_focus);
    // The drag still updates the focused side's cursor, in window coordinates.
    assert_eq!(m.cursors().0, (600, 300));
    // After release, the next move retargets focus.
    m.event(WindowEvent::MouseInput { pressed: false });
    let (l, r) = m.event(moved(600, 300));
    assert_eq!(l, None);
    assert_eq!(r, Some(moved(600, 300)));
    assert!(!m.left_focus);
}

#[test]
fn end_to_end_split_and_focus() {
    let mut m = ScreenMultiplexer::new(500, (800, 600));
    let (left, right) = m.areas();
    assert_eq!((left.position, left.size), ((0, 0), (500, 600)));
    assert_eq!((right.position, right.size), ((500, 0), (300, 600)));

    m.event(moved(100, 100));
    assert!(m.left_focus);
    assert_eq!(m.cursors().0, (100, 100));

    m.event(moved(600, 300));
    assert!(!m.left_focus);
    // Stored locally to the right partition: offset (500, 0) subtracted.
    assert_eq!(m.cursors().1, (100, 300));
}

#[test]
fn zero_move_is_ignored() {
    let mut m = ScreenMultiplexer::new(500, (800, 600));
    m.event(moved(600, 300));
    assert!(!m.left_focus);
    let before_cursors = m.cursors();
    // A (0, 0) move is treated as spurious: no focus change, no cursor update.
    let (l, r) = m.event(moved(0, 0));
    assert!(!m.left_focus);
    assert_eq!(m.cursors(), before_cursors);
    assert_eq!(l, None);
    assert_eq!(r, Some(moved(0, 0)));
}

#[test]
fn boundary_column_is_inside_left() {
    let mut m = ScreenMultiplexer::new(500, (800, 600));
    m.event(moved(600, 300));
    assert!(!m.left_focus);
    // The left area's far edge is inclusive: x == partition focuses left.
    m.event(moved(500, 10));
    assert!(m.left_focus);
    assert_eq!(m.cursors().0, (500, 10));
}

#[test]
fn negative_coordinate_clamps_to_window_edge() {
    let mut m = ScreenMultiplexer::new(500, (800, 600));
    m.event(moved(600, 300));
    assert!(!m.left_focus);
    // y > 0 passes the guard; x below zero clamps to the left edge.
    m.event(moved(-5, 10));
    assert!(m.left_focus);
    assert_eq!(m.cursors().0, (-5, 10));
}

#[test]
fn modifiers_update_and_route_by_focus() {
    let mut m = ScreenMultiplexer::new(500, (800, 600));
    let mods = Modifiers { shift: true, ctrl: false, alt: true, logo: false };
    let (l, r) = m.event(WindowEvent::ModifiersChanged { modifiers: mods });
    assert_eq!(m.modifiers(), mods);
    assert_eq!(l, Some(WindowEvent::ModifiersChanged { modifiers: mods }));
    assert_eq!(r, None);
    // A modifier change does not move focus.
    assert!(m.left_focus);
}

#[test]
fn resize_updates_areas_on_next_query() {
    let mut m = ScreenMultiplexer::new(500, (800, 600));
    m.event(WindowEvent::Resized { width: 1000, height: 700 });
    let (left, right) = m.areas();
    assert_eq!(left.size, (500, 700));
    assert_eq!(right.position, (500, 0));
    assert_eq!(right.size, (500, 700));
}

#[test]
fn other_events_route_without_state_change() {
    let mut m = ScreenMultiplexer::new(500, (800, 600));
    m.event(moved(600, 300));
    let before = m;
    let (l, r) = m.event(WindowEvent::Other);
    assert_eq!(m, before);
    assert_eq!(l, None);
    assert_eq!(r, Some(WindowEvent::Other));
}
