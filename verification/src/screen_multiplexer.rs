use vstd::prelude::*;

verus! {

/// Keyboard modifier state, tracked globally: the window system reports one
/// modifier state for the whole window, not one per partition.
#[derive(Clone, Copy, Debug, PartialEq, Eq)]
pub struct Modifiers {
    pub shift: bool,
    pub ctrl: bool,
    pub alt: bool,
    pub logo: bool,
}

impl Default for Modifiers {
    fn default() -> (m: Modifiers)
        ensures
            m == (Modifiers { shift: false, ctrl: false, alt: false, logo: false }),
    {
        Modifiers { shift: false, ctrl: false, alt: false, logo: false }
    }
}

/// A rectangular sub-region of the window: position of its top-left corner
/// and its size, both in pixels.
#[derive(Clone, Copy, Debug, PartialEq, Eq)]
pub struct DrawArea {
    pub position: (u32, u32),
    pub size: (u32, u32),
}

impl DrawArea {
    /// Containment, inclusive on all four edges.  The far edges being
    /// inclusive means the boundary pixel column between two adjacent areas
    /// counts as inside both; that off-by-one is kept deliberately.
    pub open spec fn contains_spec(self, x: u32, y: u32) -> bool {
        &&& x >= self.position.0
        &&& y >= self.position.1
        &&& x <= self.position.0 + self.size.0
        &&& y <= self.position.1 + self.size.1
    }

    fn inside(&self, x: u32, y: u32) -> (r: bool)
        ensures
            r == self.contains_spec(x, y),
    {
        x >= self.position.0
            && y >= self.position.1
            && x as u64 <= self.position.0 as u64 + self.size.0 as u64
            && y as u64 <= self.position.1 as u64 + self.size.1 as u64
    }
}

/// Per-partition input state: the last cursor position stored for the
/// partition, with `(-1, -1)` as the "no cursor seen yet" sentinel.
#[derive(Clone, Copy, Debug, PartialEq, Eq)]
pub struct Side {
    pub cursor_position: (i64, i64),
}

impl Default for Side {
    fn default() -> (s: Side)
        ensures
            s == (Side { cursor_position: (-1i64, -1i64) }),
    {
        Side { cursor_position: (-1i64, -1i64) }
    }
}

/// A window event, carried as plain values.  Cursor coordinates are whole
/// window-relative pixels; `MouseInput` stands for the left mouse button
/// alone, the only button the multiplexer reacts to — the host maps every
/// other event it does not translate to `Other`, which is routed but
/// changes no state.
#[derive(Clone, Copy, Debug, PartialEq, Eq)]
pub enum WindowEvent {
    CursorMoved { x: i64, y: i64 },
    ModifiersChanged { modifiers: Modifiers },
    Resized { width: u32, height: u32 },
    MouseInput { pressed: bool },
    Other,
}

/// How a window coordinate is narrowed to `u32` for the containment test:
/// coordinates below zero come out as zero, and ones beyond `u32::MAX`
/// saturate.
pub open spec fn clamp_to_u32(v: i64) -> u32 {
    if v < 0 {
        0
    } else if v > u32::MAX {
        u32::MAX
    } else {
        v as u32
    }
}

fn clamp_coord(v: i64) -> (r: u32)
    ensures
        r == clamp_to_u32(v),
{
    if v < 0 {
        0
    } else if v > u32::MAX as i64 {
        u32::MAX
    } else {
        v as u32
    }
}

/// Splits the window into a left and a right partition at a fixed pixel
/// offset and routes every input event to exactly one of the two, the one
/// holding the cursor focus.
#[derive(Clone, Copy, Debug, PartialEq, Eq)]
pub struct ScreenMultiplexer {
    pub modifiers: Modifiers,
    pub window_size: (u32, u32),
    pub left_focus: bool,
    pub mouse_clicked: bool,
    pub partition: u32,
    pub left: Side,
    pub right: Side,
}

impl ScreenMultiplexer {
    /// The partition offset must not pass the window's right edge:
    /// computing the right area's width subtracts it from the window width.
    pub open spec fn wf(self) -> bool {
        self.partition <= self.window_size.0
    }

    /// The left partition: from the window's left edge up to the partition
    /// offset, full window height.
    pub open spec fn left_area_spec(self) -> DrawArea {
        DrawArea { position: (0u32, 0u32), size: (self.partition, self.window_size.1) }
    }

    /// The right partition: the remaining width, full window height.
    pub open spec fn right_area_spec(self) -> DrawArea {
        DrawArea {
            position: (self.partition, 0u32),
            size: ((self.window_size.0 - self.partition) as u32, self.window_size.1),
        }
    }

    /// The state after one event.
    ///
    /// A cursor move with some strictly positive coordinate (a guard
    /// against spurious `(0, 0)` moves the window system injects) first
    /// re-evaluates focus — unless the mouse button is held, which freezes
    /// focus for the length of the drag — and then stores the position into
    /// the focused side, translated to partition-local coordinates for the
    /// right side.  Modifier changes, resizes and button transitions update
    /// their one field; everything else leaves the state alone.
    pub open spec fn step_spec(self, event: WindowEvent) -> ScreenMultiplexer {
        match event {
            WindowEvent::CursorMoved { x, y } => {
                if x > 0 || y > 0 {
                    let focus = if self.mouse_clicked {
                        self.left_focus
                    } else {
                        self.left_area_spec().contains_spec(clamp_to_u32(x), clamp_to_u32(y))
                    };
                    if focus {
                        ScreenMultiplexer {
                            left_focus: true,
                            left: Side { cursor_position: (x, y) },
                            ..self
                        }
                    } else {
                        ScreenMultiplexer {
                            left_focus: false,
                            right: Side { cursor_position: ((x - self.partition) as i64, y) },
                            ..self
                        }
                    }
                } else {
                    self
                }
            },
            WindowEvent::ModifiersChanged { modifiers } => ScreenMultiplexer {
                modifiers: modifiers,
                ..self
            },
            WindowEvent::Resized { width, height } => ScreenMultiplexer {
                window_size: (width, height),
                ..self
            },
            WindowEvent::MouseInput { pressed } => ScreenMultiplexer {
                mouse_clicked: pressed,
                ..self
            },
            WindowEvent::Other => self,
        }
    }

    /// How one event is routed once handled: the focused side receives it,
    /// the other side receives nothing.
    pub open spec fn route_spec(self, event: WindowEvent) -> (Option<WindowEvent>, Option<
        WindowEvent,
    >) {
        if self.step_spec(event).left_focus {
            (Some(event), None)
        } else {
            (None, Some(event))
        }
    }

    /// A fresh multiplexer: left side focused, button up, no cursor seen on
    /// either side yet.  `partition` is the width of the left side in
    /// pixels.
    pub fn new(partition: u32, initial_size: (u32, u32)) -> (s: ScreenMultiplexer)
        ensures
            s == (ScreenMultiplexer {
                modifiers: Modifiers { shift: false, ctrl: false, alt: false, logo: false },
                window_size: initial_size,
                left_focus: true,
                mouse_clicked: false,
                partition: partition,
                left: Side { cursor_position: (-1i64, -1i64) },
                right: Side { cursor_position: (-1i64, -1i64) },
            }),
    {
        ScreenMultiplexer {
            partition,
            modifiers: Default::default(),
            window_size: initial_size,
            left_focus: true,
            mouse_clicked: false,
            left: Default::default(),
            right: Default::default(),
        }
    }

    /// The viewports of the left and right partitions, recomputed from the
    /// window size tracked at the last resize: together they tile the
    /// window.
    pub fn areas(&self) -> (r: (DrawArea, DrawArea))
        requires
            self.wf(),
        ensures
            r == (self.left_area_spec(), self.right_area_spec()),
    {
        (
            DrawArea { position: (0, 0), size: (self.partition, self.window_size.1) },
            DrawArea {
                position: (self.partition, 0),
                size: (self.window_size.0 - self.partition, self.window_size.1),
            },
        )
    }

    /// The last cursor position stored for each partition; the right side's
    /// is in partition-local coordinates.
    pub fn cursors(&self) -> (r: ((i64, i64), (i64, i64)))
        ensures
            r == (self.left.cursor_position, self.right.cursor_position),
    {
        (self.left.cursor_position, self.right.cursor_position)
    }

    /// The modifier state as of the last modifier-change event.
    pub fn modifiers(&self) -> (m: Modifiers)
        ensures
            m == self.modifiers,
    {
        self.modifiers
    }

    /// Handles one event and doles it out: the state advances by
    /// `step_spec`, and exactly one side — the focused one — receives the
    /// event.
    ///
    /// A cursor move evaluates the partition areas, so the multiplexer must
    /// be well formed then; the coordinate bound keeps the right side's
    /// partition-local translation inside `i64`.
    pub fn event(&mut self, event: WindowEvent) -> (r: (
        Option<WindowEvent>,
        Option<WindowEvent>,
    ))
        requires
            event matches WindowEvent::CursorMoved { x, .. } ==> old(self).wf() && x
                >= -0x1_0000_0000,
        ensures
            *final(self) == old(self).step_spec(event),
            r == old(self).route_spec(event),
    {
        match &event {
            WindowEvent::CursorMoved { x, y } => {
                let x = *x;
                let y = *y;
                if x > 0 || y > 0 {
                    let (left_area, right_area) = self.areas();
                    if !self.mouse_clicked {
                        self.left_focus = left_area.inside(clamp_coord(x), clamp_coord(y));
                    }
                    if self.left_focus {
                        self.left.cursor_position = (x, y);
                    } else {
                        self.right.cursor_position = (
                            x - right_area.position.0 as i64,
                            y - right_area.position.1 as i64,
                        );
                    }
                }
            },
            WindowEvent::ModifiersChanged { modifiers } => {
                self.modifiers = *modifiers;
            },
            WindowEvent::Resized { width, height } => {
                self.window_size = (*width, *height);
            },
            WindowEvent::MouseInput { pressed } => {
                self.mouse_clicked = *pressed;
            },
            WindowEvent::Other => {},
        }
        if self.left_focus {
            (Some(event), None)
        } else {
            (None, Some(event))
        }
    }
}

/// The state after a whole sequence of events, applied left to right.
pub open spec fn run_spec(m: ScreenMultiplexer, events: Seq<WindowEvent>) -> ScreenMultiplexer
    decreases events.len(),
{
    if events.len() == 0 {
        m
    } else {
        run_spec(m, events.drop_last()).step_spec(events.last())
    }
}

/// Whether an event is a cursor move.
pub open spec fn is_cursor_move(event: WindowEvent) -> bool {
    event is CursorMoved
}

/// Whether an event is a cursor move that passes the positive-coordinate
/// guard, so that it is not discarded as a spurious `(0, 0)` move.
pub open spec fn is_positive_move(event: WindowEvent) -> bool {
    event matches WindowEvent::CursorMoved { x, y } && (x > 0 || y > 0)
}

/// The coordinates of the most recent positive-coordinate cursor move of a
/// sequence, if it has one.
pub open spec fn last_positive_move(events: Seq<WindowEvent>) -> Option<(i64, i64)>
    decreases events.len(),
{
    if events.len() == 0 {
        None
    } else if is_positive_move(events.last()) {
        Some((events.last()->x, events.last()->y))
    } else {
        last_positive_move(events.drop_last())
    }
}

/// Cursor moves touch only focus and the stored cursor positions: the
/// partition offset, the window size and the button state ride through a
/// run of them unchanged.
proof fn lemma_moves_preserve_config(m: ScreenMultiplexer, events: Seq<WindowEvent>)
    requires
        forall|k: int| 0 <= k < events.len() ==> is_cursor_move(#[trigger] events[k]),
    ensures
        run_spec(m, events).partition == m.partition,
        run_spec(m, events).window_size == m.window_size,
        run_spec(m, events).mouse_clicked == m.mouse_clicked,
    decreases events.len(),
{
    if events.len() > 0 {
        let prefix = events.drop_last();
        assert(forall|k: int| 0 <= k < prefix.len() ==> #[trigger] prefix[k] == events[k]);
        lemma_moves_preserve_config(m, prefix);
    }
}

/// Law: while the mouse button is released, focus follows the cursor.
/// After any run of cursor moves, the left side holds focus exactly when
/// the most recent move that passed the positive-coordinate guard fell
/// inside the left area (inclusive bounds); a run with no such move leaves
/// focus where it was.
pub proof fn lemma_focus_follows_last_positive_move(
    m: ScreenMultiplexer,
    events: Seq<WindowEvent>,
)
    requires
        !m.mouse_clicked,
        forall|k: int| 0 <= k < events.len() ==> is_cursor_move(#[trigger] events[k]),
    ensures
        run_spec(m, events).left_focus == (match last_positive_move(events) {
            Some(p) => m.left_area_spec().contains_spec(clamp_to_u32(p.0), clamp_to_u32(p.1)),
            None => m.left_focus,
        }),
    decreases events.len(),
{
    if events.len() > 0 {
        let prefix = events.drop_last();
        assert(forall|k: int| 0 <= k < prefix.len() ==> #[trigger] prefix[k] == events[k]);
        lemma_focus_follows_last_positive_move(m, prefix);
        lemma_moves_preserve_config(m, prefix);
        assert(run_spec(m, prefix).left_area_spec() == m.left_area_spec());
    }
}

/// Law: the drag lock.  While the mouse button is held, no run of cursor
/// moves changes which side holds focus, wherever the cursor goes.
pub proof fn lemma_drag_lock_holds_focus(m: ScreenMultiplexer, events: Seq<WindowEvent>)
    requires
        m.mouse_clicked,
        forall|k: int| 0 <= k < events.len() ==> is_cursor_move(#[trigger] events[k]),
    ensures
        run_spec(m, events).left_focus == m.left_focus,
    decreases events.len(),
{
    if events.len() > 0 {
        let prefix = events.drop_last();
        assert(forall|k: int| 0 <= k < prefix.len() ==> #[trigger] prefix[k] == events[k]);
        lemma_drag_lock_holds_focus(m, prefix);
        lemma_moves_preserve_config(m, prefix);
    }
}

/// Law: once a press of the left mouse button is delivered, the cursor
/// moves that follow leave focus exactly where the press found it, until a
/// release arrives.
pub proof fn lemma_press_freezes_focus(m: ScreenMultiplexer, events: Seq<WindowEvent>)
    requires
        forall|k: int| 0 <= k < events.len() ==> is_cursor_move(#[trigger] events[k]),
    ensures
        run_spec(m.step_spec(WindowEvent::MouseInput { pressed: true }), events).left_focus
            == m.left_focus,
{
    let pressed = m.step_spec(WindowEvent::MouseInput { pressed: true });
    lemma_drag_lock_holds_focus(pressed, events);
}

/// Law: every event is routed to exactly one side, unchanged — never
/// duplicated, never dropped.  The side that receives it is the one left
/// holding focus once the event is handled.
pub proof fn lemma_event_routed_to_exactly_one_side(m: ScreenMultiplexer, event: WindowEvent)
    ensures
        m.route_spec(event).0 is Some <==> !(m.route_spec(event).1 is Some),
        m.route_spec(event).0 is Some <==> m.step_spec(event).left_focus,
        m.route_spec(event).0 is Some ==> m.route_spec(event).0 == Some(event),
        m.route_spec(event).1 is Some ==> m.route_spec(event).1 == Some(event),
{
}

/// Law: for any partition offset strictly inside the window, the two areas
/// tile the window exactly — their widths sum to the window width, both
/// span the full window height, and the right area starts where the left
/// one ends.
pub proof fn lemma_areas_partition_window(m: ScreenMultiplexer)
    requires
        0 < m.partition < m.window_size.0,
    ensures
        m.left_area_spec().size.0 + m.right_area_spec().size.0 == m.window_size.0,
        m.left_area_spec().size.1 == m.window_size.1,
        m.right_area_spec().size.1 == m.window_size.1,
        m.left_area_spec().position == (0u32, 0u32),
        m.right_area_spec().position.0 == m.left_area_spec().size.0,
        m.right_area_spec().position.1 == 0,
{
}

} // verus!
