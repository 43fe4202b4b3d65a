//! Placement logic of the recording overlay that works on whole pixels:
//! which monitor holds the cursor.
use vstd::prelude::*;

verus! {

/// A monitor's top-left corner and size, in physical pixels.
#[derive(Clone, Copy, Debug, PartialEq, Eq, Structural)]
pub struct MonitorRect {
    pub x: i32,
    pub y: i32,
    pub width: u32,
    pub height: u32,
}

/// Whether a point lies on a monitor: the left and top edges belong to it,
/// the right and bottom edges do not.
pub open spec fn point_within(px: int, py: int, m: MonitorRect) -> bool {
    px >= m.x && px < m.x + m.width && py >= m.y && py < m.y + m.height
}

/// Whether the cursor position `(mouse_x, mouse_y)` lies on the monitor.
pub fn is_mouse_within_monitor(mouse_x: i32, mouse_y: i32, monitor: &MonitorRect) -> (r: bool)
    ensures
        r == point_within(mouse_x as int, mouse_y as int, *monitor),
{
    let mx = mouse_x as i64;
    let my = mouse_y as i64;
    mx >= monitor.x as i64 && mx < monitor.x as i64 + monitor.width as i64 && my >= monitor.y as i64
        && my < monitor.y as i64 + monitor.height as i64
}

/// Whether a known cursor position lies on the monitor.
pub open spec fn cursor_on(cursor: Option<(i32, i32)>, m: MonitorRect) -> bool {
    match cursor {
        Some((x, y)) => point_within(x as int, y as int, m),
        None => false,
    }
}

/// The index of the first monitor the cursor lies on. `None` when the
/// cursor position is unknown or on no monitor; the caller then falls back to
/// the primary monitor.
pub fn monitor_with_cursor(cursor: Option<(i32, i32)>, monitors: &Vec<MonitorRect>) -> (r: Option<usize>)
    ensures
        match r {
            Some(i) => i < monitors@.len() && cursor_on(cursor, monitors@[i as int]) && forall|j: int|
                0 <= j < i ==> !cursor_on(cursor, #[trigger] monitors@[j]),
            None => forall|j: int| 0 <= j < monitors@.len() ==> !cursor_on(cursor, #[trigger] monitors@[j]),
        },
{
    let (mx, my) = match cursor {
        Some(p) => p,
        None => return None,
    };
    let n = monitors.len();
    let mut i: usize = 0;
    while i < n
        invariant
            n == monitors@.len(),
            i <= n,
            cursor == Some((mx, my)),
            forall|j: int| 0 <= j < i ==> !point_within(mx as int, my as int, #[trigger] monitors@[j]),
        decreases n - i,
    {
        if is_mouse_within_monitor(mx, my, &monitors[i]) {
            return Some(i);
        }
        i = i + 1;
    }
    None
}

} // verus!
