//! The per-tree interaction context: the mutable state every widget shares
//! during one event-dispatch pass.

use vstd::prelude::*;
use crate::geom::Point;
use crate::input::Modifiers;

verus! {

/// Shared interaction state, owned by the host loop and passed by exclusive
/// reference into every `handle` call.
///
/// `mouse_captured` records whether some widget is tracking an in-progress
/// press. At most one widget may hold the capture at a time: a widget may
/// only set the flag after observing it false, and must clear it when its
/// own press tracking ends.
#[derive(Copy, Clone, PartialEq, Eq, Structural, Debug)]
pub struct Context {
    /// Last observed absolute cursor position.
    pub cursor: Point,
    /// Modifier keys currently held.
    pub modifiers: Modifiers,
    /// Whether some widget currently holds exclusive mouse capture.
    pub mouse_captured: bool,
}

impl Context {
    /// The state before any input arrived: the cursor parked at an
    /// out-of-bounds sentinel, no modifiers held, capture free.
    pub fn new() -> (c: Context)
        ensures
            c.cursor == (Point { x: -1i32, y: -1i32 }),
            c.modifiers == (Modifiers { shift: false, ctrl: false, alt: false, meta: false }),
            !c.mouse_captured,
    {
        Context {
            cursor: Point { x: -1, y: -1 },
            modifiers: Modifiers { shift: false, ctrl: false, alt: false, meta: false },
            mouse_captured: false,
        }
    }
}

} // verus!
