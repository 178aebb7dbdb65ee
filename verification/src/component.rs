//! The component contract: the capability set every widget implements.
//!
//! A widget exposes three operations — `layout`, `render`, `handle` — whose
//! behaviour is pinned down by per-widget transition functions (`placed`,
//! `step`, `drawn`) over the widget's mathematical view. On top of those,
//! the contract binds every implementation to the mouse-capture discipline:
//! a widget may begin tracking a press only on a left mouse-down, with the
//! capture flag free and the cursor inside its rectangle; it must clear the
//! flag whenever its tracking ends; and it may report an activation only
//! when a left mouse-up ends tracking with the cursor still inside.

use vstd::prelude::*;
use crate::context::Context;
use crate::draw::DrawCmdModel;
use crate::draw::Frame;
use crate::geom::Rect;
use crate::input::Event;
use crate::input::MouseButton;

verus! {

pub trait Component: View + Sized {
    /// The rectangle the widget last stored from `layout`.
    spec fn area(v: Self::V) -> Rect;

    /// Whether the widget is tracking an in-progress press, which is
    /// exactly when it holds the shared mouse capture.
    spec fn tracking(v: Self::V) -> bool;

    /// The widget state after `layout` assigns `rect`.
    spec fn placed(v: Self::V, rect: Rect) -> Self::V;

    /// The widget state, shared context and activation report after
    /// `handle` consumes one event.
    spec fn step(v: Self::V, event: Event, context: Context) -> (Self::V, Context, bool);

    /// The drawing commands one `render` call appends.
    spec fn drawn(v: Self::V) -> Seq<DrawCmdModel>;

    /// Store the rectangle the parent allocates and report the rectangle
    /// actually occupied. Assigning the same rectangle twice leaves the
    /// same state as assigning it once.
    fn layout(&mut self, rect: Rect) -> (assigned: Rect)
        ensures
            final(self)@ == Self::placed(old(self)@, rect),
            assigned == Self::area(Self::placed(old(self)@, rect)),
            Self::placed(Self::placed(old(self)@, rect), rect) == Self::placed(old(self)@, rect),
    ;

    /// Append this widget's current appearance to the frame. Rendering
    /// reads the widget only: equal states append equal commands.
    fn render(&self, frame: &mut Frame)
        ensures
            final(frame)@ == old(frame)@ + Self::drawn(self@),
    ;

    /// Consume one event; the result is pinned by `step`. The caller keeps
    /// the protocol invariant that a tracking widget holds the capture.
    ///
    /// Every implementation also proves the capture discipline: tracking
    /// begins only on a left mouse-down with capture free and the cursor
    /// inside the widget's rectangle, and then takes the capture; tracking
    /// ends only on a left mouse-up and releases the capture; the capture
    /// flag moves only with the widget's own tracking; cursor and modifier
    /// state are never written; and an activation is reported only when
    /// tracking ends with the cursor still inside.
    fn handle(&mut self, event: Event, context: &mut Context) -> (activated: bool)
        requires
            Self::tracking(old(self)@) ==> old(context).mouse_captured,
        ensures
            (final(self)@, *final(context), activated) == Self::step(
                old(self)@,
                event,
                *old(context),
            ),
            final(context).cursor == old(context).cursor,
            final(context).modifiers == old(context).modifiers,
            Self::area(final(self)@) == Self::area(old(self)@),
            !Self::tracking(old(self)@) && Self::tracking(final(self)@) ==> {
                &&& event == Event::MouseDown(MouseButton::Left)
                &&& !old(context).mouse_captured
                &&& Self::area(old(self)@).spec_contains(old(context).cursor)
                &&& final(context).mouse_captured
            },
            Self::tracking(old(self)@) && !Self::tracking(final(self)@) ==> {
                &&& event == Event::MouseUp(MouseButton::Left)
                &&& !final(context).mouse_captured
            },
            Self::tracking(final(self)@) == Self::tracking(old(self)@)
                ==> final(context).mouse_captured == old(context).mouse_captured,
            activated ==> {
                &&& Self::tracking(old(self)@)
                &&& !Self::tracking(final(self)@)
                &&& Self::area(old(self)@).spec_contains(old(context).cursor)
            },
    ;
}

} // verus!
