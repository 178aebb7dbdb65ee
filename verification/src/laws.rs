//! Laws of the interaction protocol, stated over the widgets' transition
//! functions: mouse-capture mutual exclusion across a whole widget tree and
//! arbitrary event streams, the shapes of completed and abandoned clicks,
//! capture contention, layout idempotence, and what may touch a textbox's
//! text buffer.

use vstd::prelude::*;
use crate::button::button_step;
use crate::button::ButtonModel;
use crate::component::Component;
use crate::context::Context;
use crate::geom::Point;
use crate::geom::Rect;
use crate::input::Event;
use crate::input::MouseButton;
use crate::textbox::textbox_step;
use crate::textbox::TextboxModel;
use crate::button::Button;
use crate::textbox::Textbox;

verus! {

/// The state of one widget in a tree, for reasoning about a whole tree at
/// once.
pub enum WidgetModel {
    Button(ButtonModel),
    Textbox(TextboxModel),
}

/// Whether the widget is tracking an in-progress press.
pub open spec fn widget_tracking(w: WidgetModel) -> bool {
    match w {
        WidgetModel::Button(b) => b.down,
        WidgetModel::Textbox(_) => false,
    }
}

/// One widget's transition on one event.
pub open spec fn widget_step(w: WidgetModel, event: Event, context: Context) -> (
    WidgetModel,
    Context,
    bool,
) {
    match w {
        WidgetModel::Button(b) => {
            let (b2, c2, activated) = button_step(b, event, context);
            (WidgetModel::Button(b2), c2, activated)
        },
        WidgetModel::Textbox(t) => {
            let (t2, c2, activated) = textbox_step(t, event, context);
            (WidgetModel::Textbox(t2), c2, activated)
        },
    }
}

/// The capture invariant of a widget tree sharing one context: at most one
/// widget is tracking a press, and the shared capture flag is set exactly
/// when one is.
pub open spec fn capture_consistent(ws: Seq<WidgetModel>, c: Context) -> bool {
    &&& forall|i: int, j: int|
        0 <= i < ws.len() && 0 <= j < ws.len() && #[trigger] widget_tracking(ws[i])
            && #[trigger] widget_tracking(ws[j]) ==> i == j
    &&& (c.mouse_captured <==> exists|i: int|
        0 <= i < ws.len() && #[trigger] widget_tracking(ws[i]))
}

/// Deliver one event to the widget at index `i`, as a host loop does; an
/// index outside the tree delivers to nobody.
pub open spec fn dispatch(ws: Seq<WidgetModel>, c: Context, i: int, event: Event) -> (
    Seq<WidgetModel>,
    Context,
) {
    if 0 <= i < ws.len() {
        let (w2, c2, activated) = widget_step(ws[i], event, c);
        (ws.update(i, w2), c2)
    } else {
        (ws, c)
    }
}

/// Deliver a stream of events, each to the widget its entry names, one at a
/// time and in order.
pub open spec fn dispatch_all(
    ws: Seq<WidgetModel>,
    c: Context,
    events: Seq<(int, Event)>,
) -> (Seq<WidgetModel>, Context)
    decreases events.len(),
{
    if events.len() == 0 {
        (ws, c)
    } else {
        let (ws2, c2) = dispatch(ws, c, events[0].0, events[0].1);
        dispatch_all(ws2, c2, events.drop_first())
    }
}

/// A freshly built tree is consistent: no widget tracks a press and the
/// capture flag is clear, as after `Context::new`.
pub proof fn lemma_fresh_tree_is_consistent(ws: Seq<WidgetModel>, c: Context)
    requires
        forall|i: int| 0 <= i < ws.len() ==> !(#[trigger] widget_tracking(ws[i])),
        !c.mouse_captured,
    ensures
        capture_consistent(ws, c),
{
}

/// Delivering one event to one widget preserves the capture invariant: no
/// event can make a second widget start tracking while one already does,
/// and the capture flag keeps recording exactly whether some widget tracks.
pub proof fn lemma_dispatch_preserves_capture_consistency(
    ws: Seq<WidgetModel>,
    c: Context,
    i: int,
    event: Event,
)
    requires
        capture_consistent(ws, c),
    ensures
        capture_consistent(dispatch(ws, c, i, event).0, dispatch(ws, c, i, event).1),
{
    if 0 <= i < ws.len() {
        let (w2, c2, activated) = widget_step(ws[i], event, c);
        let ws2 = ws.update(i, w2);
        assert forall|a: int, b: int|
            0 <= a < ws2.len() && 0 <= b < ws2.len() && #[trigger] widget_tracking(ws2[a])
                && #[trigger] widget_tracking(ws2[b]) implies a == b by {
            if widget_tracking(w2) && !widget_tracking(ws[i]) {
                assert(!c.mouse_captured);
                assert(a == i && b == i);
            } else {
                assert(widget_tracking(ws[a]) && widget_tracking(ws[b]));
            }
        }
        if c2.mouse_captured {
            if widget_tracking(w2) {
                assert(widget_tracking(ws2[i]));
            } else {
                assert(c.mouse_captured);
                let k = choose|k: int| 0 <= k < ws.len() && #[trigger] widget_tracking(ws[k]);
                assert(k != i);
                assert(widget_tracking(ws2[k]));
            }
        } else {
            assert forall|k: int| 0 <= k < ws2.len() implies !(#[trigger] widget_tracking(
                ws2[k],
            )) by {
                if k != i {
                    if widget_tracking(ws[k]) {
                        assert(c.mouse_captured);
                        assert(widget_tracking(ws[i]) ==> k == i);
                    }
                }
            }
        }
    }
}

/// Mutual exclusion over a whole event stream: from a consistent start, any
/// sequence of events, delivered to any widgets, leaves the tree with at
/// most one tracked press and the capture flag set exactly when one exists.
pub proof fn lemma_event_stream_keeps_capture_consistency(
    ws: Seq<WidgetModel>,
    c: Context,
    events: Seq<(int, Event)>,
)
    requires
        capture_consistent(ws, c),
    ensures
        capture_consistent(
            dispatch_all(ws, c, events).0,
            dispatch_all(ws, c, events).1,
        ),
    decreases events.len(),
{
    if events.len() > 0 {
        lemma_dispatch_preserves_capture_consistency(ws, c, events[0].0, events[0].1);
        let (ws2, c2) = dispatch(ws, c, events[0].0, events[0].1);
        lemma_event_stream_keeps_capture_consistency(ws2, c2, events.drop_first());
    }
}

/// Once every press is released, the capture flag cannot be left dangling:
/// in a consistent tree with no widget tracking, the flag is clear.
pub proof fn lemma_all_released_means_uncaptured(ws: Seq<WidgetModel>, c: Context)
    requires
        capture_consistent(ws, c),
        forall|i: int| 0 <= i < ws.len() ==> !(#[trigger] widget_tracking(ws[i])),
    ensures
        !c.mouse_captured,
{
}

/// A completed click: from an idle button with the capture free and the
/// cursor inside its rectangle, a left mouse-down reports no activation but
/// begins tracking, and a left mouse-up with the cursor still inside —
/// wherever it went in between — reports the activation, ends tracking, and
/// leaves the capture free.
pub proof fn lemma_click_completion(b: ButtonModel, c0: Context, release_cursor: Point)
    requires
        !b.down,
        !c0.mouse_captured,
        b.rect.spec_contains(c0.cursor),
        b.rect.spec_contains(release_cursor),
    ensures
        ({
            let (b1, c1, first) = button_step(b, Event::MouseDown(MouseButton::Left), c0);
            let (b2, c2, second) = button_step(
                b1,
                Event::MouseUp(MouseButton::Left),
                Context { cursor: release_cursor, ..c1 },
            );
            &&& !first
            &&& b1.down
            &&& c1.mouse_captured
            &&& second
            &&& !b2.down
            &&& !c2.mouse_captured
        }),
{
}

/// A drag-out: a press begun inside the rectangle, with the cursor moved
/// outside before release, ends with no activation, the hover flag clear,
/// tracking ended and the capture released.
pub proof fn lemma_drag_out_click(b: ButtonModel, c0: Context, outside: Point)
    requires
        !b.down,
        !c0.mouse_captured,
        b.rect.spec_contains(c0.cursor),
        !b.rect.spec_contains(outside),
    ensures
        ({
            let (b1, c1, first) = button_step(b, Event::MouseDown(MouseButton::Left), c0);
            let moved = Context { cursor: outside, ..c1 };
            let (b2, c2, second) = button_step(b1, Event::MouseMove, moved);
            let (b3, c3, third) = button_step(b2, Event::MouseUp(MouseButton::Left), c2);
            &&& !first
            &&& !second
            &&& !third
            &&& !b2.hover
            &&& !b3.down
            &&& !c3.mouse_captured
        }),
{
}

/// Capture contention: while one widget holds the capture, a left
/// mouse-down inside another button's rectangle changes nothing there, and
/// a later left mouse-up at that button — wherever the cursor is — reports
/// no activation and still changes nothing.
pub proof fn lemma_capture_contention(b: ButtonModel, c: Context, up_cursor: Point)
    requires
        !b.down,
        c.mouse_captured,
        b.rect.spec_contains(c.cursor),
    ensures
        ({
            let (b1, c1, first) = button_step(b, Event::MouseDown(MouseButton::Left), c);
            let (b2, c2, second) = button_step(
                b1,
                Event::MouseUp(MouseButton::Left),
                Context { cursor: up_cursor, ..c1 },
            );
            &&& b1 == b
            &&& c1 == c
            &&& !first
            &&& b2 == b
            &&& !second
            &&& c2 == (Context { cursor: up_cursor, ..c })
        }),
{
}

/// Layout is idempotent for buttons: assigning the same rectangle twice
/// leaves exactly the state one assignment leaves.
pub proof fn lemma_button_layout_idempotent(v: ButtonModel, rect: Rect)
    ensures
        <Button as Component>::placed(<Button as Component>::placed(v, rect), rect)
            == <Button as Component>::placed(v, rect),
        <Button as Component>::area(<Button as Component>::placed(v, rect)) == rect,
{
}

/// Layout is idempotent for textboxes: assigning the same rectangle twice
/// leaves exactly the state one assignment leaves.
pub proof fn lemma_textbox_layout_idempotent(v: TextboxModel, rect: Rect)
    ensures
        <Textbox as Component>::placed(<Textbox as Component>::placed(v, rect), rect)
            == <Textbox as Component>::placed(v, rect),
        <Textbox as Component>::area(<Textbox as Component>::placed(v, rect)) == rect,
{
}

/// Only a character event touches a textbox's text buffer: a `Char`
/// appends exactly its code point, every other event leaves the whole
/// textbox unchanged, and no event writes the shared context.
pub proof fn lemma_text_changes_only_on_char(t: TextboxModel, event: Event, c: Context)
    ensures
        event matches Event::Char(ch) ==> textbox_step(t, event, c).0 == (TextboxModel {
            text: t.text.push(ch),
            ..t
        }),
        !(event matches Event::Char(_)) ==> textbox_step(t, event, c).0 == t,
        textbox_step(t, event, c).1 == c,
        !textbox_step(t, event, c).2,
{
}

} // verus!
