//! A push button: a visual state machine over idle, hover and down,
//! rendered as a filled background with a vector icon on top.

use vstd::prelude::*;
use crate::component::Component;
use crate::context::Context;
use crate::draw::Color;
use crate::draw::DrawCmdModel;
use crate::draw::Frame;
use crate::draw::Mat2x2;
use crate::draw::Path;
use crate::draw::PathCmd;
use crate::geom::Point;
use crate::geom::Rect;
use crate::input::Event;
use crate::input::MouseButton;

verus! {

/// The mathematical view of a button.
pub struct ButtonModel {
    /// The rectangle last assigned by layout.
    pub rect: Rect,
    /// The icon drawn on top of the background, relative to the rectangle's
    /// origin.
    pub icon: Seq<PathCmd>,
    /// Whether the last observed cursor move was inside the rectangle.
    pub hover: bool,
    /// Whether a press is being tracked, holding the mouse capture.
    pub down: bool,
}

/// Background fill while a press is tracked.
pub open spec fn button_down_color() -> Color {
    Color { r: 141, g: 440, b: 770, a: 1000 }
}

/// Background fill while the cursor hovers over the button.
pub open spec fn button_hover_color() -> Color {
    Color { r: 540, g: 630, b: 710, a: 1000 }
}

/// Background fill while the button is idle.
pub open spec fn button_idle_color() -> Color {
    Color { r: 380, g: 420, b: 480, a: 1000 }
}

/// The icon fill, full-intensity white.
pub open spec fn icon_color() -> Color {
    Color { r: 1000, g: 1000, b: 1000, a: 1000 }
}

/// The background fill keyed by the button's state; a tracked press takes
/// priority over hover.
pub open spec fn button_fill_color(v: ButtonModel) -> Color {
    if v.down {
        button_down_color()
    } else if v.hover {
        button_hover_color()
    } else {
        button_idle_color()
    }
}

/// The button's transition on one event.
///
/// A left mouse-down inside the rectangle, with the capture free, begins
/// tracking a press and takes the capture. A left mouse-up while tracking
/// always ends tracking and releases the capture, and reports an activation
/// exactly when the cursor is still inside the rectangle. A cursor move
/// recomputes the hover flag from the stored rectangle. Every other event
/// is a no-op.
pub open spec fn button_step(v: ButtonModel, event: Event, context: Context) -> (
    ButtonModel,
    Context,
    bool,
) {
    match event {
        Event::MouseMove => (
            ButtonModel { hover: v.rect.spec_contains(context.cursor), ..v },
            context,
            false,
        ),
        Event::MouseDown(MouseButton::Left) => {
            if !context.mouse_captured && v.rect.spec_contains(context.cursor) {
                (
                    ButtonModel { down: true, ..v },
                    Context { mouse_captured: true, ..context },
                    false,
                )
            } else {
                (v, context, false)
            }
        },
        Event::MouseUp(MouseButton::Left) => {
            if v.down {
                (
                    ButtonModel { down: false, ..v },
                    Context { mouse_captured: false, ..context },
                    v.rect.spec_contains(context.cursor),
                )
            } else {
                (v, context, false)
            }
        },
        _ => (v, context, false),
    }
}

/// A push button with a vector icon.
#[derive(Debug)]
pub struct Button {
    rect: Rect,
    icon: Path,
    hover: bool,
    down: bool,
}

impl View for Button {
    type V = ButtonModel;

    closed spec fn view(&self) -> ButtonModel {
        ButtonModel { rect: self.rect, icon: self.icon@, hover: self.hover, down: self.down }
    }
}

impl Button {
    /// A new button showing `icon`, idle, with an empty rectangle until the
    /// first layout pass.
    pub fn new(icon: Path) -> (b: Button)
        ensures
            b@ == (ButtonModel {
                rect: Rect {
                    pos: Point { x: 0, y: 0 },
                    size: Point { x: 0, y: 0 },
                },
                icon: icon@,
                hover: false,
                down: false,
            }),
    {
        Button {
            rect: Rect { pos: Point { x: 0, y: 0 }, size: Point { x: 0, y: 0 } },
            icon,
            hover: false,
            down: false,
        }
    }

    /// Whether a press is currently tracked.
    pub fn is_down(&self) -> (r: bool)
        ensures
            r == self@.down,
    {
        self.down
    }

    /// Whether the last observed cursor move was inside the rectangle.
    pub fn is_hover(&self) -> (r: bool)
        ensures
            r == self@.hover,
    {
        self.hover
    }
}

impl Component for Button {
    open spec fn area(v: ButtonModel) -> Rect {
        v.rect
    }

    open spec fn tracking(v: ButtonModel) -> bool {
        v.down
    }

    open spec fn placed(v: ButtonModel, rect: Rect) -> ButtonModel {
        ButtonModel { rect, ..v }
    }

    open spec fn step(v: ButtonModel, event: Event, context: Context) -> (
        ButtonModel,
        Context,
        bool,
    ) {
        button_step(v, event, context)
    }

    open spec fn drawn(v: ButtonModel) -> Seq<DrawCmdModel> {
        seq![
            DrawCmdModel::FillRect {
                pos: v.rect.pos,
                size: v.rect.size,
                transform: Mat2x2::spec_id(),
                color: button_fill_color(v),
            },
            DrawCmdModel::FillPath {
                path: v.icon,
                pos: v.rect.pos,
                transform: Mat2x2::spec_id(),
                color: icon_color(),
            },
        ]
    }

    fn layout(&mut self, rect: Rect) -> (assigned: Rect) {
        self.rect = rect;
        rect
    }

    fn render(&self, frame: &mut Frame) {
        let color: Color = if self.down {
            Color::rgba(141, 440, 770, 1000)
        } else if self.hover {
            Color::rgba(540, 630, 710, 1000)
        } else {
            Color::rgba(380, 420, 480, 1000)
        };
        frame.draw_rect(self.rect.pos, self.rect.size, Mat2x2::id(), color);
        frame.draw_path(&self.icon, self.rect.pos, Mat2x2::id(), Color::rgba(1000, 1000, 1000, 1000));
        proof {
            assert(frame@ =~= old(frame)@ + Self::drawn(self@));
        }
    }

    fn handle(&mut self, event: Event, context: &mut Context) -> (activated: bool) {
        match event {
            Event::MouseMove => {
                self.hover = self.rect.contains(context.cursor);
                false
            },
            Event::MouseDown(MouseButton::Left) => {
                if !context.mouse_captured && self.rect.contains(context.cursor) {
                    self.down = true;
                    context.mouse_captured = true;
                }
                false
            },
            Event::MouseUp(MouseButton::Left) => {
                if self.down {
                    context.mouse_captured = false;
                    self.down = false;
                    self.rect.contains(context.cursor)
                } else {
                    false
                }
            },
            _ => false,
        }
    }
}

} // verus!
