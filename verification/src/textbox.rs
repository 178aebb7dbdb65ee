//! A single-line text input: a background colored by focus state and an
//! accumulated text buffer appended to by character events.
//!
//! No event in this core grants focus, so the flag stays false until a
//! focus policy is decided; the focused appearance is defined all the same.

use vstd::prelude::*;
use crate::component::Component;
use crate::context::Context;
use crate::draw::Color;
use crate::draw::DrawCmdModel;
use crate::draw::FontId;
use crate::draw::Frame;
use crate::draw::Mat2x2;
use crate::geom::Point;
use crate::geom::Rect;
use crate::input::Event;

verus! {

/// The font size, in pixels, of the rendered text run.
pub const TEXT_SIZE_PX: u32 = 14;

/// The mathematical view of a textbox.
pub struct TextboxModel {
    /// The rectangle last assigned by layout.
    pub rect: Rect,
    /// Whether the textbox has keyboard focus.
    pub focus: bool,
    /// The font its text is drawn with.
    pub font: FontId,
    /// The accumulated text content.
    pub text: Seq<char>,
}

/// Background fill while focused.
pub open spec fn textbox_focused_color() -> Color {
    Color { r: 430, g: 500, b: 660, a: 1000 }
}

/// Background fill while unfocused.
pub open spec fn textbox_unfocused_color() -> Color {
    Color { r: 210, g: 270, b: 320, a: 1000 }
}

/// The text fill, full-intensity white.
pub open spec fn text_color() -> Color {
    Color { r: 1000, g: 1000, b: 1000, a: 1000 }
}

/// The background fill keyed by the focus flag.
pub open spec fn textbox_fill_color(v: TextboxModel) -> Color {
    if v.focus {
        textbox_focused_color()
    } else {
        textbox_unfocused_color()
    }
}

/// The textbox's transition on one event: a character event appends its
/// code point to the text buffer; every other event is a no-op. The shared
/// context is never written.
pub open spec fn textbox_step(v: TextboxModel, event: Event, context: Context) -> (
    TextboxModel,
    Context,
    bool,
) {
    match event {
        Event::Char(c) => (TextboxModel { text: v.text.push(c), ..v }, context, false),
        _ => (v, context, false),
    }
}

/// A single-line text input.
#[derive(Debug)]
pub struct Textbox {
    rect: Rect,
    focus: bool,
    font: FontId,
    text: String,
}

impl View for Textbox {
    type V = TextboxModel;

    closed spec fn view(&self) -> TextboxModel {
        TextboxModel { rect: self.rect, focus: self.focus, font: self.font, text: self.text@ }
    }
}

/// Relies on `String::push`, which appends the given character to the end
/// of the string.
#[verifier::external_body]
fn push_char(s: &mut String, c: char)
    ensures
        final(s)@ == old(s)@.push(c),
{
    s.push(c);
}

impl Textbox {
    /// A new, empty, unfocused textbox drawing with `font`, with an empty
    /// rectangle until the first layout pass.
    pub fn new(font: FontId) -> (t: Textbox)
        ensures
            t@ == (TextboxModel {
                rect: Rect {
                    pos: Point { x: 0, y: 0 },
                    size: Point { x: 0, y: 0 },
                },
                focus: false,
                font,
                text: Seq::<char>::empty(),
            }),
    {
        let t = Textbox {
            rect: Rect { pos: Point { x: 0, y: 0 }, size: Point { x: 0, y: 0 } },
            focus: false,
            font,
            text: String::new(),
        };
        t
    }

    /// The current text content.
    pub fn text(&self) -> (r: &str)
        ensures
            r@ == self@.text,
    {
        self.text.as_str()
    }

    /// Mutable access to the text buffer, for the host to clear or seed
    /// content; only the text changes through the borrow.
    pub fn text_mut(&mut self) -> (r: &mut String)
        ensures
            (*r)@ == old(self)@.text,
            final(self)@ == (TextboxModel { text: (*final(r))@, ..old(self)@ }),
    {
        &mut self.text
    }
}

impl Component for Textbox {
    open spec fn area(v: TextboxModel) -> Rect {
        v.rect
    }

    open spec fn tracking(v: TextboxModel) -> bool {
        false
    }

    open spec fn placed(v: TextboxModel, rect: Rect) -> TextboxModel {
        TextboxModel { rect, ..v }
    }

    open spec fn step(v: TextboxModel, event: Event, context: Context) -> (
        TextboxModel,
        Context,
        bool,
    ) {
        textbox_step(v, event, context)
    }

    open spec fn drawn(v: TextboxModel) -> Seq<DrawCmdModel> {
        seq![
            DrawCmdModel::FillRect {
                pos: v.rect.pos,
                size: v.rect.size,
                transform: Mat2x2::spec_id(),
                color: textbox_fill_color(v),
            },
            DrawCmdModel::TextRun {
                font: v.font,
                size_px: TEXT_SIZE_PX,
                text: v.text,
                pos: v.rect.pos,
                transform: Mat2x2::spec_id(),
                color: text_color(),
            },
        ]
    }

    fn layout(&mut self, rect: Rect) -> (assigned: Rect) {
        self.rect = rect;
        rect
    }

    fn render(&self, frame: &mut Frame) {
        let color: Color = if self.focus {
            Color::rgba(430, 500, 660, 1000)
        } else {
            Color::rgba(210, 270, 320, 1000)
        };
        frame.draw_rect(self.rect.pos, self.rect.size, Mat2x2::id(), color);
        frame.draw_text(
            self.font,
            TEXT_SIZE_PX,
            self.text.as_str(),
            self.rect.pos,
            Mat2x2::id(),
            Color::rgba(1000, 1000, 1000, 1000),
        );
        proof {
            assert(frame@ =~= old(frame)@ + Self::drawn(self@));
        }
    }

    fn handle(&mut self, event: Event, context: &mut Context) -> (activated: bool) {
        match event {
            Event::Char(c) => {
                push_char(&mut self.text, c);
                false
            },
            _ => false,
        }
    }
}

} // verus!
