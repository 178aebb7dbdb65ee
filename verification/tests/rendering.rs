//! Rendering observed through the frame's command buffer: command order,
//! the fixed palette keyed by widget state, and the text run's content.

use gouache_ui::Button;
use gouache_ui::Color;
use gouache_ui::Component;
use gouache_ui::Context;
use gouache_ui::DrawCmd;
use gouache_ui::Event;
use gouache_ui::FontId;
use gouache_ui::Frame;
use gouache_ui::Mat2x2;
use gouache_ui::MouseButton;
use gouache_ui::Path;
use gouache_ui::PathCmd;
use gouache_ui::Point;
use gouache_ui::Rect;
use gouache_ui::Textbox;

fn play_icon() -> Path {
    Path::new().move_to(4, 3).line_to(4, 13).line_to(12, 8)
}

fn background_color(frame: &Frame) -> Color {
    match &frame.commands()[0] {
        DrawCmd::FillRect { color, .. } => *color,
        other => panic!("expected a background rectangle, got {:?}", other),
    }
}

#[test]
fn button_renders_background_then_icon() {
    let mut b = Button::new(play_icon());
    b.layout(Rect::new(2, 3, 20, 10));
    let mut frame = Frame::new();
    b.render(&mut frame);

    let cmds = frame.commands();
    assert_eq!(cmds.len(), 2);
    match &cmds[0] {
        DrawCmd::FillRect { pos, size, transform, color } => {
            assert_eq!(*pos, Point::new(2, 3));
            assert_eq!(*size, Point::new(20, 10));
            assert_eq!(*transform, Mat2x2::id());
            assert_eq!(*color, Color::rgba(380, 420, 480, 1000));
        }
        other => panic!("expected the background rectangle first, got {:?}", other),
    }
    match &cmds[1] {
        DrawCmd::FillPath { path, pos, transform, color } => {
            assert_eq!(
                path.segments(),
                &vec![
                    PathCmd::MoveTo(Point::new(4, 3)),
                    PathCmd::LineTo(Point::new(4, 13)),
                    PathCmd::LineTo(Point::new(12, 8)),
                ],
            );
            assert_eq!(*pos, Point::new(2, 3));
            assert_eq!(*transform, Mat2x2::id());
            assert_eq!(*color, Color::rgba(1000, 1000, 1000, 1000));
        }
        other => panic!("expected the icon path second, got {:?}", other),
    }
}

#[test]
fn button_background_color_follows_its_state() {
    let mut b = Button::new(play_icon());
    b.layout(Rect::new(0, 0, 100, 50));
    let mut ctx = Context::new();

    let mut idle = Frame::new();
    b.render(&mut idle);
    assert_eq!(background_color(&idle), Color::rgba(380, 420, 480, 1000));

    ctx.cursor = Point::new(5, 5);
    b.handle(Event::MouseMove, &mut ctx);
    let mut hovered = Frame::new();
    b.render(&mut hovered);
    assert_eq!(background_color(&hovered), Color::rgba(540, 630, 710, 1000));

    b.handle(Event::MouseDown(MouseButton::Left), &mut ctx);
    let mut pressed = Frame::new();
    b.render(&mut pressed);
    assert_eq!(background_color(&pressed), Color::rgba(141, 440, 770, 1000));

    b.handle(Event::MouseUp(MouseButton::Left), &mut ctx);
    let mut released = Frame::new();
    b.render(&mut released);
    // Hover was recorded by the last move, so the released button hovers.
    assert_eq!(background_color(&released), Color::rgba(540, 630, 710, 1000));
}

#[test]
fn render_is_repeatable_and_appends() {
    let mut b = Button::new(play_icon());
    b.layout(Rect::new(0, 0, 10, 10));
    let mut frame = Frame::new();
    b.render(&mut frame);
    b.render(&mut frame);
    let cmds = frame.commands();
    assert_eq!(cmds.len(), 4);
    // Unchanged state appends the same commands again.
    assert_eq!(background_color(&frame), {
        match &cmds[2] {
            DrawCmd::FillRect { color, .. } => *color,
            other => panic!("expected a background rectangle, got {:?}", other),
        }
    });
}

#[test]
fn textbox_renders_background_then_text_run() {
    let mut t = Textbox::new(FontId { id: 42 });
    t.layout(Rect::new(1, 2, 200, 30));
    let mut ctx = Context::new();
    t.handle(Event::Char('h'), &mut ctx);
    t.handle(Event::Char('i'), &mut ctx);

    let mut frame = Frame::new();
    t.render(&mut frame);
    let cmds = frame.commands();
    assert_eq!(cmds.len(), 2);
    match &cmds[0] {
        DrawCmd::FillRect { pos, size, transform, color } => {
            assert_eq!(*pos, Point::new(1, 2));
            assert_eq!(*size, Point::new(200, 30));
            assert_eq!(*transform, Mat2x2::id());
            // Unfocused background: no event grants focus in this core.
            assert_eq!(*color, Color::rgba(210, 270, 320, 1000));
        }
        other => panic!("expected the background rectangle first, got {:?}", other),
    }
    match &cmds[1] {
        DrawCmd::TextRun { font, size_px, text, pos, transform, color } => {
            assert_eq!(font.id, 42);
            assert_eq!(*size_px, 14);
            assert_eq!(text.as_str(), "hi");
            assert_eq!(*pos, Point::new(1, 2));
            assert_eq!(*transform, Mat2x2::id());
            assert_eq!(*color, Color::rgba(1000, 1000, 1000, 1000));
        }
        other => panic!("expected the text run second, got {:?}", other),
    }
}

#[test]
fn empty_path_and_empty_frame() {
    let p = Path::new();
    assert!(p.segments().is_empty());
    let f = Frame::new();
    assert!(f.commands().is_empty());
}

#[test]
fn path_clone_keeps_segments() {
    let p = play_icon();
    let q = p.clone();
    assert_eq!(p.segments(), q.segments());
}
