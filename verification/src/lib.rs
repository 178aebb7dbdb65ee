//! A minimal retained-mode widget toolkit core.
//!
//! Widgets implement the [`Component`] contract — layout, render, handle —
//! and are driven by a host event loop that feeds them normalized input
//! events together with a shared [`Context`] holding the cursor position,
//! modifier flags and the single mouse-capture flag. Rendering is expressed
//! as a sequence of drawing commands appended to a [`Frame`], which a host
//! hands to whatever renderer it uses.

pub mod button;
pub mod component;
pub mod context;
pub mod draw;
pub mod geom;
pub mod input;
pub mod laws;
pub mod textbox;

pub use button::Button;
pub use button::ButtonModel;
pub use component::Component;
pub use context::Context;
pub use draw::Color;
pub use draw::DrawCmd;
pub use draw::DrawCmdModel;
pub use draw::FontId;
pub use draw::Frame;
pub use draw::Mat2x2;
pub use draw::Path;
pub use draw::PathCmd;
pub use geom::Point;
pub use geom::Rect;
pub use input::Event;
pub use input::Key;
pub use input::Modifiers;
pub use input::MouseButton;
pub use textbox::Textbox;
pub use textbox::TextboxModel;
