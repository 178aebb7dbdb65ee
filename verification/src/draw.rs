//! The drawing surface the widgets render into.
//!
//! A [`Frame`] buffers drawing commands — filled rectangle, filled vector
//! path, text run — for a host-side renderer to consume after the widget
//! tree has rendered. Colors and transforms are stored in integer
//! thousandths, so a channel value of `1000` stands for full intensity and
//! the identity transform has `1000` on its diagonal.

use vstd::prelude::*;
use crate::geom::Point;

verus! {

/// An RGBA color; each channel holds thousandths of full intensity,
/// so valid channels lie in `0 ..= 1000`.
#[derive(Copy, Clone, PartialEq, Eq, Structural, Debug)]
pub struct Color {
    pub r: u16,
    pub g: u16,
    pub b: u16,
    pub a: u16,
}

impl Color {
    /// Every channel within `0 ..= 1000`.
    pub open spec fn wf(self) -> bool {
        self.r <= 1000 && self.g <= 1000 && self.b <= 1000 && self.a <= 1000
    }

    /// A color from channel values in thousandths of full intensity.
    pub fn rgba(r: u16, g: u16, b: u16, a: u16) -> (c: Color)
        requires
            r <= 1000,
            g <= 1000,
            b <= 1000,
            a <= 1000,
        ensures
            c == (Color { r, g, b, a }),
            c.wf(),
    {
        Color { r, g, b, a }
    }
}

/// A 2x2 transform with entries in thousandths: the matrix
/// `[[a, b], [c, d]]` scaled by 1000.
#[derive(Copy, Clone, PartialEq, Eq, Structural, Debug)]
pub struct Mat2x2 {
    pub a: i32,
    pub b: i32,
    pub c: i32,
    pub d: i32,
}

impl Mat2x2 {
    /// The identity transform.
    pub open spec fn spec_id() -> Mat2x2 {
        Mat2x2 { a: 1000, b: 0, c: 0, d: 1000 }
    }

    /// The identity transform.
    pub fn id() -> (m: Mat2x2)
        ensures
            m == Mat2x2::spec_id(),
    {
        Mat2x2 { a: 1000, b: 0, c: 0, d: 1000 }
    }
}

/// One segment of a vector path.
#[derive(Copy, Clone, PartialEq, Eq, Structural, Debug)]
pub enum PathCmd {
    MoveTo(Point),
    LineTo(Point),
}

/// An immutable vector path: a sequence of move/line segments, built once
/// at construction time and referenced by coordinates relative to the
/// position a draw call supplies.
#[derive(Debug)]
pub struct Path {
    cmds: Vec<PathCmd>,
}

impl View for Path {
    type V = Seq<PathCmd>;

    closed spec fn view(&self) -> Seq<PathCmd> {
        self.cmds@
    }
}

impl Path {
    /// The empty path.
    pub fn new() -> (p: Path)
        ensures
            p@ == Seq::<PathCmd>::empty(),
    {
        Path { cmds: Vec::new() }
    }

    /// This path extended by a move to `(x, y)`.
    pub fn move_to(self, x: i32, y: i32) -> (p: Path)
        ensures
            p@ == self@.push(PathCmd::MoveTo(Point { x, y })),
    {
        let mut cmds = self.cmds;
        cmds.push(PathCmd::MoveTo(Point { x, y }));
        Path { cmds }
    }

    /// This path extended by a line to `(x, y)`.
    pub fn line_to(self, x: i32, y: i32) -> (p: Path)
        ensures
            p@ == self@.push(PathCmd::LineTo(Point { x, y })),
    {
        let mut cmds = self.cmds;
        cmds.push(PathCmd::LineTo(Point { x, y }));
        Path { cmds }
    }

    /// The segments of this path, in order.
    pub fn segments(&self) -> (r: &Vec<PathCmd>)
        ensures
            r@ == self@,
    {
        &self.cmds
    }
}

impl Clone for Path {
    /// A path with the same segments.
    fn clone(&self) -> (r: Path)
        ensures
            r@ == self@,
    {
        let mut cmds: Vec<PathCmd> = Vec::new();
        let mut i: usize = 0;
        while i < self.cmds.len()
            invariant
                i <= self.cmds@.len(),
                cmds@ == self.cmds@.subrange(0, i as int),
            decreases self.cmds@.len() - i,
        {
            let next: PathCmd = self.cmds[i];
            cmds.push(next);
            proof {
                assert(cmds@ =~= self.cmds@.subrange(0, i + 1));
            }
            i = i + 1;
        }
        proof {
            assert(cmds@ =~= self.cmds@);
        }
        Path { cmds }
    }
}

/// A handle naming a font in the host's font store. Fonts themselves are
/// immutable resources owned by the host; any number of widgets may
/// reference the same one.
#[derive(Copy, Clone, PartialEq, Eq, Structural, Debug)]
pub struct FontId {
    pub id: u32,
}

/// One buffered drawing command.
#[derive(Debug)]
pub enum DrawCmd {
    /// A filled axis-aligned rectangle.
    FillRect { pos: Point, size: Point, transform: Mat2x2, color: Color },
    /// A filled vector path, its coordinates relative to `pos`.
    FillPath { path: Path, pos: Point, transform: Mat2x2, color: Color },
    /// A single-line text run; `size_px` is the font size in pixels.
    TextRun { font: FontId, size_px: u32, text: String, pos: Point, transform: Mat2x2, color: Color },
}

/// The mathematical shape of one drawing command.
pub enum DrawCmdModel {
    FillRect { pos: Point, size: Point, transform: Mat2x2, color: Color },
    FillPath { path: Seq<PathCmd>, pos: Point, transform: Mat2x2, color: Color },
    TextRun { font: FontId, size_px: u32, text: Seq<char>, pos: Point, transform: Mat2x2, color: Color },
}

impl View for DrawCmd {
    type V = DrawCmdModel;

    open spec fn view(&self) -> DrawCmdModel {
        match self {
            DrawCmd::FillRect { pos, size, transform, color } => DrawCmdModel::FillRect {
                pos: *pos,
                size: *size,
                transform: *transform,
                color: *color,
            },
            DrawCmd::FillPath { path, pos, transform, color } => DrawCmdModel::FillPath {
                path: path@,
                pos: *pos,
                transform: *transform,
                color: *color,
            },
            DrawCmd::TextRun { font, size_px, text, pos, transform, color } => DrawCmdModel::TextRun {
                font: *font,
                size_px: *size_px,
                text: text@,
                pos: *pos,
                transform: *transform,
                color: *color,
            },
        }
    }
}

/// A drawing surface for one displayed frame: widgets append commands in
/// back-to-front order and the host replays them against its renderer.
#[derive(Debug)]
pub struct Frame {
    cmds: Vec<DrawCmd>,
}

impl View for Frame {
    type V = Seq<DrawCmdModel>;

    closed spec fn view(&self) -> Seq<DrawCmdModel> {
        self.cmds@.map_values(|c: DrawCmd| c@)
    }
}

impl Frame {
    /// An empty frame.
    pub fn new() -> (f: Frame)
        ensures
            f@ == Seq::<DrawCmdModel>::empty(),
    {
        let f = Frame { cmds: Vec::new() };
        proof {
            assert(f@ =~= Seq::<DrawCmdModel>::empty());
        }
        f
    }

    /// Append a filled rectangle.
    pub fn draw_rect(&mut self, pos: Point, size: Point, transform: Mat2x2, color: Color)
        ensures
            final(self)@ == old(self)@.push(DrawCmdModel::FillRect { pos, size, transform, color }),
    {
        self.cmds.push(DrawCmd::FillRect { pos, size, transform, color });
        proof {
            assert(self@ =~= old(self)@.push(
                DrawCmdModel::FillRect { pos, size, transform, color },
            ));
        }
    }

    /// Append a filled path.
    pub fn draw_path(&mut self, path: &Path, pos: Point, transform: Mat2x2, color: Color)
        ensures
            final(self)@ == old(self)@.push(
                DrawCmdModel::FillPath { path: path@, pos, transform, color },
            ),
    {
        let copy: Path = path.clone();
        self.cmds.push(DrawCmd::FillPath { path: copy, pos, transform, color });
        proof {
            assert(self@ =~= old(self)@.push(
                DrawCmdModel::FillPath { path: path@, pos, transform, color },
            ));
        }
    }

    /// Append a text run.
    pub fn draw_text(
        &mut self,
        font: FontId,
        size_px: u32,
        text: &str,
        pos: Point,
        transform: Mat2x2,
        color: Color,
    )
        ensures
            final(self)@ == old(self)@.push(
                DrawCmdModel::TextRun { font, size_px, text: text@, pos, transform, color },
            ),
    {
        let owned: String = text.to_owned();
        self.cmds.push(DrawCmd::TextRun { font, size_px, text: owned, pos, transform, color });
        proof {
            assert(self@ =~= old(self)@.push(
                DrawCmdModel::TextRun { font, size_px, text: text@, pos, transform, color },
            ));
        }
    }

    /// The buffered commands, in the order they were drawn.
    pub fn commands(&self) -> (r: &Vec<DrawCmd>)
        ensures
            r@.map_values(|c: DrawCmd| c@) == self@,
    {
        &self.cmds
    }
}

} // verus!
