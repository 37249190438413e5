//! The coordinate-relative drawing context.
//!
//! A `Context` wraps one frame's output. It owns a rectangular coordinate
//! offset (`rect`), an optional clip region, the frame's input snapshot,
//! and the frame's queue of draw commands. Every draw call is re-based
//! into absolute screen coordinates by the context before it is recorded;
//! the platform layer replays the recorded commands against the real
//! renderer at the end of the frame, so the library alone decides *where*
//! and *whether* anything is drawn.
//!
//! `scissor` narrows a context into a child whose clip is the
//! intersection of the caller's effective clip with the requested region
//! and whose offset is the caller's offset plus the region's origin.
//! `scissor` consumes the parent, so the parent cannot be drawn through
//! while the child is in use; `release` restores it.

use vstd::prelude::*;

use crate::geometry::{fits_i32, Color, Point, Region};
use crate::input::{InputSnapshot, Key, MouseButton};

verus! {

/// Nine-patch stretch description for a textured quad: the `source`
/// region inside the texture and the four border widths that must not be
/// stretched.
#[derive(Clone, Copy, Debug, PartialEq, Eq, Structural)]
pub struct NPatchInfo {
    pub source: Region,
    pub left: i32,
    pub top: i32,
    pub right: i32,
    pub bottom: i32,
    pub layout: i32,
}

/// One primitive draw operation, in absolute screen coordinates.
/// Angles are whole degrees; `roundness_pct` is a corner roundness in
/// percent; textures are referred to by the platform layer's handle.
#[derive(Clone, Debug)]
pub enum DrawOp {
    Pixel { x: i32, y: i32, color: Color },
    Line { x1: i32, y1: i32, x2: i32, y2: i32, color: Color },
    LineEx { start: Point, end: Point, thick: i32, color: Color },
    LineBezier { start: Point, end: Point, thick: i32, color: Color },
    LineStrip { points: Vec<Point>, color: Color },
    Circle { x: i32, y: i32, radius: i32, color: Color },
    CircleLines { x: i32, y: i32, radius: i32, color: Color },
    CircleGradient { x: i32, y: i32, radius: i32, color1: Color, color2: Color },
    CircleSector {
        center: Point,
        radius: i32,
        start_angle_deg: i32,
        end_angle_deg: i32,
        segments: i32,
        color: Color,
    },
    CircleSectorLines {
        center: Point,
        radius: i32,
        start_angle_deg: i32,
        end_angle_deg: i32,
        segments: i32,
        color: Color,
    },
    Ellipse { x: i32, y: i32, radius_h: i32, radius_v: i32, color: Color },
    EllipseLines { x: i32, y: i32, radius_h: i32, radius_v: i32, color: Color },
    Ring {
        center: Point,
        inner_radius: i32,
        outer_radius: i32,
        start_angle_deg: i32,
        end_angle_deg: i32,
        segments: i32,
        color: Color,
    },
    RingLines {
        center: Point,
        inner_radius: i32,
        outer_radius: i32,
        start_angle_deg: i32,
        end_angle_deg: i32,
        segments: i32,
        color: Color,
    },
    Rectangle { rect: Region, color: Color },
    RectangleLines { rect: Region, color: Color },
    RectangleLinesEx { rect: Region, thick: i32, color: Color },
    RectanglePro { rect: Region, origin: Point, rotation_deg: i32, color: Color },
    RectangleRounded { rect: Region, roundness_pct: i32, segments: i32, color: Color },
    RectangleRoundedLines {
        rect: Region,
        roundness_pct: i32,
        segments: i32,
        thick: i32,
        color: Color,
    },
    RectangleGradientV { rect: Region, color1: Color, color2: Color },
    RectangleGradientH { rect: Region, color1: Color, color2: Color },
    RectangleGradientEx { rect: Region, c1: Color, c2: Color, c3: Color, c4: Color },
    Triangle { v1: Point, v2: Point, v3: Point, color: Color },
    TriangleLines { v1: Point, v2: Point, v3: Point, color: Color },
    TriangleFan { points: Vec<Point>, color: Color },
    TriangleStrip { points: Vec<Point>, color: Color },
    Poly { center: Point, sides: i32, radius: i32, rotation_deg: i32, color: Color },
    PolyLines { center: Point, sides: i32, radius: i32, rotation_deg: i32, color: Color },
    PolyLinesEx {
        center: Point,
        sides: i32,
        radius: i32,
        rotation_deg: i32,
        thick: i32,
        color: Color,
    },
    SplineLinear { points: Vec<Point>, thick: i32, color: Color },
    Fps { x: i32, y: i32 },
    Text { text: Vec<char>, x: i32, y: i32, font_size: i32, color: Color },
    Texture { texture: u32, x: i32, y: i32, tint: Color },
    TextureEx { texture: u32, position: Point, rotation_deg: i32, scale_pct: i32, tint: Color },
    TextureRec { texture: u32, source: Region, position: Point, tint: Color },
    TexturePro {
        texture: u32,
        source: Region,
        dest: Region,
        origin: Point,
        rotation_deg: i32,
        tint: Color,
    },
    TextureNPatch {
        texture: u32,
        info: NPatchInfo,
        dest: Region,
        origin: Point,
        rotation_deg: i32,
        tint: Color,
    },
}

/// A recorded draw command: the operation together with the clip region
/// that was active when it was issued (`None` means unclipped).
#[derive(Clone, Debug)]
pub struct DrawCmd {
    pub clip: Option<Region>,
    pub op: DrawOp,
}

/// The saved offset and clip of a context that was narrowed by
/// `scissor`; handing it back to `release` restores them.
#[derive(Clone, Copy, Debug, PartialEq, Eq, Structural)]
pub struct ClipGuard {
    pub rect: Region,
    pub clip: Option<Region>,
}

/// One frame's drawing context.
pub struct Context {
    /// The local coordinate frame: `(x, y)` is the offset added to every
    /// draw call, `(width, height)` the extent of the frame's surface.
    pub rect: Region,
    /// The active clip region in absolute coordinates, if any.
    pub clip: Option<Region>,
    /// The input state polled once when the frame's outermost context was
    /// built.
    pub input: InputSnapshot,
    /// The draw commands recorded so far this frame.
    pub cmds: Vec<DrawCmd>,
}

/// The width of one glyph at the given font size, in the library's
/// uniform-advance text metric.
pub open spec fn spec_char_width(font_size: int) -> int {
    font_size / 2 + 1
}

/// The width of `len` glyphs at the given font size.
pub open spec fn spec_text_width(len: nat, font_size: int) -> int {
    len * spec_char_width(font_size)
}

impl Context {
    pub open spec fn wf(self) -> bool {
        &&& self.rect.wf()
        &&& match self.clip {
            Some(c) => c.wf(),
            None => true,
        }
    }

    /// The clip in force for nesting purposes: the explicit clip if one
    /// is set, otherwise the context's whole surface.
    pub open spec fn spec_effective_clip(self) -> Region {
        match self.clip {
            Some(c) => c,
            None => self.rect,
        }
    }

    /// The coordinate frame of a child narrowed to `region`: the parent's
    /// offset plus the region's origin, with the region's extent.
    pub open spec fn spec_narrow_rect(parent: Region, region: Region) -> Region {
        Region {
            x: (parent.x + region.x) as i32,
            y: (parent.y + region.y) as i32,
            width: region.width,
            height: region.height,
        }
    }

    /// Whether the local point `(x, y)` can be re-based into this
    /// context's absolute frame without leaving `i32`.
    pub open spec fn spec_offset_fits(self, x: int, y: int) -> bool {
        fits_i32(self.rect.x + x) && fits_i32(self.rect.y + y)
    }

    /// The local point `(x, y)` re-based into absolute coordinates.
    pub open spec fn spec_offset_point(self, x: int, y: int) -> Point {
        Point { x: (self.rect.x + x) as i32, y: (self.rect.y + y) as i32 }
    }

    /// The local rectangle `r` re-based into absolute coordinates; only
    /// the origin moves, the extent is kept.
    pub open spec fn spec_offset_rect(self, r: Region) -> Region {
        Region {
            x: (self.rect.x + r.x) as i32,
            y: (self.rect.y + r.y) as i32,
            width: r.width,
            height: r.height,
        }
    }

    /// Whether every point of `pts` can be re-based into this context's
    /// absolute frame without leaving `i32`.
    pub open spec fn spec_points_fit(self, pts: Seq<Point>) -> bool {
        forall|i: int| 0 <= i < pts.len() ==> self.spec_offset_fits(pts[i].x as int, pts[i].y as int)
    }

    /// The points of `pts`, each re-based into absolute coordinates.
    pub open spec fn spec_offset_points(self, pts: Seq<Point>) -> Seq<Point> {
        Seq::new(pts.len(), |i: int| self.spec_offset_point(pts[i].x as int, pts[i].y as int))
    }

    /// One command was appended, carrying the active clip, and nothing
    /// else about the context changed.
    pub open spec fn spec_emitted(pre: Context, post: Context, op: DrawOp) -> bool {
        &&& post.cmds@ == pre.cmds@.push(DrawCmd { clip: pre.clip, op })
        &&& post.rect == pre.rect
        &&& post.clip == pre.clip
        &&& post.input == pre.input
    }

    /// Builds the frame's outermost context: offset zero, the full
    /// surface as extent, no clip, no commands recorded yet.
    pub fn new(width: i32, height: i32, input: InputSnapshot) -> (r: Context)
        requires
            width >= 0,
            height >= 0,
        ensures
            r.rect == (Region { x: 0, y: 0, width, height }),
            r.clip is None,
            r.input == input,
            r.cmds@ == Seq::<DrawCmd>::empty(),
            r.wf(),
    {
        Context {
            rect: Region { x: 0, y: 0, width, height },
            clip: None,
            input,
            cmds: Vec::new(),
        }
    }

    /// Narrows the context to `region` (given in the caller's local
    /// coordinates): the child's offset is the caller's offset plus the
    /// region's origin, and the child's clip is the intersection of the
    /// caller's effective clip with the re-based region. Consuming the
    /// caller keeps it from being drawn through while the child lives;
    /// `release` gives it back.
    pub fn scissor(self, region: Region) -> (r: (Context, ClipGuard))
        requires
            self.wf(),
            region.wf(),
            self.spec_offset_fits(region.x as int, region.y as int),
        ensures
            r.0.rect == Context::spec_narrow_rect(self.rect, region),
            r.0.clip == Some(
                Region::spec_intersect(
                    self.spec_effective_clip(),
                    self.spec_offset_rect(region),
                ),
            ),
            r.0.input == self.input,
            r.0.cmds@ == self.cmds@,
            r.0.wf(),
            r.1.rect == self.rect,
            r.1.clip == self.clip,
    {
        let absolute = Region {
            x: self.rect.x + region.x,
            y: self.rect.y + region.y,
            width: region.width,
            height: region.height,
        };
        let effective = match &self.clip {
            Some(c) => *c,
            None => self.rect,
        };
        let clip = effective.intersect(&absolute);
        proof {
            crate::geometry::lemma_intersect_subset(effective, absolute);
        }
        let guard = ClipGuard { rect: self.rect, clip: self.clip };
        let child = Context { rect: absolute, clip: Some(clip), input: self.input, cmds: self.cmds };
        (child, guard)
    }

    /// Restores the offset and clip saved by `scissor`, keeping the
    /// commands recorded through the child.
    pub fn release(self, guard: ClipGuard) -> (r: Context)
        requires
            guard.rect.wf(),
            match guard.clip {
                Some(c) => c.wf(),
                None => true,
            },
        ensures
            r.rect == guard.rect,
            r.clip == guard.clip,
            r.input == self.input,
            r.cmds@ == self.cmds@,
            r.wf(),
    {
        Context { rect: guard.rect, clip: guard.clip, input: self.input, cmds: self.cmds }
    }

    /// Measures the width in pixels of `text` rendered at `font_size`,
    /// under the library's uniform-advance metric. A pure query: the
    /// width is a function of the text length and the font size alone, so
    /// repeated calls with identical arguments return identical widths.
    pub fn measure_text(&self, text: &[char], font_size: i32) -> (w: i32)
        requires
            font_size >= 0,
            spec_text_width(text@.len(), font_size as int) <= i32::MAX,
        ensures
            w == spec_text_width(text@.len(), font_size as int),
    {
        let cw: i64 = (font_size / 2 + 1) as i64;
        let len: usize = text.len();
        proof {
            assert(len * cw <= i32::MAX && len <= len * cw) by (nonlinear_arith)
                requires
                    cw >= 1,
                    len >= 0,
                    len * cw == spec_text_width(text@.len(), font_size as int),
                    spec_text_width(text@.len(), font_size as int) <= i32::MAX,
            ;
        }
        let w: i64 = (len as i64) * cw;
        w as i32
    }

    /// Whether `key` transitioned to pressed this frame; a pass-through
    /// read of the frame's input snapshot.
    pub fn is_key_pressed(&self, key: Key) -> (r: bool)
        ensures
            r == self.input.pressed@.contains(key),
    {
        self.input.is_key_pressed(key)
    }

    /// Whether `key` is currently held down.
    pub fn is_key_down(&self, key: Key) -> (r: bool)
        ensures
            r == self.input.down@.contains(key),
    {
        self.input.is_key_down(key)
    }

    /// Whether `key` transitioned to released this frame.
    pub fn is_key_released(&self, key: Key) -> (r: bool)
        ensures
            r == self.input.released@.contains(key),
    {
        self.input.is_key_released(key)
    }

    /// Whether `key` is not currently held down.
    pub fn is_key_up(&self, key: Key) -> (r: bool)
        ensures
            r == !self.input.down@.contains(key),
    {
        !self.input.is_key_down(key)
    }

    /// Whether `button` transitioned to pressed this frame.
    pub fn is_mouse_button_pressed(&self, button: MouseButton) -> (r: bool)
        ensures
            r == self.input.buttons_pressed@.contains(button),
    {
        self.input.is_mouse_button_pressed(button)
    }

    pub fn get_mouse_x(&self) -> (r: i32)
        ensures
            r == self.input.mouse.x,
    {
        self.input.mouse.x
    }

    pub fn get_mouse_y(&self) -> (r: i32)
        ensures
            r == self.input.mouse.y,
    {
        self.input.mouse.y
    }

    pub fn get_mouse_position(&self) -> (r: Point)
        ensures
            r == self.input.mouse,
    {
        self.input.mouse
    }

    /// The last printable character typed this frame, if any; polled once
    /// when the outermost context was built.
    pub fn get_char_pressed(&self) -> (r: Option<char>)
        ensures
            r == self.input.ch,
    {
        self.input.ch
    }

    /// Re-bases the local point `(x, y)` into absolute coordinates.
    fn offset_xy(&self, x: i32, y: i32) -> (r: Point)
        requires
            self.spec_offset_fits(x as int, y as int),
        ensures
            r == self.spec_offset_point(x as int, y as int),
    {
        Point { x: self.rect.x + x, y: self.rect.y + y }
    }

    /// Re-bases the local point `p` into absolute coordinates.
    fn offset_point(&self, p: Point) -> (r: Point)
        requires
            self.spec_offset_fits(p.x as int, p.y as int),
        ensures
            r == self.spec_offset_point(p.x as int, p.y as int),
    {
        Point { x: self.rect.x + p.x, y: self.rect.y + p.y }
    }

    /// Re-bases the local rectangle `r` into absolute coordinates; the
    /// extent is kept as given.
    fn offset_rect(&self, r: Region) -> (out: Region)
        requires
            self.spec_offset_fits(r.x as int, r.y as int),
        ensures
            out == self.spec_offset_rect(r),
    {
        Region {
            x: self.rect.x + r.x,
            y: self.rect.y + r.y,
            width: r.width,
            height: r.height,
        }
    }

    /// Records one operation under the active clip.
    fn emit(&mut self, op: DrawOp)
        ensures
            Context::spec_emitted(*old(self), *final(self), op),
    {
        let clip = self.clip;
        self.cmds.push(DrawCmd { clip, op });
    }

    /// Draws a pixel at local `(x, y)`.
    pub fn draw_pixel(&mut self, x: i32, y: i32, color: Color)
        requires
            old(self).spec_offset_fits(x as int, y as int),
        ensures
            Context::spec_emitted(
                *old(self),
                *final(self),
                DrawOp::Pixel {
                    x: (old(self).rect.x + x) as i32,
                    y: (old(self).rect.y + y) as i32,
                    color,
                },
            ),
    {
        let p = self.offset_xy(x, y);
        self.emit(DrawOp::Pixel { x: p.x, y: p.y, color });
    }

    /// Draws a line between two local points.
    pub fn draw_line(&mut self, start_pos_x: i32, start_pos_y: i32, end_pos_x: i32, end_pos_y: i32, color: Color)
        requires
            old(self).spec_offset_fits(start_pos_x as int, start_pos_y as int),
            old(self).spec_offset_fits(end_pos_x as int, end_pos_y as int),
        ensures
            Context::spec_emitted(
                *old(self),
                *final(self),
                DrawOp::Line {
                    x1: (old(self).rect.x + start_pos_x) as i32,
                    y1: (old(self).rect.y + start_pos_y) as i32,
                    x2: (old(self).rect.x + end_pos_x) as i32,
                    y2: (old(self).rect.y + end_pos_y) as i32,
                    color,
                },
            ),
    {
        let s = self.offset_xy(start_pos_x, start_pos_y);
        let e = self.offset_xy(end_pos_x, end_pos_y);
        self.emit(DrawOp::Line { x1: s.x, y1: s.y, x2: e.x, y2: e.y, color });
    }

    /// Draws a line with thickness between two local points.
    pub fn draw_line_ex(&mut self, start_pos: Point, end_pos: Point, thick: i32, color: Color)
        requires
            old(self).spec_offset_fits(start_pos.x as int, start_pos.y as int),
            old(self).spec_offset_fits(end_pos.x as int, end_pos.y as int),
        ensures
            Context::spec_emitted(
                *old(self),
                *final(self),
                DrawOp::LineEx {
                    start: old(self).spec_offset_point(start_pos.x as int, start_pos.y as int),
                    end: old(self).spec_offset_point(end_pos.x as int, end_pos.y as int),
                    thick,
                    color,
                },
            ),
    {
        let s = self.offset_point(start_pos);
        let e = self.offset_point(end_pos);
        self.emit(DrawOp::LineEx { start: s, end: e, thick, color });
    }

    /// Draws a color-filled circle centred at local `(center_x, center_y)`.
    pub fn draw_circle(&mut self, center_x: i32, center_y: i32, radius: i32, color: Color)
        requires
            old(self).spec_offset_fits(center_x as int, center_y as int),
        ensures
            Context::spec_emitted(
                *old(self),
                *final(self),
                DrawOp::Circle {
                    x: (old(self).rect.x + center_x) as i32,
                    y: (old(self).rect.y + center_y) as i32,
                    radius,
                    color,
                },
            ),
    {
        let p = self.offset_xy(center_x, center_y);
        self.emit(DrawOp::Circle { x: p.x, y: p.y, radius, color });
    }

    /// Draws a color-filled rectangle given by local origin and extent.
    pub fn draw_rectangle(&mut self, x: i32, y: i32, width: i32, height: i32, color: Color)
        requires
            old(self).spec_offset_fits(x as int, y as int),
        ensures
            Context::spec_emitted(
                *old(self),
                *final(self),
                DrawOp::Rectangle {
                    rect: old(self).spec_offset_rect(Region { x, y, width, height }),
                    color,
                },
            ),
    {
        let r = self.offset_rect(Region { x, y, width, height });
        self.emit(DrawOp::Rectangle { rect: r, color });
    }

    /// Draws a color-filled rectangle from a local rectangle.
    pub fn draw_rectangle_rec(&mut self, rec: Region, color: Color)
        requires
            old(self).spec_offset_fits(rec.x as int, rec.y as int),
        ensures
            Context::spec_emitted(
                *old(self),
                *final(self),
                DrawOp::Rectangle { rect: old(self).spec_offset_rect(rec), color },
            ),
    {
        let r = self.offset_rect(rec);
        self.emit(DrawOp::Rectangle { rect: r, color });
    }

    /// Draws a rectangle outline.
    pub fn draw_rectangle_lines(&mut self, x: i32, y: i32, width: i32, height: i32, color: Color)
        requires
            old(self).spec_offset_fits(x as int, y as int),
        ensures
            Context::spec_emitted(
                *old(self),
                *final(self),
                DrawOp::RectangleLines {
                    rect: old(self).spec_offset_rect(Region { x, y, width, height }),
                    color,
                },
            ),
    {
        let r = self.offset_rect(Region { x, y, width, height });
        self.emit(DrawOp::RectangleLines { rect: r, color });
    }

    /// Draws a rectangle outline with a given line thickness.
    pub fn draw_rectangle_lines_ex(&mut self, rec: Region, line_thick: i32, color: Color)
        requires
            old(self).spec_offset_fits(rec.x as int, rec.y as int),
        ensures
            Context::spec_emitted(
                *old(self),
                *final(self),
                DrawOp::RectangleLinesEx {
                    rect: old(self).spec_offset_rect(rec),
                    thick: line_thick,
                    color,
                },
            ),
    {
        let r = self.offset_rect(rec);
        self.emit(DrawOp::RectangleLinesEx { rect: r, thick: line_thick, color });
    }

    /// Draws a rotated, color-filled rectangle.
    pub fn draw_rectangle_pro(&mut self, rec: Region, origin: Point, rotation_deg: i32, color: Color)
        requires
            old(self).spec_offset_fits(rec.x as int, rec.y as int),
        ensures
            Context::spec_emitted(
                *old(self),
                *final(self),
                DrawOp::RectanglePro {
                    rect: old(self).spec_offset_rect(rec),
                    origin,
                    rotation_deg,
                    color,
                },
            ),
    {
        let r = self.offset_rect(rec);
        self.emit(DrawOp::RectanglePro { rect: r, origin, rotation_deg, color });
    }

    /// Draws a rectangle with rounded corners.
    pub fn draw_rectangle_rounded(&mut self, rec: Region, roundness_pct: i32, segments: i32, color: Color)
        requires
            old(self).spec_offset_fits(rec.x as int, rec.y as int),
        ensures
            Context::spec_emitted(
                *old(self),
                *final(self),
                DrawOp::RectangleRounded {
                    rect: old(self).spec_offset_rect(rec),
                    roundness_pct,
                    segments,
                    color,
                },
            ),
    {
        let r = self.offset_rect(rec);
        self.emit(DrawOp::RectangleRounded { rect: r, roundness_pct, segments, color });
    }

    /// Draws the outline of a rectangle with rounded corners.
    pub fn draw_rectangle_rounded_lines(
        &mut self,
        rec: Region,
        roundness_pct: i32,
        segments: i32,
        line_thick: i32,
        color: Color,
    )
        requires
            old(self).spec_offset_fits(rec.x as int, rec.y as int),
        ensures
            Context::spec_emitted(
                *old(self),
                *final(self),
                DrawOp::RectangleRoundedLines {
                    rect: old(self).spec_offset_rect(rec),
                    roundness_pct,
                    segments,
                    thick: line_thick,
                    color,
                },
            ),
    {
        let r = self.offset_rect(rec);
        self.emit(
            DrawOp::RectangleRoundedLines { rect: r, roundness_pct, segments, thick: line_thick, color },
        );
    }

    /// Draws a vertical-gradient-filled rectangle.
    pub fn draw_rectangle_gradient_v(
        &mut self,
        x: i32,
        y: i32,
        width: i32,
        height: i32,
        color1: Color,
        color2: Color,
    )
        requires
            old(self).spec_offset_fits(x as int, y as int),
        ensures
            Context::spec_emitted(
                *old(self),
                *final(self),
                DrawOp::RectangleGradientV {
                    rect: old(self).spec_offset_rect(Region { x, y, width, height }),
                    color1,
                    color2,
                },
            ),
    {
        let r = self.offset_rect(Region { x, y, width, height });
        self.emit(DrawOp::RectangleGradientV { rect: r, color1, color2 });
    }

    /// Draws a horizontal-gradient-filled rectangle.
    pub fn draw_rectangle_gradient_h(
        &mut self,
        x: i32,
        y: i32,
        width: i32,
        height: i32,
        color1: Color,
        color2: Color,
    )
        requires
            old(self).spec_offset_fits(x as int, y as int),
        ensures
            Context::spec_emitted(
                *old(self),
                *final(self),
                DrawOp::RectangleGradientH {
                    rect: old(self).spec_offset_rect(Region { x, y, width, height }),
                    color1,
                    color2,
                },
            ),
    {
        let r = self.offset_rect(Region { x, y, width, height });
        self.emit(DrawOp::RectangleGradientH { rect: r, color1, color2 });
    }

    /// Draws a rectangle filled with a gradient given by its four corner
    /// colors.
    pub fn draw_rectangle_gradient_ex(&mut self, rec: Region, c1: Color, c2: Color, c3: Color, c4: Color)
        requires
            old(self).spec_offset_fits(rec.x as int, rec.y as int),
        ensures
            Context::spec_emitted(
                *old(self),
                *final(self),
                DrawOp::RectangleGradientEx {
                    rect: old(self).spec_offset_rect(rec),
                    c1,
                    c2,
                    c3,
                    c4,
                },
            ),
    {
        let r = self.offset_rect(rec);
        self.emit(DrawOp::RectangleGradientEx { rect: r, c1, c2, c3, c4 });
    }

    /// Draws a color-filled triangle given by three local points.
    pub fn draw_triangle(&mut self, v1: Point, v2: Point, v3: Point, color: Color)
        requires
            old(self).spec_offset_fits(v1.x as int, v1.y as int),
            old(self).spec_offset_fits(v2.x as int, v2.y as int),
            old(self).spec_offset_fits(v3.x as int, v3.y as int),
        ensures
            Context::spec_emitted(
                *old(self),
                *final(self),
                DrawOp::Triangle {
                    v1: old(self).spec_offset_point(v1.x as int, v1.y as int),
                    v2: old(self).spec_offset_point(v2.x as int, v2.y as int),
                    v3: old(self).spec_offset_point(v3.x as int, v3.y as int),
                    color,
                },
            ),
    {
        let p1 = self.offset_point(v1);
        let p2 = self.offset_point(v2);
        let p3 = self.offset_point(v3);
        self.emit(DrawOp::Triangle { v1: p1, v2: p2, v3: p3, color });
    }

    /// Draws a regular polygon of `sides` sides centred at a local point.
    pub fn draw_poly(&mut self, center: Point, sides: i32, radius: i32, rotation_deg: i32, color: Color)
        requires
            old(self).spec_offset_fits(center.x as int, center.y as int),
        ensures
            Context::spec_emitted(
                *old(self),
                *final(self),
                DrawOp::Poly {
                    center: old(self).spec_offset_point(center.x as int, center.y as int),
                    sides,
                    radius,
                    rotation_deg,
                    color,
                },
            ),
    {
        let c = self.offset_point(center);
        self.emit(DrawOp::Poly { center: c, sides, radius, rotation_deg, color });
    }

    /// Draws `text` at local `(x, y)` in the default font. The command's
    /// text is stated by its character sequence, because a `Vec` value
    /// cannot be named directly in a contract.
    pub fn draw_text(&mut self, text: &Vec<char>, x: i32, y: i32, font_size: i32, color: Color)
        requires
            old(self).spec_offset_fits(x as int, y as int),
        ensures
            final(self).rect == old(self).rect,
            final(self).clip == old(self).clip,
            final(self).input == old(self).input,
            final(self).cmds@.len() == old(self).cmds@.len() + 1,
            final(self).cmds@.subrange(0, old(self).cmds@.len() as int) == old(self).cmds@,
            final(self).cmds@.last().clip == old(self).clip,
            spec_is_text_cmd(
                final(self).cmds@.last(),
                text@,
                (old(self).rect.x + x) as i32,
                (old(self).rect.y + y) as i32,
                font_size,
                color,
            ),
    {
        let p = self.offset_xy(x, y);
        let copy = copy_chars(text);
        self.emit(DrawOp::Text { text: copy, x: p.x, y: p.y, font_size, color });
        proof {
            assert(self.cmds@.subrange(0, old(self).cmds@.len() as int) =~= old(self).cmds@);
        }
    }

    /// Draws the texture with the given platform handle at local `(x, y)`.
    pub fn draw_texture(&mut self, texture: u32, x: i32, y: i32, tint: Color)
        requires
            old(self).spec_offset_fits(x as int, y as int),
        ensures
            Context::spec_emitted(
                *old(self),
                *final(self),
                DrawOp::Texture {
                    texture,
                    x: (old(self).rect.x + x) as i32,
                    y: (old(self).rect.y + y) as i32,
                    tint,
                },
            ),
    {
        let p = self.offset_xy(x, y);
        self.emit(DrawOp::Texture { texture, x: p.x, y: p.y, tint });
    }

    /// Draws a region of a texture into a local destination rectangle,
    /// rotated about `origin`.
    pub fn draw_texture_pro(
        &mut self,
        texture: u32,
        source_rec: Region,
        dest_rec: Region,
        origin: Point,
        rotation_deg: i32,
        tint: Color,
    )
        requires
            old(self).spec_offset_fits(dest_rec.x as int, dest_rec.y as int),
        ensures
            Context::spec_emitted(
                *old(self),
                *final(self),
                DrawOp::TexturePro {
                    texture,
                    source: source_rec,
                    dest: old(self).spec_offset_rect(dest_rec),
                    origin,
                    rotation_deg,
                    tint,
                },
            ),
    {
        let d = self.offset_rect(dest_rec);
        self.emit(
            DrawOp::TexturePro { texture, source: source_rec, dest: d, origin, rotation_deg, tint },
        );
    }

    /// Draws a texture stretched by its nine-patch description into a
    /// local destination rectangle.
    pub fn draw_texture_n_patch(
        &mut self,
        texture: u32,
        n_patch_info: NPatchInfo,
        dest_rec: Region,
        origin: Point,
        rotation_deg: i32,
        tint: Color,
    )
        requires
            old(self).spec_offset_fits(dest_rec.x as int, dest_rec.y as int),
        ensures
            Context::spec_emitted(
                *old(self),
                *final(self),
                DrawOp::TextureNPatch {
                    texture,
                    info: n_patch_info,
                    dest: old(self).spec_offset_rect(dest_rec),
                    origin,
                    rotation_deg,
                    tint,
                },
            ),
    {
        let d = self.offset_rect(dest_rec);
        self.emit(
            DrawOp::TextureNPatch {
                texture,
                info: n_patch_info,
                dest: d,
                origin,
                rotation_deg,
                tint,
            },
        );
    }

    /// Re-bases every point of a local point list into absolute
    /// coordinates.
    fn offset_points(&self, points: &[Point]) -> (r: Vec<Point>)
        requires
            self.spec_points_fit(points@),
        ensures
            r@ == self.spec_offset_points(points@),
    {
        let mut out: Vec<Point> = Vec::new();
        let mut i: usize = 0;
        while i < points.len()
            invariant
                0 <= i <= points@.len(),
                self.spec_points_fit(points@),
                out@ == self.spec_offset_points(points@.subrange(0, i as int)),
            decreases points@.len() - i,
        {
            let p = *vstd::slice::slice_index_get(points, i);
            out.push(Point { x: self.rect.x + p.x, y: self.rect.y + p.y });
            proof {
                assert(out@ =~= self.spec_offset_points(points@.subrange(0, (i + 1) as int)));
            }
            i = i + 1;
        }
        proof {
            assert(points@.subrange(0, points@.len() as int) =~= points@);
        }
        out
    }

    /// Draws a line using a cubic bezier curve between two local points.
    pub fn draw_line_bezier(&mut self, start_pos: Point, end_pos: Point, thick: i32, color: Color)
        requires
            old(self).spec_offset_fits(start_pos.x as int, start_pos.y as int),
            old(self).spec_offset_fits(end_pos.x as int, end_pos.y as int),
        ensures
            Context::spec_emitted(
                *old(self),
                *final(self),
                DrawOp::LineBezier {
                    start: old(self).spec_offset_point(start_pos.x as int, start_pos.y as int),
                    end: old(self).spec_offset_point(end_pos.x as int, end_pos.y as int),
                    thick,
                    color,
                },
            ),
    {
        let s = self.offset_point(start_pos);
        let e = self.offset_point(end_pos);
        self.emit(DrawOp::LineBezier { start: s, end: e, thick, color });
    }

    /// Draws a sequence of connected lines through local points.
    pub fn draw_line_strip(&mut self, points: &[Point], color: Color)
        requires
            old(self).spec_points_fit(points@),
        ensures
            final(self).rect == old(self).rect,
            final(self).clip == old(self).clip,
            final(self).input == old(self).input,
            final(self).cmds@.len() == old(self).cmds@.len() + 1,
            final(self).cmds@.subrange(0, old(self).cmds@.len() as int) == old(self).cmds@,
            final(self).cmds@.last().clip == old(self).clip,
            final(self).cmds@.last().op matches DrawOp::LineStrip { points: p, color: c }
                && p@ == old(self).spec_offset_points(points@) && c == color,
    {
        let offset = self.offset_points(points);
        self.emit(DrawOp::LineStrip { points: offset, color });
        proof {
            assert(self.cmds@.subrange(0, old(self).cmds@.len() as int) =~= old(self).cmds@);
        }
    }

    /// Draws a triangle fan defined by local points.
    pub fn draw_triangle_fan(&mut self, points: &[Point], color: Color)
        requires
            old(self).spec_points_fit(points@),
        ensures
            final(self).rect == old(self).rect,
            final(self).clip == old(self).clip,
            final(self).input == old(self).input,
            final(self).cmds@.len() == old(self).cmds@.len() + 1,
            final(self).cmds@.subrange(0, old(self).cmds@.len() as int) == old(self).cmds@,
            final(self).cmds@.last().clip == old(self).clip,
            final(self).cmds@.last().op matches DrawOp::TriangleFan { points: p, color: c }
                && p@ == old(self).spec_offset_points(points@) && c == color,
    {
        let offset = self.offset_points(points);
        self.emit(DrawOp::TriangleFan { points: offset, color });
        proof {
            assert(self.cmds@.subrange(0, old(self).cmds@.len() as int) =~= old(self).cmds@);
        }
    }

    /// Draws a triangle strip defined by local points.
    pub fn draw_triangle_strip(&mut self, points: &[Point], color: Color)
        requires
            old(self).spec_points_fit(points@),
        ensures
            final(self).rect == old(self).rect,
            final(self).clip == old(self).clip,
            final(self).input == old(self).input,
            final(self).cmds@.len() == old(self).cmds@.len() + 1,
            final(self).cmds@.subrange(0, old(self).cmds@.len() as int) == old(self).cmds@,
            final(self).cmds@.last().clip == old(self).clip,
            final(self).cmds@.last().op matches DrawOp::TriangleStrip { points: p, color: c }
                && p@ == old(self).spec_offset_points(points@) && c == color,
    {
        let offset = self.offset_points(points);
        self.emit(DrawOp::TriangleStrip { points: offset, color });
        proof {
            assert(self.cmds@.subrange(0, old(self).cmds@.len() as int) =~= old(self).cmds@);
        }
    }

    /// Draws a linear spline through local points with a given
    /// thickness.
    pub fn draw_spline_linear(&mut self, points: &[Point], thick: i32, color: Color)
        requires
            old(self).spec_points_fit(points@),
        ensures
            final(self).rect == old(self).rect,
            final(self).clip == old(self).clip,
            final(self).input == old(self).input,
            final(self).cmds@.len() == old(self).cmds@.len() + 1,
            final(self).cmds@.subrange(0, old(self).cmds@.len() as int) == old(self).cmds@,
            final(self).cmds@.last().clip == old(self).clip,
            final(self).cmds@.last().op matches DrawOp::SplineLinear {
                points: p,
                thick: t,
                color: c,
            } && p@ == old(self).spec_offset_points(points@) && t == thick && c == color,
    {
        let offset = self.offset_points(points);
        self.emit(DrawOp::SplineLinear { points: offset, thick, color });
        proof {
            assert(self.cmds@.subrange(0, old(self).cmds@.len() as int) =~= old(self).cmds@);
        }
    }

    /// Draws circle outline centred at local `(center_x, center_y)`.
    pub fn draw_circle_lines(&mut self, center_x: i32, center_y: i32, radius: i32, color: Color)
        requires
            old(self).spec_offset_fits(center_x as int, center_y as int),
        ensures
            Context::spec_emitted(
                *old(self),
                *final(self),
                DrawOp::CircleLines {
                    x: (old(self).rect.x + center_x) as i32,
                    y: (old(self).rect.y + center_y) as i32,
                    radius,
                    color,
                },
            ),
    {
        let p = self.offset_xy(center_x, center_y);
        self.emit(DrawOp::CircleLines { x: p.x, y: p.y, radius, color });
    }

    /// Draws a gradient-filled circle.
    pub fn draw_circle_gradient(
        &mut self,
        center_x: i32,
        center_y: i32,
        radius: i32,
        color1: Color,
        color2: Color,
    )
        requires
            old(self).spec_offset_fits(center_x as int, center_y as int),
        ensures
            Context::spec_emitted(
                *old(self),
                *final(self),
                DrawOp::CircleGradient {
                    x: (old(self).rect.x + center_x) as i32,
                    y: (old(self).rect.y + center_y) as i32,
                    radius,
                    color1,
                    color2,
                },
            ),
    {
        let p = self.offset_xy(center_x, center_y);
        self.emit(DrawOp::CircleGradient { x: p.x, y: p.y, radius, color1, color2 });
    }

    /// Draws a filled piece of a circle.
    pub fn draw_circle_sector(
        &mut self,
        center: Point,
        radius: i32,
        start_angle_deg: i32,
        end_angle_deg: i32,
        segments: i32,
        color: Color,
    )
        requires
            old(self).spec_offset_fits(center.x as int, center.y as int),
        ensures
            Context::spec_emitted(
                *old(self),
                *final(self),
                DrawOp::CircleSector {
                    center: old(self).spec_offset_point(center.x as int, center.y as int),
                    radius,
                    start_angle_deg,
                    end_angle_deg,
                    segments,
                    color,
                },
            ),
    {
        let c = self.offset_point(center);
        self.emit(
            DrawOp::CircleSector { center: c, radius, start_angle_deg, end_angle_deg, segments, color },
        );
    }

    /// Draws the outline of a piece of a circle.
    pub fn draw_circle_sector_lines(
        &mut self,
        center: Point,
        radius: i32,
        start_angle_deg: i32,
        end_angle_deg: i32,
        segments: i32,
        color: Color,
    )
        requires
            old(self).spec_offset_fits(center.x as int, center.y as int),
        ensures
            Context::spec_emitted(
                *old(self),
                *final(self),
                DrawOp::CircleSectorLines {
                    center: old(self).spec_offset_point(center.x as int, center.y as int),
                    radius,
                    start_angle_deg,
                    end_angle_deg,
                    segments,
                    color,
                },
            ),
    {
        let c = self.offset_point(center);
        self.emit(
            DrawOp::CircleSectorLines {
                center: c,
                radius,
                start_angle_deg,
                end_angle_deg,
                segments,
                color,
            },
        );
    }

    /// Draws a filled ellipse.
    pub fn draw_ellipse(&mut self, center_x: i32, center_y: i32, radius_h: i32, radius_v: i32, color: Color)
        requires
            old(self).spec_offset_fits(center_x as int, center_y as int),
        ensures
            Context::spec_emitted(
                *old(self),
                *final(self),
                DrawOp::Ellipse {
                    x: (old(self).rect.x + center_x) as i32,
                    y: (old(self).rect.y + center_y) as i32,
                    radius_h,
                    radius_v,
                    color,
                },
            ),
    {
        let p = self.offset_xy(center_x, center_y);
        self.emit(DrawOp::Ellipse { x: p.x, y: p.y, radius_h, radius_v, color });
    }

    /// Draws an ellipse outline.
    pub fn draw_ellipse_lines(
        &mut self,
        center_x: i32,
        center_y: i32,
        radius_h: i32,
        radius_v: i32,
        color: Color,
    )
        requires
            old(self).spec_offset_fits(center_x as int, center_y as int),
        ensures
            Context::spec_emitted(
                *old(self),
                *final(self),
                DrawOp::EllipseLines {
                    x: (old(self).rect.x + center_x) as i32,
                    y: (old(self).rect.y + center_y) as i32,
                    radius_h,
                    radius_v,
                    color,
                },
            ),
    {
        let p = self.offset_xy(center_x, center_y);
        self.emit(DrawOp::EllipseLines { x: p.x, y: p.y, radius_h, radius_v, color });
    }

    /// Draws a filled ring segment.
    pub fn draw_ring(
        &mut self,
        center: Point,
        inner_radius: i32,
        outer_radius: i32,
        start_angle_deg: i32,
        end_angle_deg: i32,
        segments: i32,
        color: Color,
    )
        requires
            old(self).spec_offset_fits(center.x as int, center.y as int),
        ensures
            Context::spec_emitted(
                *old(self),
                *final(self),
                DrawOp::Ring {
                    center: old(self).spec_offset_point(center.x as int, center.y as int),
                    inner_radius,
                    outer_radius,
                    start_angle_deg,
                    end_angle_deg,
                    segments,
                    color,
                },
            ),
    {
        let c = self.offset_point(center);
        self.emit(
            DrawOp::Ring {
                center: c,
                inner_radius,
                outer_radius,
                start_angle_deg,
                end_angle_deg,
                segments,
                color,
            },
        );
    }

    /// Draws the outline of a ring segment.
    pub fn draw_ring_lines(
        &mut self,
        center: Point,
        inner_radius: i32,
        outer_radius: i32,
        start_angle_deg: i32,
        end_angle_deg: i32,
        segments: i32,
        color: Color,
    )
        requires
            old(self).spec_offset_fits(center.x as int, center.y as int),
        ensures
            Context::spec_emitted(
                *old(self),
                *final(self),
                DrawOp::RingLines {
                    center: old(self).spec_offset_point(center.x as int, center.y as int),
                    inner_radius,
                    outer_radius,
                    start_angle_deg,
                    end_angle_deg,
                    segments,
                    color,
                },
            ),
    {
        let c = self.offset_point(center);
        self.emit(
            DrawOp::RingLines {
                center: c,
                inner_radius,
                outer_radius,
                start_angle_deg,
                end_angle_deg,
                segments,
                color,
            },
        );
    }

    /// Draws a triangle outline given by three local points.
    pub fn draw_triangle_lines(&mut self, v1: Point, v2: Point, v3: Point, color: Color)
        requires
            old(self).spec_offset_fits(v1.x as int, v1.y as int),
            old(self).spec_offset_fits(v2.x as int, v2.y as int),
            old(self).spec_offset_fits(v3.x as int, v3.y as int),
        ensures
            Context::spec_emitted(
                *old(self),
                *final(self),
                DrawOp::TriangleLines {
                    v1: old(self).spec_offset_point(v1.x as int, v1.y as int),
                    v2: old(self).spec_offset_point(v2.x as int, v2.y as int),
                    v3: old(self).spec_offset_point(v3.x as int, v3.y as int),
                    color,
                },
            ),
    {
        let p1 = self.offset_point(v1);
        let p2 = self.offset_point(v2);
        let p3 = self.offset_point(v3);
        self.emit(DrawOp::TriangleLines { v1: p1, v2: p2, v3: p3, color });
    }

    /// Draws the outline of a regular polygon of `sides` sides.
    pub fn draw_poly_lines(&mut self, center: Point, sides: i32, radius: i32, rotation_deg: i32, color: Color)
        requires
            old(self).spec_offset_fits(center.x as int, center.y as int),
        ensures
            Context::spec_emitted(
                *old(self),
                *final(self),
                DrawOp::PolyLines {
                    center: old(self).spec_offset_point(center.x as int, center.y as int),
                    sides,
                    radius,
                    rotation_deg,
                    color,
                },
            ),
    {
        let c = self.offset_point(center);
        self.emit(DrawOp::PolyLines { center: c, sides, radius, rotation_deg, color });
    }

    /// Draws the outline of a regular polygon with a given line
    /// thickness.
    pub fn draw_poly_lines_ex(
        &mut self,
        center: Point,
        sides: i32,
        radius: i32,
        rotation_deg: i32,
        line_thick: i32,
        color: Color,
    )
        requires
            old(self).spec_offset_fits(center.x as int, center.y as int),
        ensures
            Context::spec_emitted(
                *old(self),
                *final(self),
                DrawOp::PolyLinesEx {
                    center: old(self).spec_offset_point(center.x as int, center.y as int),
                    sides,
                    radius,
                    rotation_deg,
                    thick: line_thick,
                    color,
                },
            ),
    {
        let c = self.offset_point(center);
        self.emit(
            DrawOp::PolyLinesEx {
                center: c,
                sides,
                radius,
                rotation_deg,
                thick: line_thick,
                color,
            },
        );
    }

    /// Shows the frames-per-second counter at local `(x, y)`.
    pub fn draw_fps(&mut self, x: i32, y: i32)
        requires
            old(self).spec_offset_fits(x as int, y as int),
        ensures
            Context::spec_emitted(
                *old(self),
                *final(self),
                DrawOp::Fps {
                    x: (old(self).rect.x + x) as i32,
                    y: (old(self).rect.y + y) as i32,
                },
            ),
    {
        let p = self.offset_xy(x, y);
        self.emit(DrawOp::Fps { x: p.x, y: p.y });
    }

    /// Draws a texture at a local position, rotated and scaled;
    /// `scale_pct` is the scale in percent.
    pub fn draw_texture_ex(
        &mut self,
        texture: u32,
        position: Point,
        rotation_deg: i32,
        scale_pct: i32,
        tint: Color,
    )
        requires
            old(self).spec_offset_fits(position.x as int, position.y as int),
        ensures
            Context::spec_emitted(
                *old(self),
                *final(self),
                DrawOp::TextureEx {
                    texture,
                    position: old(self).spec_offset_point(position.x as int, position.y as int),
                    rotation_deg,
                    scale_pct,
                    tint,
                },
            ),
    {
        let p = self.offset_point(position);
        self.emit(DrawOp::TextureEx { texture, position: p, rotation_deg, scale_pct, tint });
    }

    /// Draws the part of a texture given by `source_rec` at a local
    /// position.
    pub fn draw_texture_rec(&mut self, texture: u32, source_rec: Region, position: Point, tint: Color)
        requires
            old(self).spec_offset_fits(position.x as int, position.y as int),
        ensures
            Context::spec_emitted(
                *old(self),
                *final(self),
                DrawOp::TextureRec {
                    texture,
                    source: source_rec,
                    position: old(self).spec_offset_point(position.x as int, position.y as int),
                    tint,
                },
            ),
    {
        let p = self.offset_point(position);
        self.emit(DrawOp::TextureRec { texture, source: source_rec, position: p, tint });
    }
}

/// Whether `cmd` is a text command with exactly the given characters,
/// position, font size and color.
pub open spec fn spec_is_text_cmd(
    cmd: DrawCmd,
    text: Seq<char>,
    x: i32,
    y: i32,
    font_size: i32,
    color: Color,
) -> bool {
    cmd.op matches DrawOp::Text { text: t, x: cx, y: cy, font_size: cf, color: cc }
        && t@ == text && cx == x && cy == y && cf == font_size && cc == color
}

/// Copies a character buffer element by element.
fn copy_chars(text: &Vec<char>) -> (r: Vec<char>)
    ensures
        r@ == text@,
{
    let mut out: Vec<char> = Vec::new();
    let mut i: usize = 0;
    while i < text.len()
        invariant
            0 <= i <= text@.len(),
            out@ == text@.subrange(0, i as int),
        decreases text@.len() - i,
    {
        out.push(text[i]);
        assert(out@ =~= text@.subrange(0, (i + 1) as int));
        i = i + 1;
    }
    assert(out@ =~= text@);
    out
}

/// Text measurement is idempotent: the contract of `measure_text` pins
/// its result to a function of the text length and font size alone, so
/// any two results obtained for identical arguments are identical.
pub proof fn lemma_measure_text_idempotent(len: nat, font_size: int, w1: int, w2: int)
    requires
        w1 == spec_text_width(len, font_size),
        w2 == spec_text_width(len, font_size),
    ensures
        w1 == w2,
{
}

/// Narrowing preserves clip nesting: the child's clip lies inside the
/// parent's effective clip (and inside the requested region), and a draw
/// issued through the child at local `(0, 0)` lands at the parent's
/// local `(region.x, region.y)`.
pub proof fn lemma_scissor_nests(parent: Context, region: Region)
    requires
        parent.wf(),
        region.wf(),
        parent.spec_offset_fits(region.x as int, region.y as int),
    ensures
        Region::spec_intersect(
            parent.spec_effective_clip(),
            parent.spec_offset_rect(region),
        ).spec_subset_of(parent.spec_effective_clip()),
        Region::spec_intersect(
            parent.spec_effective_clip(),
            parent.spec_offset_rect(region),
        ).spec_subset_of(parent.spec_offset_rect(region)),
        Context::spec_narrow_rect(parent.rect, region).x == parent.rect.x + region.x,
        Context::spec_narrow_rect(parent.rect, region).y == parent.rect.y + region.y,
{
    crate::geometry::lemma_intersect_subset(
        parent.spec_effective_clip(),
        parent.spec_offset_rect(region),
    );
}

} // verus!
