//! The text widget: a label that can be clicked and edited in place.
//!
//! Each frame the widget re-evaluates its focus state from the pointer,
//! then either runs its editor (when one is active) and draws itself
//! highlighted, or draws itself according to the focus state. A press
//! observed while idle starts editing with the cursor at the end of the
//! text; Enter ends it.

use vstd::prelude::*;

use crate::context::{spec_char_width, spec_is_text_cmd, spec_text_width, Context, DrawOp};
use crate::geometry::{fits_i32, Color, Point, Region};
use crate::ui::{InputHandler, State};
use vstd::arithmetic::mul::lemma_mul_inequality;

verus! {

/// The highlight color for focused widgets, as a spec value.
pub open spec fn spec_accent() -> Color {
    Color { r: 202, g: 165, b: 245, a: 255 }
}

/// A clickable, editable text label.
#[derive(Clone, Debug)]
pub struct Text {
    /// The label's origin in the context's local coordinates.
    pub position: Point,
    /// The label's resting color.
    pub color: Color,
    /// Font size in pixels; never negative.
    pub font_size: i32,
    /// The focus state re-evaluated each frame.
    pub state: State,
    /// The active editor while the label is being edited.
    pub input_handler: Option<InputHandler>,
}

impl Text {
    /// The label's hit rectangle over a text of the given contents.
    pub open spec fn spec_hit_rect(self, text: Seq<char>) -> Region {
        Region {
            x: self.position.x,
            y: self.position.y,
            width: spec_text_width(text.len(), self.font_size as int) as i32,
            height: self.font_size,
        }
    }

    /// The outline drawn around a hovered or focused label: the hit
    /// rectangle padded by five pixels on every side.
    pub open spec fn spec_outline_rect(self, text: Seq<char>) -> Region {
        Region {
            x: (self.position.x - 5) as i32,
            y: (self.position.y - 5) as i32,
            width: (spec_text_width(text.len(), self.font_size as int) + 10) as i32,
            height: (self.font_size + 10) as i32,
        }
    }

    /// If an editor is active, its cursor stays inside the text.
    pub open spec fn spec_edits_ok(self, text: Seq<char>) -> bool {
        match self.input_handler {
            Some(h) => h.valid_for(text),
            None => true,
        }
    }

    /// The machine limits that lay the label out for a text of `len`
    /// characters: the measured width, the padded outline and every
    /// re-based coordinate stay inside `i32`.
    pub open spec fn spec_layout_ok(self, len: nat, ctx: Context) -> bool {
        let w = spec_text_width(len, self.font_size as int);
        &&& self.font_size >= 0
        &&& self.font_size + 10 <= i32::MAX
        &&& w + 10 <= i32::MAX
        &&& fits_i32(self.position.x - 5)
        &&& fits_i32(self.position.y - 5)
        &&& fits_i32(self.position.x + w)
        &&& ctx.spec_offset_fits(self.position.x as int, self.position.y as int)
        &&& ctx.spec_offset_fits(self.position.x - 5, self.position.y - 5)
        &&& ctx.spec_offset_fits(self.position.x + w, self.position.y as int)
    }

    /// A label at `position` in the given color and font size, not
    /// focused and not editing.
    pub fn new(position: Point, color: Color, font_size: i32) -> (t: Text)
        requires
            font_size >= 0,
        ensures
            t.position == position,
            t.color == color,
            t.font_size == font_size,
            t.state is Normal,
            t.input_handler is None,
    {
        Text { position, color, font_size, state: State::Normal, input_handler: None }
    }

    /// The hit rectangle of the label over `text`, used both for the
    /// pointer hit test and to size the outline.
    pub fn rect(&self, text: &Vec<char>, ctx: &Context) -> (r: Region)
        requires
            self.font_size >= 0,
            spec_text_width(text@.len(), self.font_size as int) <= i32::MAX,
        ensures
            r == self.spec_hit_rect(text@),
            r.wf(),
    {
        let width = ctx.measure_text(text.as_slice(), self.font_size);
        proof {
            assert(spec_text_width(text@.len(), self.font_size as int) >= 0) by (nonlinear_arith)
                requires
                    spec_char_width(self.font_size as int) >= 0,
                    spec_text_width(text@.len(), self.font_size as int) == text@.len()
                        * spec_char_width(self.font_size as int),
            ;
        }
        Region::new(self.position.x, self.position.y, width, self.font_size)
    }

    /// Draws the label in its resting color.
    pub fn normal(&self, text: &Vec<char>, ctx: &mut Context)
        requires
            old(ctx).spec_offset_fits(self.position.x as int, self.position.y as int),
        ensures
            final(ctx).rect == old(ctx).rect,
            final(ctx).clip == old(ctx).clip,
            final(ctx).input == old(ctx).input,
            final(ctx).cmds@.len() == old(ctx).cmds@.len() + 1,
            final(ctx).cmds@.subrange(0, old(ctx).cmds@.len() as int) == old(ctx).cmds@,
            spec_is_text_cmd(
                final(ctx).cmds@.last(),
                text@,
                (old(ctx).rect.x + self.position.x) as i32,
                (old(ctx).rect.y + self.position.y) as i32,
                self.font_size,
                self.color,
            ),
    {
        ctx.draw_text(text, self.position.x, self.position.y, self.font_size, self.color);
    }

    /// Draws the label in `color` and surrounds it with a one-pixel
    /// outline in the same color.
    fn label_with_outline(&self, text: &Vec<char>, color: Color, ctx: &mut Context)
        requires
            self.spec_layout_ok(text@.len(), *old(ctx)),
        ensures
            final(ctx).rect == old(ctx).rect,
            final(ctx).clip == old(ctx).clip,
            final(ctx).input == old(ctx).input,
            final(ctx).cmds@.len() == old(ctx).cmds@.len() + 2,
            final(ctx).cmds@.subrange(0, old(ctx).cmds@.len() as int) == old(ctx).cmds@,
            spec_is_text_cmd(
                final(ctx).cmds@[old(ctx).cmds@.len() as int],
                text@,
                (old(ctx).rect.x + self.position.x) as i32,
                (old(ctx).rect.y + self.position.y) as i32,
                self.font_size,
                color,
            ),
            final(ctx).cmds@.last().clip == old(ctx).clip,
            final(ctx).cmds@.last().op == (DrawOp::RectangleLinesEx {
                rect: old(ctx).spec_offset_rect(self.spec_outline_rect(text@)),
                thick: 1,
                color,
            }),
    {
        ctx.draw_text(text, self.position.x, self.position.y, self.font_size, color);
        let hit = self.rect(text, ctx);
        let outline = hit.pad(5);
        ctx.draw_rectangle_lines_ex(outline, 1, color);
        proof {
            assert(final(ctx).cmds@.subrange(0, old(ctx).cmds@.len() as int) =~= old(
                ctx,
            ).cmds@);
        }
    }

    /// Draws the hovered form: the label in its resting color with an
    /// outline.
    pub fn hover(&self, text: &Vec<char>, ctx: &mut Context)
        requires
            self.spec_layout_ok(text@.len(), *old(ctx)),
        ensures
            final(ctx).rect == old(ctx).rect,
            final(ctx).clip == old(ctx).clip,
            final(ctx).input == old(ctx).input,
            final(ctx).cmds@.len() == old(ctx).cmds@.len() + 2,
            final(ctx).cmds@.subrange(0, old(ctx).cmds@.len() as int) == old(ctx).cmds@,
            spec_is_text_cmd(
                final(ctx).cmds@[old(ctx).cmds@.len() as int],
                text@,
                (old(ctx).rect.x + self.position.x) as i32,
                (old(ctx).rect.y + self.position.y) as i32,
                self.font_size,
                self.color,
            ),
            final(ctx).cmds@.last().op == (DrawOp::RectangleLinesEx {
                rect: old(ctx).spec_offset_rect(self.spec_outline_rect(text@)),
                thick: 1,
                color: self.color,
            }),
    {
        self.label_with_outline(text, self.color, ctx);
    }

    /// Draws the focused form: the label and outline in the accent
    /// color, plus the caret while the blink timer is in the visible
    /// half of its period.
    pub fn active(&self, text: &Vec<char>, ctx: &mut Context)
        requires
            self.spec_layout_ok(text@.len(), *old(ctx)),
            self.spec_edits_ok(text@),
        ensures
            final(ctx).rect == old(ctx).rect,
            final(ctx).clip == old(ctx).clip,
            final(ctx).input == old(ctx).input,
            final(ctx).cmds@.subrange(0, old(ctx).cmds@.len() as int) == old(ctx).cmds@,
            spec_is_text_cmd(
                final(ctx).cmds@[old(ctx).cmds@.len() as int],
                text@,
                (old(ctx).rect.x + self.position.x) as i32,
                (old(ctx).rect.y + self.position.y) as i32,
                self.font_size,
                spec_accent(),
            ),
            final(ctx).cmds@[old(ctx).cmds@.len() as int + 1].op == (DrawOp::RectangleLinesEx {
                rect: old(ctx).spec_offset_rect(self.spec_outline_rect(text@)),
                thick: 1,
                color: spec_accent(),
            }),
            ({
                let caret_shown = match self.input_handler {
                    Some(h) => InputHandler::spec_caret_visible(h.timer),
                    None => false,
                };
                &&& final(ctx).cmds@.len() == old(ctx).cmds@.len() + (
                    if caret_shown {
                        3int
                    } else {
                        2int
                    }
                )
                &&& (caret_shown ==> (self.input_handler matches Some(h) && spec_is_text_cmd(
                    final(ctx).cmds@.last(),
                    seq!['|'],
                    (old(ctx).rect.x + self.position.x + spec_text_width(
                        h.cursor as nat,
                        self.font_size as int,
                    )) as i32,
                    (old(ctx).rect.y + self.position.y) as i32,
                    self.font_size,
                    Color { r: 205, g: 214, b: 244, a: 255 },
                )))
            }),
    {
        let accent = Color { r: 202, g: 165, b: 245, a: 255 };
        self.label_with_outline(text, accent, ctx);
        match &self.input_handler {
            Some(input_handler) => {
                proof {
                    lemma_mul_inequality(
                        input_handler.cursor as int,
                        text@.len() as int,
                        spec_char_width(self.font_size as int),
                    );
                }
                input_handler.draw_cursor(text, self.position, self.font_size, accent, ctx);
                proof {
                    assert(final(ctx).cmds@.subrange(0, old(ctx).cmds@.len() as int) =~= old(
                        ctx,
                    ).cmds@);
                }
            },
            None => {},
        }
    }

    /// Starts editing: a press observed this frame arms a fresh editor
    /// with the cursor at the end of the text.
    pub fn pressed(&mut self, text: &Vec<char>, ctx: &mut Context)
        ensures
            final(self).input_handler == Some(
                InputHandler { cursor: text@.len() as usize, timer: 0, repeat: None },
            ),
            final(self).position == old(self).position,
            final(self).color == old(self).color,
            final(self).font_size == old(self).font_size,
            final(self).state == old(self).state,
            *final(ctx) == *old(ctx),
    {
        self.input_handler = Some(InputHandler::new(text));
    }

    /// Draws the widget when no editor is active, according to the focus
    /// state established this frame: resting label, hovered label with
    /// outline, or — on a press — nothing drawn and a fresh editor
    /// armed.
    pub fn inactive(&mut self, text: &Vec<char>, ctx: &mut Context)
        requires
            old(self).spec_layout_ok(text@.len(), *old(ctx)),
        ensures
            final(ctx).rect == old(ctx).rect,
            final(ctx).clip == old(ctx).clip,
            final(ctx).input == old(ctx).input,
            final(self).position == old(self).position,
            final(self).color == old(self).color,
            final(self).font_size == old(self).font_size,
            final(self).state == old(self).state,
            old(self).state is Pressed ==> final(self).input_handler == Some(
                InputHandler { cursor: text@.len() as usize, timer: 0, repeat: None },
            ) && final(ctx).cmds@ == old(ctx).cmds@,
            !(old(self).state is Pressed) ==> final(self).input_handler == old(
                self,
            ).input_handler,
            old(self).state is Normal ==> final(ctx).cmds@.len() == old(ctx).cmds@.len() + 1
                && final(ctx).cmds@.subrange(0, old(ctx).cmds@.len() as int) == old(ctx).cmds@
                && spec_is_text_cmd(
                final(ctx).cmds@.last(),
                text@,
                (old(ctx).rect.x + old(self).position.x) as i32,
                (old(ctx).rect.y + old(self).position.y) as i32,
                old(self).font_size,
                old(self).color,
            ),
            old(self).state is Hovered ==> final(ctx).cmds@.len() == old(ctx).cmds@.len() + 2
                && final(ctx).cmds@.subrange(0, old(ctx).cmds@.len() as int) == old(ctx).cmds@,
    {
        match self.state {
            State::Normal => {
                let this = &*self;
                this.normal(text, ctx);
            },
            State::Hovered => {
                let this = &*self;
                this.hover(text, ctx);
            },
            State::Pressed => self.pressed(text, ctx),
        }
    }

    /// One whole frame of the widget: re-evaluate the focus state from
    /// the pointer against the label's hit rectangle, then either run
    /// the active editor over the caller's buffer and draw the focused
    /// form, or draw according to the focus state (arming a fresh editor
    /// on a press). The layout budget asks for one character of slack
    /// because an editor step can grow the text by at most one.
    pub fn draw(&mut self, text: &mut Vec<char>, ctx: &mut Context)
        requires
            old(self).spec_layout_ok((old(text)@.len() + 1) as nat, *old(ctx)),
            old(self).spec_edits_ok(old(text)@),
        ensures
            final(ctx).rect == old(ctx).rect,
            final(ctx).clip == old(ctx).clip,
            final(ctx).input == old(ctx).input,
            old(ctx).cmds@.is_prefix_of(final(ctx).cmds@),
            final(self).position == old(self).position,
            final(self).color == old(self).color,
            final(self).font_size == old(self).font_size,
            final(self).state == State::spec_transition(
                old(self).spec_hit_rect(old(text)@),
                old(ctx).input,
            ),
            match old(self).input_handler {
                Some(h) => {
                    let step = h.spec_step(old(text)@, old(ctx).input);
                    &&& final(text)@ == step.1
                    &&& final(self).input_handler == (
                    if step.2 {
                        Some(step.0)
                    } else {
                        None::<InputHandler>
                    })
                },
                None => {
                    &&& final(text)@ == old(text)@
                    &&& final(self).input_handler == (
                    if State::spec_transition(
                        old(self).spec_hit_rect(old(text)@),
                        old(ctx).input,
                    ) is Pressed {
                        Some(
                            InputHandler {
                                cursor: old(text)@.len() as usize,
                                timer: 0,
                                repeat: None,
                            },
                        )
                    } else {
                        None::<InputHandler>
                    })
                },
            },
            final(self).spec_edits_ok(final(text)@),
    {
        proof {
            lemma_layout_mono(*self, text@.len(), (text@.len() + 1) as nat, *ctx);
        }
        let hit = self.rect(text, ctx);
        self.state.update(hit, ctx);
        match self.input_handler {
            Some(mut h) => {
                let cont = h.update(text, ctx);
                if cont {
                    self.input_handler = Some(h);
                } else {
                    self.input_handler = None;
                }
                proof {
                    lemma_layout_mono(*self, text@.len(), (old(text)@.len() + 1) as nat, *ctx);
                }
                let this = &*self;
                this.active(text, ctx);
                proof {
                    assert(old(ctx).cmds@.is_prefix_of(ctx.cmds@));
                }
            },
            None => {
                self.inactive(text, ctx);
                proof {
                    assert(old(ctx).cmds@.is_prefix_of(ctx.cmds@));
                }
            },
        }
    }
}

/// A shorter layout budget always satisfies a longer one: the measured
/// width only shrinks as the text shrinks.
pub proof fn lemma_layout_mono(t: Text, len1: nat, len2: nat, ctx: Context)
    requires
        len1 <= len2,
        t.spec_layout_ok(len2, ctx),
    ensures
        t.spec_layout_ok(len1, ctx),
{
    lemma_mul_inequality(len1 as int, len2 as int, spec_char_width(t.font_size as int));
    assert(spec_text_width(len1, t.font_size as int) >= 0) by (nonlinear_arith)
        requires
            spec_char_width(t.font_size as int) >= 0,
            spec_text_width(len1, t.font_size as int) == len1 * spec_char_width(
                t.font_size as int,
            ),
    ;
}

} // verus!
