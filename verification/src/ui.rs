//! The widget layer: theme colors, the per-widget focus state machine,
//! and the in-place text editor with its key-repeat policy.

pub mod page;
pub mod text;

use vstd::prelude::*;

use crate::context::{spec_char_width, spec_is_text_cmd, spec_text_width, Context};
use crate::geometry::{fits_i32, Color, Point, Region};
use crate::input::{InputSnapshot, Key, MouseButton};
use vstd::arithmetic::mul::lemma_mul_inequality;
use vstd::slice::slice_subrange;

verus! {

/// The surface color the platform clears the frame to.
pub fn background_color() -> (c: Color)
    ensures
        c == (Color { r: 30, g: 30, b: 46, a: 255 }),
{
    Color { r: 30, g: 30, b: 46, a: 255 }
}

/// The default text color.
pub fn text_color() -> (c: Color)
    ensures
        c == (Color { r: 205, g: 214, b: 244, a: 255 }),
{
    Color { r: 205, g: 214, b: 244, a: 255 }
}

/// The highlight color for focused widgets.
pub fn accent_color() -> (c: Color)
    ensures
        c == (Color { r: 202, g: 165, b: 245, a: 255 }),
{
    Color { r: 202, g: 165, b: 245, a: 255 }
}

/// The default font size, in pixels.
pub const TEXT_SIZE: i32 = 20;

/// The per-widget interaction state, re-evaluated from the pointer once
/// per frame. An editing supermode is layered on top by the owning
/// widget, because editing persists across frames whose hit test alone
/// would report `Normal`.
#[derive(Clone, Copy, Debug, PartialEq, Eq, Structural)]
pub enum State {
    Normal,
    Hovered,
    Pressed,
}

impl State {
    pub fn pressed(&self) -> (r: bool)
        ensures
            r == (*self is Pressed),
    {
        match self {
            State::Pressed => true,
            _ => false,
        }
    }

    pub fn hovered(&self) -> (r: bool)
        ensures
            r == (*self is Hovered),
    {
        match self {
            State::Hovered => true,
            _ => false,
        }
    }

    pub fn normal(&self) -> (r: bool)
        ensures
            r == (*self is Normal),
    {
        match self {
            State::Normal => true,
            _ => false,
        }
    }

    /// The frame's transition rule: the pointer inside the hit region
    /// makes the widget `Hovered`, otherwise `Normal`; a hovered widget
    /// whose primary button transitioned to pressed this frame becomes
    /// `Pressed`. The previous state carries no weight: every frame's hit
    /// test starts fresh.
    pub open spec fn spec_transition(rect: Region, input: InputSnapshot) -> State {
        if rect.spec_contains(input.mouse.x as int, input.mouse.y as int) {
            if input.buttons_pressed@.contains(MouseButton::Left) {
                State::Pressed
            } else {
                State::Hovered
            }
        } else {
            State::Normal
        }
    }

    /// Evaluates the transition rule once for this frame against the
    /// widget's hit region.
    pub fn update(&mut self, rect: Region, ctx: &Context)
        ensures
            *final(self) == State::spec_transition(rect, ctx.input),
    {
        if rect.contains_point(ctx.get_mouse_position()) {
            *self = State::Hovered;
        } else {
            *self = State::Normal;
        }
        if self.hovered() && ctx.is_mouse_button_pressed(MouseButton::Left) {
            *self = State::Pressed;
        }
    }
}

/// `t + 1`, wrapping at the top of `u32`.
pub open spec fn spec_wrap_inc(t: u32) -> u32 {
    if t == u32::MAX {
        0
    } else {
        (t + 1) as u32
    }
}

/// The armed repeat record with its held-frame counter advanced by one.
pub open spec fn spec_tick_repeat(rep: Option<(Key, u32)>) -> Option<(Key, u32)> {
    match rep {
        Some((k, t)) => Some((k, spec_wrap_inc(t))),
        None => None,
    }
}

/// The key-repeat firing rule: a key fires on the frame it transitions
/// to pressed, and, while it stays held with its repeat record armed, on
/// every frame whose held count is a multiple of ten.
pub open spec fn spec_key_fires(rep: Option<(Key, u32)>, key: Key, inp: InputSnapshot) -> bool {
    if inp.pressed@.contains(key) {
        true
    } else {
        match rep {
            Some((k, t)) => k == key && inp.down@.contains(key) && t % 10 == 0,
            None => false,
        }
    }
}

/// How one repeat-tracked key probe changes the armed record: a fresh
/// press arms `(key, 0)` (replacing any other record); releasing the
/// recorded key clears the record; anything else leaves it alone.
pub open spec fn spec_key_repeat_after(
    rep: Option<(Key, u32)>,
    key: Key,
    inp: InputSnapshot,
) -> Option<(Key, u32)> {
    if inp.pressed@.contains(key) {
        Some((key, 0))
    } else {
        match rep {
            Some((k, _t)) => if k == key && !inp.down@.contains(key) {
                None
            } else {
                rep
            },
            None => None,
        }
    }
}

/// The outcome of one editor evaluation: whether a hot key fired, the
/// repeat record, the cursor, and the text afterwards.
pub open spec fn spec_erase_before_cursor(
    rep: Option<(Key, u32)>,
    cursor: usize,
    text: Seq<char>,
) -> (bool, Option<(Key, u32)>, usize, Seq<char>) {
    if cursor > 0 {
        (true, rep, (cursor - 1) as usize, text.remove(cursor - 1))
    } else {
        (true, rep, cursor, text)
    }
}

/// The hot-key pass, in its fixed priority order: Delete, then
/// Backspace, then Left, then Right. Each probe advances the repeat
/// record as `spec_key_repeat_after` says, and probing stops at the
/// first key that fires. Returns (fired, repeat, cursor, text).
pub open spec fn spec_hot_keys(
    rep: Option<(Key, u32)>,
    cursor: usize,
    text: Seq<char>,
    inp: InputSnapshot,
) -> (bool, Option<(Key, u32)>, usize, Seq<char>) {
    let rep_d = spec_key_repeat_after(rep, Key::Delete, inp);
    if spec_key_fires(rep, Key::Delete, inp) {
        spec_erase_before_cursor(rep_d, cursor, text)
    } else {
        let rep_b = spec_key_repeat_after(rep_d, Key::Backspace, inp);
        if spec_key_fires(rep_d, Key::Backspace, inp) {
            spec_erase_before_cursor(rep_b, cursor, text)
        } else {
            let rep_l = spec_key_repeat_after(rep_b, Key::Left, inp);
            if spec_key_fires(rep_b, Key::Left, inp) {
                if cursor > 0 {
                    (true, rep_l, (cursor - 1) as usize, text)
                } else {
                    (true, rep_l, cursor, text)
                }
            } else {
                let rep_r = spec_key_repeat_after(rep_l, Key::Right, inp);
                if spec_key_fires(rep_l, Key::Right, inp) {
                    if (cursor as int) < text.len() {
                        (true, rep_r, (cursor + 1) as usize, text)
                    } else {
                        (true, rep_r, cursor, text)
                    }
                } else {
                    (false, rep_r, cursor, text)
                }
            }
        }
    }
}

/// The in-place text editor: a cursor into an externally owned character
/// buffer, a blink timer, and at most one armed key-repeat record.
#[derive(Clone, Copy, Debug)]
pub struct InputHandler {
    /// Index into the edited text; `0 <= cursor <= len(text)` for every
    /// reachable editor state.
    pub cursor: usize,
    /// Frames since editing began; drives the caret blink.
    pub timer: u32,
    /// The one armed repeat record `(key, frames_held)`, if any.
    pub repeat: Option<(Key, u32)>,
}

impl InputHandler {
    /// The cursor stays inside the text it edits.
    pub open spec fn valid_for(self, text: Seq<char>) -> bool {
        self.cursor <= text.len()
    }

    /// One whole editor evaluation for a frame: the blink timer and any
    /// held-frame counter advance first; Enter ends editing; otherwise
    /// the hot-key pass runs, and if no hot key fired, the frame's
    /// printable character (if any) is inserted at the cursor. Returns
    /// (editor, text, whether editing continues).
    pub open spec fn spec_step(
        self,
        text: Seq<char>,
        inp: InputSnapshot,
    ) -> (InputHandler, Seq<char>, bool) {
        let timer = spec_wrap_inc(self.timer);
        let rep = spec_tick_repeat(self.repeat);
        if inp.pressed@.contains(Key::Enter) {
            (InputHandler { cursor: self.cursor, timer, repeat: rep }, text, false)
        } else {
            let hk = spec_hot_keys(rep, self.cursor, text, inp);
            if hk.0 {
                (InputHandler { cursor: hk.2, timer, repeat: hk.1 }, hk.3, true)
            } else {
                match inp.ch {
                    Some(c) => (
                        InputHandler {
                            cursor: (self.cursor + 1) as usize,
                            timer,
                            repeat: hk.1,
                        },
                        text.insert(self.cursor as int, c),
                        true,
                    ),
                    None => (
                        InputHandler { cursor: self.cursor, timer, repeat: hk.1 },
                        text,
                        true,
                    ),
                }
            }
        }
    }

    /// A fresh editor over `text`, with the cursor at the end.
    pub fn new(text: &Vec<char>) -> (h: InputHandler)
        ensures
            h.cursor == text@.len(),
            h.timer == 0,
            h.repeat is None,
            h.valid_for(text@),
    {
        InputHandler { cursor: text.len(), timer: 0, repeat: None }
    }

    /// One repeat-tracked key probe: fires as `spec_key_fires` says and
    /// advances the armed record as `spec_key_repeat_after` says. Only
    /// one key is ever armed; pressing a different tracked key replaces
    /// the record.
    pub fn key(&mut self, key: Key, ctx: &Context) -> (fired: bool)
        ensures
            fired == spec_key_fires(old(self).repeat, key, ctx.input),
            final(self).repeat == spec_key_repeat_after(old(self).repeat, key, ctx.input),
            final(self).cursor == old(self).cursor,
            final(self).timer == old(self).timer,
    {
        if ctx.is_key_pressed(key) {
            self.repeat = Some((key, 0));
            true
        } else {
            match self.repeat {
                Some((k, t)) => {
                    if k == key {
                        if ctx.is_key_down(key) {
                            t % 10 == 0
                        } else {
                            self.repeat = None;
                            false
                        }
                    } else {
                        false
                    }
                },
                None => false,
            }
        }
    }

    /// The hot-key pass: Delete or Backspace erase the character before
    /// the cursor, Left and Right move it, all under the key-repeat
    /// policy; returns whether any hot key consumed the frame.
    pub fn hot_keys(&mut self, text: &mut Vec<char>, ctx: &Context) -> (fired: bool)
        requires
            old(self).valid_for(old(text)@),
        ensures
            ({
                let hk = spec_hot_keys(
                    old(self).repeat,
                    old(self).cursor,
                    old(text)@,
                    ctx.input,
                );
                &&& fired == hk.0
                &&& final(self).repeat == hk.1
                &&& final(self).cursor == hk.2
                &&& final(text)@ == hk.3
            }),
            final(self).timer == old(self).timer,
            final(self).valid_for(final(text)@),
    {
        if self.key(Key::Delete, ctx) || self.key(Key::Backspace, ctx) {
            if self.cursor > 0 {
                text.remove(self.cursor - 1);
                self.cursor = self.cursor - 1;
            }
            true
        } else if self.key(Key::Left, ctx) {
            if self.cursor > 0 {
                self.cursor = self.cursor - 1;
            }
            true
        } else if self.key(Key::Right, ctx) {
            if self.cursor < text.len() {
                self.cursor = self.cursor + 1;
            }
            true
        } else {
            false
        }
    }

    /// One per-frame editor evaluation over the externally owned buffer;
    /// returns whether editing continues (false once Enter is pressed).
    /// The cursor invariant `cursor <= len(text)` is preserved by every
    /// step.
    pub fn update(&mut self, text: &mut Vec<char>, ctx: &Context) -> (continues: bool)
        requires
            old(self).valid_for(old(text)@),
        ensures
            ({
                let step = old(self).spec_step(old(text)@, ctx.input);
                &&& *final(self) == step.0
                &&& final(text)@ == step.1
                &&& continues == step.2
            }),
            final(self).valid_for(final(text)@),
    {
        if self.timer == u32::MAX {
            self.timer = 0;
        } else {
            self.timer = self.timer + 1;
        }
        match self.repeat {
            Some((k, t)) => {
                if t == u32::MAX {
                    self.repeat = Some((k, 0));
                } else {
                    self.repeat = Some((k, t + 1));
                }
            },
            None => {},
        }
        if ctx.is_key_pressed(Key::Enter) {
            return false;
        }
        if self.hot_keys(text, ctx) {
            return true;
        }
        match ctx.get_char_pressed() {
            Some(c) => {
                text.insert(self.cursor, c);
                let grown: usize = text.len();
                assert(self.cursor < grown);
                self.cursor = self.cursor + 1;
            },
            None => {},
        }
        true
    }

    /// Whether the caret is visible at the given blink-timer value: on
    /// for thirty frames, off for thirty, with a period of sixty.
    pub open spec fn spec_caret_visible(timer: u32) -> bool {
        timer % 60 < 30
    }

    /// Draws the caret while the blink timer is in the visible half of
    /// its period, at the width of the text before the cursor; emits
    /// nothing in the hidden half.
    pub fn draw_cursor(
        &self,
        text: &Vec<char>,
        position: Point,
        font_size: i32,
        color: Color,
        ctx: &mut Context,
    )
        requires
            self.valid_for(text@),
            font_size >= 0,
            spec_text_width(text@.len(), font_size as int) <= i32::MAX,
            fits_i32(
                position.x + spec_text_width(self.cursor as nat, font_size as int),
            ),
            old(ctx).spec_offset_fits(
                position.x + spec_text_width(self.cursor as nat, font_size as int),
                position.y as int,
            ),
        ensures
            final(ctx).rect == old(ctx).rect,
            final(ctx).clip == old(ctx).clip,
            final(ctx).input == old(ctx).input,
            !InputHandler::spec_caret_visible(self.timer) ==> final(ctx).cmds@ == old(
                ctx,
            ).cmds@,
            InputHandler::spec_caret_visible(self.timer) ==> {
                &&& final(ctx).cmds@.len() == old(ctx).cmds@.len() + 1
                &&& final(ctx).cmds@.subrange(0, old(ctx).cmds@.len() as int) == old(ctx).cmds@
                &&& final(ctx).cmds@.last().clip == old(ctx).clip
                &&& spec_is_text_cmd(
                    final(ctx).cmds@.last(),
                    seq!['|'],
                    (old(ctx).rect.x + position.x + spec_text_width(
                        self.cursor as nat,
                        font_size as int,
                    )) as i32,
                    (old(ctx).rect.y + position.y) as i32,
                    font_size,
                    Color { r: 205, g: 214, b: 244, a: 255 },
                )
            },
    {
        if self.timer % 60 < 30 {
            let prefix: &[char] = slice_subrange(text.as_slice(), 0, self.cursor);
            proof {
                lemma_mul_inequality(
                    self.cursor as int,
                    text@.len() as int,
                    spec_char_width(font_size as int),
                );
            }
            let cursor_position = ctx.measure_text(prefix, font_size);
            let mut bar: Vec<char> = Vec::new();
            bar.push('|');
            proof {
                assert(bar@ =~= seq!['|']);
            }
            ctx.draw_text(&bar, position.x + cursor_position, position.y, font_size, text_color());
        }
    }
}

/// The editor's cursor invariant: every reachable editor state keeps
/// `0 <= cursor <= len(text)`. A fresh editor starts with the cursor at
/// the end of the text, and one per-frame step over a valid state
/// yields a valid state again, so the invariant holds by induction over
/// the frames.
pub proof fn lemma_editor_step_keeps_cursor_in_text(
    h: InputHandler,
    text: Seq<char>,
    inp: InputSnapshot,
)
    requires
        h.valid_for(text),
    ensures
        h.spec_step(text, inp).0.valid_for(h.spec_step(text, inp).1),
{
}

/// The caret blink cycle: visible for timer values 0 through 29, hidden
/// for 30 through 59, repeating with period 60.
pub proof fn lemma_caret_blink_cycle(t: u32)
    ensures
        t < 30 ==> InputHandler::spec_caret_visible(t),
        30 <= t < 60 ==> !InputHandler::spec_caret_visible(t),
        t + 60 <= u32::MAX ==> InputHandler::spec_caret_visible((t + 60) as u32)
            == InputHandler::spec_caret_visible(t),
{
    if t < 60 {
        vstd::arithmetic::div_mod::lemma_small_mod(t as nat, 60);
    }
    if t + 60 <= u32::MAX {
        vstd::arithmetic::div_mod::lemma_add_mod_noop(t as int, 60, 60);
        vstd::arithmetic::div_mod::lemma_mod_self_0(60);
        vstd::arithmetic::div_mod::lemma_mod_twice(t as int, 60);
    }
}

} // verus!
