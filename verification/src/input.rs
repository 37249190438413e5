//! The per-frame input snapshot.
//!
//! The platform layer polls keyboard and mouse state once per frame and
//! hands the result to the library as plain data. Widgets read the
//! snapshot instead of re-polling, so their behaviour is a pure function
//! of it. Keyboard keys cross the persistence boundary as raw integers;
//! `Key::from_code` is the single fallible decoder for that mapping.

use vstd::prelude::*;

use crate::geometry::Point;

verus! {

/// The keyboard keys the widget layer reacts to. The numeric codes used
/// for persistence follow the platform layer's key numbering.
#[derive(Clone, Copy, Debug, PartialEq, Eq, Structural)]
pub enum Key {
    Enter,
    Backspace,
    Delete,
    Right,
    Left,
}

impl Key {
    /// The raw integer code used when a key is stored or transmitted.
    pub fn code(self) -> (c: u32)
        ensures
            c == self.spec_code(),
    {
        match self {
            Key::Enter => 257,
            Key::Backspace => 259,
            Key::Delete => 261,
            Key::Right => 262,
            Key::Left => 263,
        }
    }

    pub open spec fn spec_code(self) -> u32 {
        match self {
            Key::Enter => 257,
            Key::Backspace => 259,
            Key::Delete => 261,
            Key::Right => 262,
            Key::Left => 263,
        }
    }

    /// Decodes a raw key code. An unrecognized code yields `None` rather
    /// than an undefined key, so a malformed value read back from
    /// persistence degrades to "unknown key" instead of a panic.
    pub fn from_code(code: u32) -> (k: Option<Key>)
        ensures
            k == Key::spec_from_code(code),
    {
        match code {
            257 => Some(Key::Enter),
            259 => Some(Key::Backspace),
            261 => Some(Key::Delete),
            262 => Some(Key::Right),
            263 => Some(Key::Left),
            _ => None,
        }
    }

    pub open spec fn spec_from_code(code: u32) -> Option<Key> {
        if code == 257 {
            Some(Key::Enter)
        } else if code == 259 {
            Some(Key::Backspace)
        } else if code == 261 {
            Some(Key::Delete)
        } else if code == 262 {
            Some(Key::Right)
        } else if code == 263 {
            Some(Key::Left)
        } else {
            None
        }
    }
}

/// Encoding a key and decoding the result always restores the key, and
/// decoding never confuses two distinct keys.
pub proof fn lemma_key_code_round_trip(k: Key)
    ensures
        Key::spec_from_code(k.spec_code()) == Some(k),
{
}

/// The mouse buttons the platform reports.
#[derive(Clone, Copy, Debug, PartialEq, Eq, Structural)]
pub enum MouseButton {
    Left,
    Right,
    Middle,
}

/// Everything the platform polled at the top of the frame, as plain data.
/// `pressed` holds the keys that transitioned to pressed this frame,
/// `down` the keys currently held, `released` the keys that transitioned
/// to released; `buttons_pressed` is the same edge event for mouse
/// buttons. `ch` is the last printable character typed this frame.
pub struct InputSnapshot {
    pub mouse: Point,
    pub pressed: Vec<Key>,
    pub down: Vec<Key>,
    pub released: Vec<Key>,
    pub buttons_pressed: Vec<MouseButton>,
    pub ch: Option<char>,
}

impl InputSnapshot {
    /// A frame in which nothing was pressed and the pointer sits at the
    /// origin.
    pub fn idle() -> (s: InputSnapshot)
        ensures
            s.mouse == (Point { x: 0, y: 0 }),
            s.pressed@ == Seq::<Key>::empty(),
            s.down@ == Seq::<Key>::empty(),
            s.released@ == Seq::<Key>::empty(),
            s.buttons_pressed@ == Seq::<MouseButton>::empty(),
            s.ch is None,
    {
        InputSnapshot {
            mouse: Point { x: 0, y: 0 },
            pressed: Vec::new(),
            down: Vec::new(),
            released: Vec::new(),
            buttons_pressed: Vec::new(),
            ch: None,
        }
    }

    pub fn is_key_pressed(&self, key: Key) -> (r: bool)
        ensures
            r == self.pressed@.contains(key),
    {
        contains_key(&self.pressed, key)
    }

    pub fn is_key_down(&self, key: Key) -> (r: bool)
        ensures
            r == self.down@.contains(key),
    {
        contains_key(&self.down, key)
    }

    pub fn is_key_released(&self, key: Key) -> (r: bool)
        ensures
            r == self.released@.contains(key),
    {
        contains_key(&self.released, key)
    }

    pub fn is_mouse_button_pressed(&self, button: MouseButton) -> (r: bool)
        ensures
            r == self.buttons_pressed@.contains(button),
    {
        let mut i: usize = 0;
        while i < self.buttons_pressed.len()
            invariant
                0 <= i <= self.buttons_pressed@.len(),
                forall|j: int| 0 <= j < i ==> self.buttons_pressed@[j] != button,
            decreases self.buttons_pressed@.len() - i,
        {
            if self.buttons_pressed[i] == button {
                assert(self.buttons_pressed@[i as int] == button);
                return true;
            }
            i = i + 1;
        }
        false
    }
}

/// Linear search for a key in a polled key list.
fn contains_key(keys: &Vec<Key>, key: Key) -> (r: bool)
    ensures
        r == keys@.contains(key),
{
    let mut i: usize = 0;
    while i < keys.len()
        invariant
            0 <= i <= keys@.len(),
            forall|j: int| 0 <= j < i ==> keys@[j] != key,
        decreases keys@.len() - i,
    {
        if keys[i] == key {
            assert(keys@[i as int] == key);
            return true;
        }
        i = i + 1;
    }
    false
}

} // verus!
