use qlcpp::context::{Context, DrawOp};
use qlcpp::geometry::Point;
use qlcpp::input::{InputSnapshot, Key};
use qlcpp::ui::InputHandler;

fn chars(s: &str) -> Vec<char> {
    s.chars().collect()
}

fn text_of(v: &[char]) -> String {
    v.iter().collect()
}

fn ctx_with(input: InputSnapshot) -> Context {
    Context::new(640, 480, input)
}

fn idle() -> InputSnapshot {
    InputSnapshot::idle()
}

fn key_edge(key: Key) -> InputSnapshot {
    let mut s = InputSnapshot::idle();
    s.pressed = vec![key];
    s.down = vec![key];
    s
}

fn key_held(key: Key) -> InputSnapshot {
    let mut s = InputSnapshot::idle();
    s.down = vec![key];
    s
}

fn char_typed(c: char) -> InputSnapshot {
    let mut s = InputSnapshot::idle();
    s.ch = Some(c);
    s
}

#[test]
fn new_editor_cursor_at_end() {
    let text = chars("DMX");
    let h = InputHandler::new(&text);
    assert_eq!(h.cursor, 3);
    assert_eq!(h.timer, 0);
    assert!(h.repeat.is_none());
}

#[test]
fn backspace_removes_before_cursor() {
    let mut text = chars("DMX");
    let mut h = InputHandler::new(&text);
    let ctx = ctx_with(key_edge(Key::Backspace));
    let continues = h.update(&mut text, &ctx);
    assert!(continues);
    assert_eq!(text_of(&text), "DM");
    assert_eq!(h.cursor, 2);
}

#[test]
fn insert_at_cursor_advances_it() {
    let mut text = chars("");
    let mut h = InputHandler::new(&text);
    assert_eq!(h.cursor, 0);
    let ctx = ctx_with(char_typed('A'));
    let continues = h.update(&mut text, &ctx);
    assert!(continues);
    assert_eq!(text_of(&text), "A");
    assert_eq!(h.cursor, 1);
}

#[test]
fn enter_stops_editing() {
    let mut text = chars("DMX");
    let mut h = InputHandler::new(&text);
    let ctx = ctx_with(key_edge(Key::Enter));
    let continues = h.update(&mut text, &ctx);
    assert!(!continues);
    assert_eq!(text_of(&text), "DMX");
}

#[test]
fn backspace_at_start_is_a_no_op() {
    let mut text = chars("DMX");
    let mut h = InputHandler::new(&text);
    h.cursor = 0;
    let ctx = ctx_with(key_edge(Key::Backspace));
    let continues = h.update(&mut text, &ctx);
    assert!(continues);
    assert_eq!(text_of(&text), "DMX");
    assert_eq!(h.cursor, 0);
}

#[test]
fn delete_behaves_like_backspace() {
    let mut text = chars("DMX");
    let mut h = InputHandler::new(&text);
    let ctx = ctx_with(key_edge(Key::Delete));
    h.update(&mut text, &ctx);
    assert_eq!(text_of(&text), "DM");
    assert_eq!(h.cursor, 2);
}

#[test]
fn right_stops_at_end_of_text() {
    let mut text = chars("ab");
    let mut h = InputHandler::new(&text);
    let ctx = ctx_with(key_edge(Key::Right));
    h.update(&mut text, &ctx);
    assert_eq!(h.cursor, 2);
}

#[test]
fn left_held_fires_on_repeat_cadence() {
    // Left held for 35 consecutive frames starting from release: the
    // cursor moves on frames 1, 11, 21 and 31 and on no others.
    let mut text = chars("aaaaaaaaaa");
    let mut h = InputHandler::new(&text);
    assert_eq!(h.cursor, 10);
    let mut moved_on: Vec<u32> = Vec::new();
    for frame in 1u32..=35 {
        let input = if frame == 1 {
            key_edge(Key::Left)
        } else {
            key_held(Key::Left)
        };
        let ctx = ctx_with(input);
        let before = h.cursor;
        let continues = h.update(&mut text, &ctx);
        assert!(continues);
        if h.cursor != before {
            assert_eq!(h.cursor, before - 1);
            moved_on.push(frame);
        }
    }
    assert_eq!(moved_on, vec![1, 11, 21, 31]);
    assert_eq!(h.cursor, 6);
}

#[test]
fn releasing_key_clears_repeat() {
    let mut text = chars("aaaa");
    let mut h = InputHandler::new(&text);
    let ctx = ctx_with(key_edge(Key::Left));
    h.update(&mut text, &ctx);
    assert!(h.repeat.is_some());
    let ctx = ctx_with(idle());
    h.update(&mut text, &ctx);
    assert!(h.repeat.is_none());
    // Holding again without a fresh press never fires.
    let before = h.cursor;
    for _ in 0..20 {
        let ctx = ctx_with(key_held(Key::Left));
        h.update(&mut text, &ctx);
    }
    assert_eq!(h.cursor, before);
}

#[test]
fn pressing_other_key_replaces_repeat_record() {
    let mut text = chars("aaaa");
    let mut h = InputHandler::new(&text);
    let ctx = ctx_with(key_edge(Key::Left));
    h.update(&mut text, &ctx);
    assert_eq!(h.repeat.map(|(k, _)| k), Some(Key::Left));
    let ctx = ctx_with(key_edge(Key::Right));
    h.update(&mut text, &ctx);
    assert_eq!(h.repeat.map(|(k, _)| k), Some(Key::Right));
}

#[test]
fn cursor_stays_inside_text_across_random_walk() {
    // The editor invariant 0 <= cursor <= len(text), exercised over a
    // mixed stream of edits.
    let mut text = chars("ab");
    let mut h = InputHandler::new(&text);
    let inputs = [
        key_edge(Key::Left),
        char_typed('x'),
        key_edge(Key::Backspace),
        key_edge(Key::Backspace),
        key_edge(Key::Backspace),
        key_edge(Key::Backspace),
        char_typed('y'),
        key_edge(Key::Right),
        key_edge(Key::Right),
        key_edge(Key::Right),
    ];
    for input in inputs {
        let ctx = ctx_with(input);
        h.update(&mut text, &ctx);
        assert!(h.cursor <= text.len());
    }
}

#[test]
fn caret_visible_first_half_of_blink_period() {
    let text = chars("DM");
    for t in [0u32, 1, 29, 30, 59, 60, 89, 90, 119, 120] {
        let h = InputHandler { cursor: 2, timer: t, repeat: None };
        let mut ctx = ctx_with(idle());
        h.draw_cursor(&text, Point::new(10, 10), 20, qlcpp::ui::text_color(), &mut ctx);
        let visible = t % 60 < 30;
        assert_eq!(ctx.cmds.len(), if visible { 1 } else { 0 }, "timer {}", t);
    }
}

#[test]
fn caret_lands_after_text_before_cursor() {
    let text = chars("DMX");
    let h = InputHandler { cursor: 2, timer: 0, repeat: None };
    let mut ctx = ctx_with(idle());
    h.draw_cursor(&text, Point::new(10, 10), 20, qlcpp::ui::text_color(), &mut ctx);
    match &ctx.cmds[0].op {
        DrawOp::Text { text: t, x, y, .. } => {
            assert_eq!(t.iter().collect::<String>(), "|");
            // Two glyphs before the cursor, eleven pixels each.
            assert_eq!(*x, 10 + 22);
            assert_eq!(*y, 10);
        }
        _ => panic!("expected the caret's text command"),
    }
}
