use qlcpp::context::{Context, DrawOp};
use qlcpp::geometry::{Point, Region};
use qlcpp::input::{InputSnapshot, Key, MouseButton};
use qlcpp::ui::text::Text;
use qlcpp::ui::{text_color, State, TEXT_SIZE};

fn chars(s: &str) -> Vec<char> {
    s.chars().collect()
}

fn text_of(v: &[char]) -> String {
    v.iter().collect()
}

fn ctx_with(input: InputSnapshot) -> Context {
    Context::new(640, 480, input)
}

fn pointer_at(x: i32, y: i32, pressed: bool) -> InputSnapshot {
    let mut s = InputSnapshot::idle();
    s.mouse = Point::new(x, y);
    if pressed {
        s.buttons_pressed = vec![MouseButton::Left];
    }
    s
}

fn widget() -> Text {
    Text::new(Point::new(10, 10), text_color(), TEXT_SIZE)
}

#[test]
fn hit_rect_sized_by_measured_text() {
    let w = widget();
    let text = chars("DMX");
    let ctx = ctx_with(InputSnapshot::idle());
    assert_eq!(w.rect(&text, &ctx), Region::new(10, 10, 33, 20));
}

#[test]
fn resting_widget_draws_its_label_once() {
    let mut w = widget();
    let mut text = chars("DMX");
    let mut ctx = ctx_with(pointer_at(500, 400, false));
    w.draw(&mut text, &mut ctx);
    assert!(matches!(w.state, State::Normal));
    assert_eq!(ctx.cmds.len(), 1);
    match &ctx.cmds[0].op {
        DrawOp::Text { text: t, x, y, .. } => {
            assert_eq!(text_of(t), "DMX");
            assert_eq!(*x, 10);
            assert_eq!(*y, 10);
        }
        _ => panic!("expected the label's text command"),
    }
}

#[test]
fn hovered_widget_draws_label_and_outline() {
    let mut w = widget();
    let mut text = chars("DMX");
    let mut ctx = ctx_with(pointer_at(15, 15, false));
    w.draw(&mut text, &mut ctx);
    assert!(matches!(w.state, State::Hovered));
    assert_eq!(ctx.cmds.len(), 2);
    match ctx.cmds[1].op {
        DrawOp::RectangleLinesEx { rect, thick, .. } => {
            assert_eq!(rect, Region::new(5, 5, 43, 30));
            assert_eq!(thick, 1);
        }
        _ => panic!("expected the outline command"),
    }
}

#[test]
fn click_starts_editing_with_cursor_at_end() {
    let mut w = widget();
    let mut text = chars("DMX");
    let mut ctx = ctx_with(pointer_at(15, 15, true));
    w.draw(&mut text, &mut ctx);
    assert!(matches!(w.state, State::Pressed));
    let editor = w.input_handler.expect("a press must arm the editor");
    assert_eq!(editor.cursor, 3);
    assert_eq!(editor.timer, 0);
    // The press frame itself draws nothing; editing begins next frame.
    assert!(ctx.cmds.is_empty());
}

#[test]
fn editing_widget_edits_the_buffer_and_draws_focused() {
    let mut w = widget();
    let mut text = chars("DMX");

    let mut ctx = ctx_with(pointer_at(15, 15, true));
    w.draw(&mut text, &mut ctx);
    assert!(w.input_handler.is_some());

    // Next frame: Backspace pressed; the widget removes the character
    // before the cursor and draws the focused form (label, outline,
    // caret: the timer is 1, inside the visible half of the blink).
    let mut s = pointer_at(500, 400, false);
    s.pressed = vec![Key::Backspace];
    s.down = vec![Key::Backspace];
    let mut ctx = ctx_with(s);
    w.draw(&mut text, &mut ctx);
    assert_eq!(text_of(&text), "DM");
    let editor = w.input_handler.expect("editing continues");
    assert_eq!(editor.cursor, 2);
    assert_eq!(ctx.cmds.len(), 3);
}

#[test]
fn enter_ends_editing() {
    let mut w = widget();
    let mut text = chars("DMX");

    let mut ctx = ctx_with(pointer_at(15, 15, true));
    w.draw(&mut text, &mut ctx);
    assert!(w.input_handler.is_some());

    let mut s = pointer_at(500, 400, false);
    s.pressed = vec![Key::Enter];
    s.down = vec![Key::Enter];
    let mut ctx = ctx_with(s);
    w.draw(&mut text, &mut ctx);
    assert!(w.input_handler.is_none());
    assert_eq!(text_of(&text), "DMX");
}

#[test]
fn typed_character_lands_at_cursor() {
    let mut w = widget();
    let mut text = chars("DM");

    let mut ctx = ctx_with(pointer_at(15, 15, true));
    w.draw(&mut text, &mut ctx);

    let mut s = pointer_at(500, 400, false);
    s.ch = Some('X');
    let mut ctx = ctx_with(s);
    w.draw(&mut text, &mut ctx);
    assert_eq!(text_of(&text), "DMX");
    assert_eq!(w.input_handler.unwrap().cursor, 3);
}
