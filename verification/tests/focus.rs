use qlcpp::context::Context;
use qlcpp::geometry::{Point, Region};
use qlcpp::input::{InputSnapshot, MouseButton};
use qlcpp::ui::State;

fn ctx_with(input: InputSnapshot) -> Context {
    Context::new(640, 480, input)
}

fn pointer_at(x: i32, y: i32, pressed: bool) -> InputSnapshot {
    let mut s = InputSnapshot::idle();
    s.mouse = Point::new(x, y);
    if pressed {
        s.buttons_pressed = vec![MouseButton::Left];
    }
    s
}

#[test]
fn idle_to_hovered_to_pressed_in_two_frames() {
    // Pointer inside a 100 x 20 region; the primary button is newly
    // pressed on the second frame.
    let hit = Region::new(0, 0, 100, 20);
    let mut state = State::Normal;
    assert!(state.normal());

    let ctx = ctx_with(pointer_at(50, 10, false));
    state.update(hit, &ctx);
    assert!(state.hovered());

    let ctx = ctx_with(pointer_at(50, 10, true));
    state.update(hit, &ctx);
    assert!(state.pressed());
}

#[test]
fn pointer_outside_goes_back_to_normal() {
    let hit = Region::new(0, 0, 100, 20);
    let mut state = State::Hovered;
    let ctx = ctx_with(pointer_at(200, 10, false));
    state.update(hit, &ctx);
    assert!(state.normal());
}

#[test]
fn press_outside_region_does_not_press() {
    let hit = Region::new(0, 0, 100, 20);
    let mut state = State::Normal;
    let ctx = ctx_with(pointer_at(200, 10, true));
    state.update(hit, &ctx);
    assert!(state.normal());
}

#[test]
fn state_predicates_match_variant() {
    assert!(State::Pressed.pressed());
    assert!(!State::Pressed.hovered());
    assert!(State::Hovered.hovered());
    assert!(State::Normal.normal());
}
