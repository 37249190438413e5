use qlcpp::context::Context;
use qlcpp::geometry::Point;
use qlcpp::input::{InputSnapshot, Key, MouseButton};
use qlcpp::Application;

fn text_of(v: &[char]) -> String {
    v.iter().collect()
}

#[test]
fn new_application_is_untitled() {
    let app = Application::new();
    assert_eq!(text_of(&app.name), "Untitled");
    assert!(app.dmx.universes.is_empty());
    assert_eq!(app.from_top, 0);
    assert_eq!(app.title.position, Point::new(10, 10));
    assert!(app.title.input_handler.is_none());
}

#[test]
fn default_matches_new() {
    let app = Application::default();
    assert_eq!(text_of(&app.name), "Untitled");
}

#[test]
fn idle_frame_draws_title_and_keeps_name() {
    let mut app = Application::new();
    let mut ctx = Context::new(640, 480, InputSnapshot::idle());
    app.frame(&mut ctx);
    assert_eq!(text_of(&app.name), "Untitled");
    // The resting title is one text command; the empty pages add none.
    assert_eq!(ctx.cmds.len(), 1);
}

#[test]
fn clicking_title_starts_renaming() {
    let mut app = Application::new();
    let mut input = InputSnapshot::idle();
    input.mouse = Point::new(15, 15);
    input.buttons_pressed = vec![MouseButton::Left];
    let mut ctx = Context::new(640, 480, input);
    app.frame(&mut ctx);
    let editor = app.title.input_handler.expect("the click arms the editor");
    assert_eq!(editor.cursor, "Untitled".len());
}

#[test]
fn renaming_the_project_across_frames() {
    let mut app = Application::new();

    // Frame 1: click the title to start editing.
    let mut input = InputSnapshot::idle();
    input.mouse = Point::new(15, 15);
    input.buttons_pressed = vec![MouseButton::Left];
    let mut ctx = Context::new(640, 480, input);
    app.frame(&mut ctx);
    assert!(app.title.input_handler.is_some());

    // Frames 2 and 3: type two characters at the end of the name.
    for c in ['0', '1'] {
        let mut input = InputSnapshot::idle();
        input.ch = Some(c);
        let mut ctx = Context::new(640, 480, input);
        app.frame(&mut ctx);
    }
    assert_eq!(text_of(&app.name), "Untitled01");

    // Frame 4: Enter ends editing; the name stays.
    let mut input = InputSnapshot::idle();
    input.pressed = vec![Key::Enter];
    input.down = vec![Key::Enter];
    let mut ctx = Context::new(640, 480, input);
    app.frame(&mut ctx);
    assert!(app.title.input_handler.is_none());
    assert_eq!(text_of(&app.name), "Untitled01");
}
