use qlcpp::context::{Context, DrawOp};
use qlcpp::geometry::{Color, Point, Region};
use qlcpp::input::{InputSnapshot, Key, MouseButton};

fn frame_context() -> Context {
    Context::new(640, 480, InputSnapshot::idle())
}

fn chars(s: &str) -> Vec<char> {
    s.chars().collect()
}

#[test]
fn new_context_covers_screen() {
    let ctx = frame_context();
    assert_eq!(ctx.rect, Region::new(0, 0, 640, 480));
    assert!(ctx.clip.is_none());
    assert!(ctx.cmds.is_empty());
}

#[test]
fn measure_text_idempotent() {
    let ctx = frame_context();
    let text = chars("DMX");
    let w1 = ctx.measure_text(&text, 20);
    let w2 = ctx.measure_text(&text, 20);
    assert_eq!(w1, w2);
}

#[test]
fn measure_text_exact_width() {
    let ctx = frame_context();
    // Three glyphs, each 20 / 2 + 1 = 11 pixels wide.
    assert_eq!(ctx.measure_text(&chars("DMX"), 20), 33);
    assert_eq!(ctx.measure_text(&chars(""), 20), 0);
    assert_eq!(ctx.measure_text(&chars("A"), 0), 1);
}

#[test]
fn draw_pixel_translates_by_offset() {
    let mut ctx = frame_context();
    let (mut child, guard) = ctx.scissor(Region::new(10, 10, 100, 50));
    child.draw_pixel(0, 0, Color::new(1, 2, 3, 255));
    assert_eq!(child.cmds.len(), 1);
    match child.cmds[0].op {
        DrawOp::Pixel { x, y, .. } => {
            assert_eq!(x, 10);
            assert_eq!(y, 10);
        }
        _ => panic!("expected a pixel command"),
    }
    ctx = child.release(guard);
    assert_eq!(ctx.rect, Region::new(0, 0, 640, 480));
    assert!(ctx.clip.is_none());
    assert_eq!(ctx.cmds.len(), 1);
}

#[test]
fn scissor_clips_to_requested_region() {
    let ctx = frame_context();
    let (child, _guard) = ctx.scissor(Region::new(10, 10, 100, 50));
    assert_eq!(child.rect, Region::new(10, 10, 100, 50));
    assert_eq!(child.clip, Some(Region::new(10, 10, 100, 50)));
}

#[test]
fn nested_scissor_clip_never_widens() {
    let ctx = frame_context();
    let (child, _g1) = ctx.scissor(Region::new(10, 10, 100, 50));
    let parent_clip = child.clip.unwrap();
    // The grandchild asks for more room than the child has; the clip
    // still stays inside the child's clip.
    let (grandchild, _g2) = child.scissor(Region::new(50, 20, 500, 500));
    let clip = grandchild.clip.unwrap();
    assert_eq!(clip, Region::new(60, 30, 50, 30));
    assert!(clip.x >= parent_clip.x);
    assert!(clip.y >= parent_clip.y);
    assert!(clip.x + clip.width <= parent_clip.x + parent_clip.width);
    assert!(clip.y + clip.height <= parent_clip.y + parent_clip.height);
    // Offsets compose: the grandchild's origin is the child's origin
    // plus the requested region's origin.
    assert_eq!(grandchild.rect.x, 60);
    assert_eq!(grandchild.rect.y, 30);
}

#[test]
fn commands_record_active_clip() {
    let ctx = frame_context();
    let (mut child, _guard) = ctx.scissor(Region::new(10, 10, 100, 50));
    child.draw_rectangle(1, 2, 3, 4, Color::new(9, 9, 9, 255));
    assert_eq!(child.cmds[0].clip, Some(Region::new(10, 10, 100, 50)));
    match child.cmds[0].op {
        DrawOp::Rectangle { rect, .. } => {
            assert_eq!(rect, Region::new(11, 12, 3, 4));
        }
        _ => panic!("expected a rectangle command"),
    }
}

#[test]
fn draw_text_records_characters() {
    let mut ctx = frame_context();
    let text = chars("hi");
    ctx.draw_text(&text, 5, 6, 20, Color::new(0, 0, 0, 255));
    match &ctx.cmds[0].op {
        DrawOp::Text { text: t, x, y, font_size, .. } => {
            assert_eq!(t.iter().collect::<String>(), "hi");
            assert_eq!(*x, 5);
            assert_eq!(*y, 6);
            assert_eq!(*font_size, 20);
        }
        _ => panic!("expected a text command"),
    }
}

#[test]
fn draw_texture_pro_offsets_destination_only() {
    let ctx = frame_context();
    let (mut child, _guard) = ctx.scissor(Region::new(100, 200, 50, 50));
    child.draw_texture_pro(
        7,
        Region::new(0, 0, 16, 16),
        Region::new(1, 2, 32, 32),
        Point::new(0, 0),
        45,
        Color::new(255, 255, 255, 255),
    );
    match child.cmds[0].op {
        DrawOp::TexturePro { texture, source, dest, rotation_deg, .. } => {
            assert_eq!(texture, 7);
            assert_eq!(source, Region::new(0, 0, 16, 16));
            assert_eq!(dest, Region::new(101, 202, 32, 32));
            assert_eq!(rotation_deg, 45);
        }
        _ => panic!("expected a textured-quad command"),
    }
}

#[test]
fn line_strip_translates_every_point() {
    let ctx = frame_context();
    let (mut child, _guard) = ctx.scissor(Region::new(100, 50, 200, 200));
    let points = [Point::new(0, 0), Point::new(10, 0), Point::new(10, 10)];
    child.draw_line_strip(&points, Color::new(0, 0, 0, 255));
    match &child.cmds[0].op {
        DrawOp::LineStrip { points: p, .. } => {
            assert_eq!(p.len(), 3);
            assert_eq!(p[0], Point::new(100, 50));
            assert_eq!(p[1], Point::new(110, 50));
            assert_eq!(p[2], Point::new(110, 60));
        }
        _ => panic!("expected a line-strip command"),
    }
}

#[test]
fn input_queries_reflect_snapshot() {
    let mut input = InputSnapshot::idle();
    input.mouse = Point::new(42, 7);
    input.pressed = vec![Key::Left];
    input.down = vec![Key::Left, Key::Right];
    input.buttons_pressed = vec![MouseButton::Left];
    input.ch = Some('x');
    let ctx = Context::new(640, 480, input);
    assert!(ctx.is_key_pressed(Key::Left));
    assert!(!ctx.is_key_pressed(Key::Right));
    assert!(ctx.is_key_down(Key::Right));
    assert!(ctx.is_key_up(Key::Enter));
    assert!(!ctx.is_key_released(Key::Left));
    assert!(ctx.is_mouse_button_pressed(MouseButton::Left));
    assert!(!ctx.is_mouse_button_pressed(MouseButton::Right));
    assert_eq!(ctx.get_mouse_x(), 42);
    assert_eq!(ctx.get_mouse_y(), 7);
    assert_eq!(ctx.get_char_pressed(), Some('x'));
}
