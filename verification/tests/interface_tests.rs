use game_of_life::canvas::Canvas;
use game_of_life::canvas::DrawCommand;
use game_of_life::game::draw_mouse_pointer;
use game_of_life::game::draw_world;
use game_of_life::interface::Button;
use game_of_life::interface::CheckBox;
use game_of_life::interface::Label;
use game_of_life::interface::SpinBox;
use game_of_life::interface::draw_frame;
use game_of_life::interface::draw_title;
use game_of_life::pointer::Pointer;
use game_of_life::world::World;

#[test]
fn canvas_records_primitives_in_order() {
    let mut canvas = Canvas::new();
    canvas.set_drawing_colors(4);
    canvas.draw_rect(1, 2, 3, 4);
    canvas.draw_line(5, 6, 7, 8);
    canvas.draw_horizontal_line(9, 10, 11);
    canvas.draw_vertical_line(12, 13, 14);
    canvas.draw_point(15, 16);
    canvas.draw_text("hi", 17, 18);

    let expected = vec![
        DrawCommand::SetColors(4),
        DrawCommand::Rect(1, 2, 3, 4),
        DrawCommand::Line(5, 6, 7, 8),
        DrawCommand::HLine(9, 10, 11),
        DrawCommand::VLine(12, 13, 14),
        DrawCommand::VLine(15, 16, 1),
        DrawCommand::Text("hi", 17, 18),
    ];
    assert_eq!(*canvas.commands(), expected);
}

#[test]
fn button_click_is_strict_on_all_edges() {
    let button = Button::new("x", 10, 10, 12, 12);

    assert!(button.is_clicked(&Pointer::new(11, 11, true, false)));
    assert!(button.is_clicked(&Pointer::new(21, 21, true, false)));

    assert!(!button.is_clicked(&Pointer::new(10, 15, true, false)));
    assert!(!button.is_clicked(&Pointer::new(22, 15, true, false)));
    assert!(!button.is_clicked(&Pointer::new(15, 10, true, false)));
    assert!(!button.is_clicked(&Pointer::new(15, 22, true, false)));

    // held button is required, hover alone is not a click
    assert!(!button.is_clicked(&Pointer::new(15, 15, false, false)));
    assert!(button.is_mouse_over(&Pointer::new(15, 15, false, false)));
}

#[test]
fn checkbox_toggles_only_on_the_click_edge() {
    let mut checkbox = CheckBox::new("Pause", 10, 10, 84, 12);
    assert!(!checkbox.is_pressed());

    let click = Pointer::new(20, 15, true, false);
    checkbox.toggle(&click);
    assert!(checkbox.is_pressed());

    let held = click.refreshed(20, 15, true, false);
    checkbox.toggle(&held);
    assert!(checkbox.is_pressed());

    let outside = Pointer::new(200, 15, true, false);
    checkbox.toggle(&outside);
    assert!(checkbox.is_pressed());

    checkbox.set_pressed(false);
    assert!(!checkbox.is_pressed());
}

#[test]
fn title_commands() {
    let mut canvas = Canvas::new();
    draw_title(&mut canvas);

    let expected = vec![
        DrawCommand::SetColors(3),
        DrawCommand::Text("CONWAY'S", 49, 4),
        DrawCommand::Text("GAME OF LIFE", 33, 15),
        DrawCommand::SetColors(2),
        DrawCommand::Text("CONWAY'S", 48, 3),
        DrawCommand::Text("GAME OF LIFE", 32, 14),
    ];
    assert_eq!(*canvas.commands(), expected);
}

#[test]
fn frame_commands_shape() {
    let mut canvas = Canvas::new();
    draw_frame(&mut canvas, (0, 30));

    let commands = canvas.commands();
    assert_eq!(commands.len(), 21 + 2 * 78 + 2 * 38);
    assert_eq!(commands[0], DrawCommand::SetColors(1));
    assert_eq!(commands[1], DrawCommand::Rect(4, 34, 152, 72));
    assert_eq!(commands[9], DrawCommand::HLine(0, 30, 160));
    // first pair of the dotted bottom edge
    assert_eq!(commands[21], DrawCommand::VLine(3, 107, 1));
    assert_eq!(commands[22], DrawCommand::VLine(2, 108, 1));
    // last pair of the dotted right edge
    assert_eq!(commands[commands.len() - 2], DrawCommand::VLine(157, 107, 1));
    assert_eq!(commands[commands.len() - 1], DrawCommand::VLine(158, 106, 1));
}

#[test]
fn world_commands_one_rectangle_per_live_cell() {
    let mut world = World::new();
    world.set_cell(0, 0, true);
    world.set_cell(2, 3, true);

    let mut canvas = Canvas::new();
    draw_world(&world, (0, 30), &mut canvas);

    let expected = vec![
        DrawCommand::SetColors(2),
        DrawCommand::Rect(4, 34, 4, 4),
        DrawCommand::Rect(12, 46, 4, 4),
    ];
    assert_eq!(*canvas.commands(), expected);
}

#[test]
fn mouse_pointer_commands() {
    let mut canvas = Canvas::new();
    draw_mouse_pointer(&Pointer::new(10, 20, false, false), &mut canvas);

    let expected = vec![
        DrawCommand::SetColors(4),
        DrawCommand::VLine(10, 19, 3),
        DrawCommand::HLine(9, 20, 3),
    ];
    assert_eq!(*canvas.commands(), expected);
}

#[test]
fn button_faces() {
    let button = Button::new("+", 116, 118, 12, 12);

    let mut canvas = Canvas::new();
    button.draw(&mut canvas, &Pointer::new(0, 0, false, false));
    let raised = vec![
        DrawCommand::SetColors(0x41),
        DrawCommand::Rect(116, 118, 12, 12),
        DrawCommand::SetColors(0x31),
        DrawCommand::Rect(115, 117, 12, 12),
        DrawCommand::SetColors(0x03),
        DrawCommand::Text("+", 117, 119),
    ];
    assert_eq!(*canvas.commands(), raised);

    let mut canvas = Canvas::new();
    button.draw(&mut canvas, &Pointer::new(120, 124, false, false));
    let hovered = vec![
        DrawCommand::SetColors(0x41),
        DrawCommand::Rect(116, 118, 12, 12),
        DrawCommand::SetColors(0x32),
        DrawCommand::Rect(115, 117, 12, 12),
        DrawCommand::SetColors(0x03),
        DrawCommand::Text("+", 117, 119),
    ];
    assert_eq!(*canvas.commands(), hovered);

    let mut canvas = Canvas::new();
    button.draw(&mut canvas, &Pointer::new(120, 124, true, false));
    let pressed = vec![
        DrawCommand::SetColors(0x41),
        DrawCommand::Rect(116, 118, 12, 12),
        DrawCommand::SetColors(0x32),
        DrawCommand::Rect(116, 118, 12, 12),
        DrawCommand::SetColors(0x03),
        DrawCommand::Text("+", 118, 120),
    ];
    assert_eq!(*canvas.commands(), pressed);
}

#[test]
fn checkbox_face_follows_pressed_flag() {
    let mut checkbox = CheckBox::new("Pause", 38, 133, 84, 12);
    checkbox.set_pressed(true);

    let mut canvas = Canvas::new();
    checkbox.draw(&mut canvas, &Pointer::new(0, 0, false, false));
    let commands = canvas.commands();
    // pressed face: shadow and face rectangles coincide
    assert_eq!(commands[1], DrawCommand::Rect(38, 133, 84, 12));
    assert_eq!(commands[2], DrawCommand::SetColors(0x32));
    assert_eq!(commands[3], DrawCommand::Rect(38, 133, 84, 12));
    assert_eq!(commands[5], DrawCommand::Text("Pause", 38 + 20 + 2, 135));
}

#[test]
fn label_commands() {
    let label = Label::new("Speed:", 32, 118, 60, 12);
    let mut canvas = Canvas::new();
    label.draw(&mut canvas);

    let expected = vec![
        DrawCommand::SetColors(0x03),
        DrawCommand::Text("Speed:", 33, 119),
    ];
    assert_eq!(*canvas.commands(), expected);
}

#[test]
fn spinbox_draws_single_digit_only() {
    let spinbox = SpinBox::new(5, 104, 118, 12, 12);
    let mut canvas = Canvas::new();
    spinbox.draw(&mut canvas);

    let expected = vec![
        DrawCommand::SetColors(0x41),
        DrawCommand::Rect(104, 118, 12, 12),
        DrawCommand::SetColors(0x31),
        DrawCommand::Rect(103, 117, 12, 12),
        DrawCommand::SetColors(0x03),
        DrawCommand::Text("5", 105, 119),
    ];
    assert_eq!(*canvas.commands(), expected);

    let wide = SpinBox::new(12, 104, 118, 12, 12);
    let mut canvas = Canvas::new();
    wide.draw(&mut canvas);
    assert_eq!(canvas.commands().len(), 5);
    assert!(!canvas.commands().iter().any(|c| matches!(c, DrawCommand::Text(..))));
}
