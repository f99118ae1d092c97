//! User interface controls: hit-testing and toggling logic.
//!
//! Widgets are small view-state holders recreated every frame from the
//! current simulation state.  A pointer is strictly inside a widget's
//! rectangle when it lies past every edge (exclusive on all four sides);
//! buttons react while the left button is held, while a checkbox toggles
//! only on the frame the left button transitions to held.

use vstd::prelude::*;

use crate::canvas::Canvas;
use crate::canvas::Command;
use crate::pointer::Pointer;

verus! {

/// Whether pointer `p` lies strictly inside the rectangle at `(x, y)` of
/// size `width` by `height` (exclusive on all four edges).
pub open spec fn rect_inside(x: int, y: int, width: int, height: int, p: Pointer) -> bool {
    x < p.x < x + width && y < p.y < y + height
}

/// A push button with an immutable layout.
pub struct Button {
    /// Label text.
    pub string: &'static str,
    /// Left edge, in pixels.
    pub x: i32,
    /// Top edge, in pixels.
    pub y: i32,
    /// Width in pixels.
    pub width: u32,
    /// Height in pixels.
    pub height: u32,
}

impl Button {
    /// Whether `p` lies strictly inside this button's rectangle.
    pub open spec fn inside(self, p: Pointer) -> bool {
        rect_inside(self.x as int, self.y as int, self.width as int, self.height as int, p)
    }

    /// Whether this button is clicked: the pointer is strictly inside and
    /// the left button is currently held.
    pub open spec fn spec_clicked(self, p: Pointer) -> bool {
        self.inside(p) && p.left
    }

    pub fn new(string: &'static str, x: i32, y: i32, width: u32, height: u32) -> (r: Button)
        ensures
            r.string == string,
            r.x == x,
            r.y == y,
            r.width == width,
            r.height == height,
    {
        Button { string, x, y, width, height }
    }

    /// Whether the pointer hovers strictly inside this button's
    /// rectangle, regardless of its buttons.
    pub fn is_mouse_over(&self, mouse: &Pointer) -> (r: bool)
        ensures
            r == self.inside(*mouse),
    {
        let mx = mouse.x as i64;
        let my = mouse.y as i64;
        let x = self.x as i64;
        let y = self.y as i64;
        let width = self.width as i64;
        let height = self.height as i64;
        mx > x && mx < x + width && my > y && my < y + height
    }

    /// Whether this button is clicked this frame.
    pub fn is_clicked(&self, mouse: &Pointer) -> (r: bool)
        ensures
            r == self.spec_clicked(*mouse),
    {
        self.is_mouse_over(mouse) && mouse.left_pressed()
    }
}

/// A check box: a button-shaped rectangle holding a pressed flag.
pub struct CheckBox {
    /// Label text.
    pub string: &'static str,
    /// Left edge, in pixels.
    pub x: i32,
    /// Top edge, in pixels.
    pub y: i32,
    /// Width in pixels.
    pub width: u32,
    /// Height in pixels.
    pub height: u32,
    /// Whether the box is currently checked.
    pub pressed: bool,
}

impl CheckBox {
    /// Whether `p` lies strictly inside this box's rectangle.
    pub open spec fn inside(self, p: Pointer) -> bool {
        rect_inside(self.x as int, self.y as int, self.width as int, self.height as int, p)
    }

    /// Whether a toggle fires: the pointer is strictly inside and the
    /// left button transitioned to held this frame (edge-triggered, so a
    /// held button does not toggle again on later frames).
    pub open spec fn spec_toggles(self, p: Pointer) -> bool {
        self.inside(p) && p.left_clicked()
    }

    /// A new box, initially unchecked.
    pub fn new(string: &'static str, x: i32, y: i32, width: u32, height: u32) -> (r: CheckBox)
        ensures
            r.string == string,
            r.x == x,
            r.y == y,
            r.width == width,
            r.height == height,
            r.pressed == false,
    {
        CheckBox { string, x, y, width, height, pressed: false }
    }

    /// Overwrite the pressed flag.
    pub fn set_pressed(&mut self, pressed: bool)
        ensures
            *final(self) == (CheckBox { pressed, ..*old(self) }),
    {
        self.pressed = pressed;
    }

    /// The pressed flag.
    pub fn is_pressed(&self) -> (r: bool)
        ensures
            r == self.pressed,
    {
        self.pressed
    }

    /// Whether the pointer hovers strictly inside this box's rectangle.
    pub fn is_mouse_over(&self, mouse: &Pointer) -> (r: bool)
        ensures
            r == self.inside(*mouse),
    {
        let mx = mouse.x as i64;
        let my = mouse.y as i64;
        let x = self.x as i64;
        let y = self.y as i64;
        let width = self.width as i64;
        let height = self.height as i64;
        mx > x && mx < x + width && my > y && my < y + height
    }

    /// Flip the pressed flag if and only if a toggle fires this frame.
    pub fn toggle(&mut self, mouse: &Pointer)
        ensures
            final(self).pressed == (if old(self).spec_toggles(*mouse) {
                !old(self).pressed
            } else {
                old(self).pressed
            }),
            *final(self) == (CheckBox { pressed: final(self).pressed, ..*old(self) }),
    {
        if self.is_mouse_over(mouse) && mouse.left_just_pressed() {
            self.pressed = !self.pressed;
        }
    }
}

/// A static text display with no interaction and no state.
pub struct Label {
    /// Displayed text.
    pub string: &'static str,
    /// Left edge, in pixels.
    pub x: i32,
    /// Top edge, in pixels.
    pub y: i32,
    /// Width in pixels.
    pub width: u32,
    /// Height in pixels.
    pub height: u32,
}

impl Label {
    pub fn new(string: &'static str, x: i32, y: i32, width: u32, height: u32) -> (r: Label)
        ensures
            r.string == string,
            r.x == x,
            r.y == y,
            r.width == width,
            r.height == height,
    {
        Label { string, x, y, width, height }
    }
}

/// A box displaying a single-digit numeric value, with no interactive
/// state.
pub struct SpinBox {
    /// Displayed value; only values below 10 are rendered.
    pub value: u8,
    /// Left edge, in pixels.
    pub x: i32,
    /// Top edge, in pixels.
    pub y: i32,
    /// Width in pixels.
    pub width: u32,
    /// Height in pixels.
    pub height: u32,
}

impl SpinBox {
    pub fn new(value: u8, x: i32, y: i32, width: u32, height: u32) -> (r: SpinBox)
        ensures
            r.value == value,
            r.x == x,
            r.y == y,
            r.width == width,
            r.height == height,
    {
        SpinBox { value, x, y, width, height }
    }
}

/// Centering padding for a label of `len` characters, 8 pixels each plus
/// a 4-pixel inset, inside a box `width` pixels wide.
pub open spec fn text_padding(len: int, width: int) -> int {
    (width - 8 * len - 4) / 2
}

/// The commands of a raised (unpressed) button face: shadow rectangle,
/// face rectangle shifted up-left (highlighted while hovered), then the
/// centred label.
pub open spec fn button_raised_cmds(
    text: Seq<char>,
    x: int,
    y: int,
    width: int,
    height: int,
    hovered: bool,
) -> Seq<Command> {
    seq![
        Command::SetColors { colors: 0x41 },
        Command::Rect { x, y, width, height },
        Command::SetColors { colors: if hovered { 0x32 } else { 0x31 } },
        Command::Rect { x: x - 1, y: y - 1, width, height },
        Command::SetColors { colors: 0x03 },
        Command::Text { text, x: x + text_padding(text.len() as int, width) + 1, y: y + 1 },
    ]
}

/// The commands of a pressed button face: shadow and face drawn at the
/// same position, then the label shifted down-right by one pixel.
pub open spec fn button_pressed_cmds(
    text: Seq<char>,
    x: int,
    y: int,
    width: int,
    height: int,
) -> Seq<Command> {
    seq![
        Command::SetColors { colors: 0x41 },
        Command::Rect { x, y, width, height },
        Command::SetColors { colors: 0x32 },
        Command::Rect { x, y, width, height },
        Command::SetColors { colors: 0x03 },
        Command::Text { text, x: x + text_padding(text.len() as int, width) + 2, y: y + 2 },
    ]
}

/// The commands a button emits for pointer `p`: the pressed face while
/// clicked, otherwise the raised face, highlighted while hovered.
pub open spec fn button_cmds(
    text: Seq<char>,
    x: int,
    y: int,
    width: int,
    height: int,
    p: Pointer,
) -> Seq<Command> {
    if rect_inside(x, y, width, height, p) && p.left {
        button_pressed_cmds(text, x, y, width, height)
    } else {
        button_raised_cmds(text, x, y, width, height, rect_inside(x, y, width, height, p))
    }
}

/// The commands a check box emits: the pressed face while checked,
/// otherwise the raised face, highlighted while hovered.
pub open spec fn checkbox_cmds(
    text: Seq<char>,
    x: int,
    y: int,
    width: int,
    height: int,
    pressed: bool,
    p: Pointer,
) -> Seq<Command> {
    if pressed {
        button_pressed_cmds(text, x, y, width, height)
    } else {
        button_raised_cmds(text, x, y, width, height, rect_inside(x, y, width, height, p))
    }
}

/// The commands a label emits: its text, inset by one pixel.
pub open spec fn label_cmds(text: Seq<char>, x: int, y: int) -> Seq<Command> {
    seq![
        Command::SetColors { colors: 0x03 },
        Command::Text { text, x: x + 1, y: y + 1 },
    ]
}

/// The single-character text of decimal digit `v`.
pub open spec fn digit_text(v: int) -> Seq<char> {
    if v == 0 {
        "0"@
    } else if v == 1 {
        "1"@
    } else if v == 2 {
        "2"@
    } else if v == 3 {
        "3"@
    } else if v == 4 {
        "4"@
    } else if v == 5 {
        "5"@
    } else if v == 6 {
        "6"@
    } else if v == 7 {
        "7"@
    } else if v == 8 {
        "8"@
    } else {
        "9"@
    }
}

/// The commands a spin box emits: shadow and face rectangles, then its
/// value as a single digit — but only for values below 10; a larger
/// value draws no text at all.
pub open spec fn spinbox_cmds(value: int, x: int, y: int, width: int, height: int) -> Seq<
    Command,
> {
    seq![
        Command::SetColors { colors: 0x41 },
        Command::Rect { x, y, width, height },
        Command::SetColors { colors: 0x31 },
        Command::Rect { x: x - 1, y: y - 1, width, height },
        Command::SetColors { colors: 0x03 },
    ] + if 0 <= value < 10 {
        seq![Command::Text { text: digit_text(value), x: x + 1, y: y + 1 }]
    } else {
        Seq::<Command>::empty()
    }
}

/// The rectangle and label geometry a widget face needs: the label fits
/// the box and every emitted coordinate fits the command type.
pub open spec fn face_fits(text: Seq<char>, x: int, y: int, width: int) -> bool {
    &&& 8 * text.len() + 4 <= width
    &&& width <= 0x7fffffff
    &&& i32::MIN < x
    &&& i32::MIN < y
    &&& x + width <= i32::MAX - 2
    &&& y <= i32::MAX - 2
}

fn push_raised(
    canvas: &mut Canvas,
    string: &'static str,
    x: i32,
    y: i32,
    width: u32,
    height: u32,
    hovered: bool,
)
    requires
        face_fits(string@, x as int, y as int, width as int),
    ensures
        final(canvas)@ == old(canvas)@ + button_raised_cmds(
            string@,
            x as int,
            y as int,
            width as int,
            height as int,
            hovered,
        ),
{
    canvas.set_drawing_colors(0x41);
    canvas.draw_rect(x, y, width, height);
    if hovered {
        canvas.set_drawing_colors(0x32);
    } else {
        canvas.set_drawing_colors(0x31);
    }
    canvas.draw_rect(x - 1, y - 1, width, height);

    let text_length = string.unicode_len();
    let padding = ((width - (text_length as u32) * 8 - 4) / 2) as i32;
    canvas.set_drawing_colors(0x03);
    canvas.draw_text(string, x + padding + 1, y + 1);
    proof {
        assert(canvas@ =~= old(canvas)@ + button_raised_cmds(
            string@,
            x as int,
            y as int,
            width as int,
            height as int,
            hovered,
        ));
    }
}

fn push_pressed(canvas: &mut Canvas, string: &'static str, x: i32, y: i32, width: u32, height: u32)
    requires
        face_fits(string@, x as int, y as int, width as int),
    ensures
        final(canvas)@ == old(canvas)@ + button_pressed_cmds(
            string@,
            x as int,
            y as int,
            width as int,
            height as int,
        ),
{
    canvas.set_drawing_colors(0x41);
    canvas.draw_rect(x, y, width, height);
    canvas.set_drawing_colors(0x32);
    canvas.draw_rect(x, y, width, height);

    let text_length = string.unicode_len();
    let padding = ((width - (text_length as u32) * 8 - 4) / 2) as i32;
    canvas.set_drawing_colors(0x03);
    canvas.draw_text(string, x + padding + 2, y + 2);
    proof {
        assert(canvas@ =~= old(canvas)@ + button_pressed_cmds(
            string@,
            x as int,
            y as int,
            width as int,
            height as int,
        ));
    }
}

impl Button {
    /// Emit this button's face for the frame: pressed while clicked,
    /// raised (and highlighted while hovered) otherwise.
    pub fn draw(&self, canvas: &mut Canvas, mouse: &Pointer)
        requires
            face_fits(self.string@, self.x as int, self.y as int, self.width as int),
        ensures
            final(canvas)@ == old(canvas)@ + button_cmds(
                self.string@,
                self.x as int,
                self.y as int,
                self.width as int,
                self.height as int,
                *mouse,
            ),
    {
        if self.is_mouse_over(mouse) && mouse.left_pressed() {
            push_pressed(canvas, self.string, self.x, self.y, self.width, self.height);
        } else {
            let hovered = self.is_mouse_over(mouse);
            push_raised(canvas, self.string, self.x, self.y, self.width, self.height, hovered);
        }
    }
}

impl CheckBox {
    /// Emit this box's face for the frame: pressed while checked, raised
    /// (and highlighted while hovered) otherwise.
    pub fn draw(&self, canvas: &mut Canvas, mouse: &Pointer)
        requires
            face_fits(self.string@, self.x as int, self.y as int, self.width as int),
        ensures
            final(canvas)@ == old(canvas)@ + checkbox_cmds(
                self.string@,
                self.x as int,
                self.y as int,
                self.width as int,
                self.height as int,
                self.pressed,
                *mouse,
            ),
    {
        if self.is_pressed() {
            push_pressed(canvas, self.string, self.x, self.y, self.width, self.height);
        } else {
            let hovered = self.is_mouse_over(mouse);
            push_raised(canvas, self.string, self.x, self.y, self.width, self.height, hovered);
        }
    }
}

impl Label {
    /// Emit this label's text for the frame.
    pub fn draw(&self, canvas: &mut Canvas)
        requires
            self.x <= i32::MAX - 1,
            self.y <= i32::MAX - 1,
        ensures
            final(canvas)@ == old(canvas)@ + label_cmds(self.string@, self.x as int, self.y as int),
    {
        canvas.set_drawing_colors(0x03);
        canvas.draw_text(self.string, self.x + 1, self.y + 1);
        proof {
            assert(canvas@ =~= old(canvas)@ + label_cmds(
                self.string@,
                self.x as int,
                self.y as int,
            ));
        }
    }
}

impl SpinBox {
    /// Emit this box's face and its single-digit value for the frame; a
    /// value of 10 or more draws no text.
    pub fn draw(&self, canvas: &mut Canvas)
        requires
            i32::MIN < self.x,
            i32::MIN < self.y,
            self.x <= i32::MAX - 1,
            self.y <= i32::MAX - 1,
        ensures
            final(canvas)@ == old(canvas)@ + spinbox_cmds(
                self.value as int,
                self.x as int,
                self.y as int,
                self.width as int,
                self.height as int,
            ),
    {
        canvas.set_drawing_colors(0x41);
        canvas.draw_rect(self.x, self.y, self.width, self.height);
        canvas.set_drawing_colors(0x31);
        canvas.draw_rect(self.x - 1, self.y - 1, self.width, self.height);
        canvas.set_drawing_colors(0x03);

        if self.value < 10 {
            let digit = if self.value == 0 {
                "0"
            } else if self.value == 1 {
                "1"
            } else if self.value == 2 {
                "2"
            } else if self.value == 3 {
                "3"
            } else if self.value == 4 {
                "4"
            } else if self.value == 5 {
                "5"
            } else if self.value == 6 {
                "6"
            } else if self.value == 7 {
                "7"
            } else if self.value == 8 {
                "8"
            } else {
                "9"
            };
            canvas.draw_text(digit, self.x + 1, self.y + 1);
        }
        proof {
            assert(canvas@ =~= old(canvas)@ + spinbox_cmds(
                self.value as int,
                self.x as int,
                self.y as int,
                self.width as int,
                self.height as int,
            ));
        }
    }
}

/// The commands of the two-line title, each line drawn once in a shadow
/// colour shifted by one pixel and once in the main colour, centred on
/// the 160-pixel display.
pub open spec fn title_cmds() -> Seq<Command> {
    seq![
        Command::SetColors { colors: 3 },
        Command::Text { text: "CONWAY'S"@, x: 49, y: 4 },
        Command::Text { text: "GAME OF LIFE"@, x: 33, y: 15 },
        Command::SetColors { colors: 2 },
        Command::Text { text: "CONWAY'S"@, x: 48, y: 3 },
        Command::Text { text: "GAME OF LIFE"@, x: 32, y: 14 },
    ]
}

/// Emit the game's two-line title.
pub fn draw_title(canvas: &mut Canvas)
    ensures
        final(canvas)@ == old(canvas)@ + title_cmds(),
{
    let first_line = "CONWAY'S";
    let second_line = "GAME OF LIFE";
    proof {
        reveal_strlit("CONWAY'S");
        reveal_strlit("GAME OF LIFE");
    }
    let first_line_x = ((160 - 8 * first_line.unicode_len()) / 2) as i32;
    let second_line_x = ((160 - 8 * second_line.unicode_len()) / 2) as i32;

    canvas.set_drawing_colors(3);
    canvas.draw_text(first_line, first_line_x + 1, 3 + 1);
    canvas.draw_text(second_line, second_line_x + 1, 14 + 1);

    canvas.set_drawing_colors(2);
    canvas.draw_text(first_line, first_line_x, 3);
    canvas.draw_text(second_line, second_line_x, 14);
    proof {
        assert(canvas@ =~= old(canvas)@ + title_cmds());
    }
}

/// The fixed commands of the decorated frame around the grid, at layout
/// offset `(ox, oy)`: the 160-by-80 bevelled border with its corner
/// diagonals.
pub open spec fn frame_fixed_cmds(ox: int, oy: int) -> Seq<Command> {
    seq![
        Command::SetColors { colors: 1 },
        Command::Rect { x: ox + 4, y: oy + 4, width: 152, height: 72 },
        Command::SetColors { colors: 2 },
        Command::Rect { x: ox + 2, y: oy, width: 156, height: 4 },
        Command::Rect { x: ox, y: oy + 2, width: 4, height: 76 },
        Command::SetColors { colors: 3 },
        Command::Rect { x: ox + 2, y: oy + 77, width: 156, height: 2 },
        Command::Rect { x: ox + 157, y: oy + 2, width: 2, height: 76 },
        Command::SetColors { colors: 4 },
        Command::HLine { x: ox, y: oy, width: 160 },
        Command::HLine { x: ox + 3, y: oy + 3, width: 154 },
        Command::VLine { x: ox, y: oy, height: 80 },
        Command::VLine { x: ox + 3, y: oy + 3, height: 74 },
        Command::HLine { x: ox, y: oy + 79, width: 160 },
        Command::HLine { x: ox + 3, y: oy + 76, width: 154 },
        Command::VLine { x: ox + 159, y: oy, height: 80 },
        Command::VLine { x: ox + 156, y: oy + 3, height: 74 },
        Command::Line { x1: ox, y1: oy, x2: ox + 3, y2: oy + 3 },
        Command::Line { x1: ox + 159, y1: oy, x2: ox + 156, y2: oy + 3 },
        Command::Line { x1: ox, y1: oy + 79, x2: ox + 3, y2: oy + 76 },
        Command::Line { x1: ox + 159, y1: oy + 79, x2: ox + 156, y2: oy + 76 },
    ]
}

/// The dotted shading along the bottom edge, after `i - 1` of its point
/// pairs have been emitted.
pub open spec fn frame_hdots(ox: int, oy: int, i: int) -> Seq<Command>
    decreases i,
{
    if i <= 1 {
        Seq::<Command>::empty()
    } else {
        frame_hdots(ox, oy, i - 1) + seq![
            Command::VLine { x: ox + 1 + 2 * (i - 1), y: oy + 77, height: 1 },
            Command::VLine { x: ox + 2 * (i - 1), y: oy + 78, height: 1 },
        ]
    }
}

/// The dotted shading along the right edge, after `i - 1` of its point
/// pairs have been emitted.
pub open spec fn frame_vdots(ox: int, oy: int, i: int) -> Seq<Command>
    decreases i,
{
    if i <= 1 {
        Seq::<Command>::empty()
    } else {
        frame_vdots(ox, oy, i - 1) + seq![
            Command::VLine { x: ox + 157, y: oy + 1 + 2 * (i - 1), height: 1 },
            Command::VLine { x: ox + 158, y: oy + 2 * (i - 1), height: 1 },
        ]
    }
}

/// All the commands of the decorated frame at layout offset `(ox, oy)`.
pub open spec fn frame_cmds(ox: int, oy: int) -> Seq<Command> {
    frame_fixed_cmds(ox, oy) + frame_hdots(ox, oy, 79) + frame_vdots(ox, oy, 39)
}

/// Emit the decorated frame around the grid area.
pub fn draw_frame(canvas: &mut Canvas, offset: (i32, i32))
    requires
        -32768 <= offset.0 <= 32767,
        -32768 <= offset.1 <= 32767,
    ensures
        final(canvas)@ == old(canvas)@ + frame_cmds(offset.0 as int, offset.1 as int),
{
    let width: u32 = 160;
    let height: u32 = 80;
    let ox = offset.0;
    let oy = offset.1;

    canvas.set_drawing_colors(1);
    canvas.draw_rect(ox + 4, oy + 4, width - 8, height - 8);

    canvas.set_drawing_colors(2);
    canvas.draw_rect(ox + 2, oy, width - 4, 4);
    canvas.draw_rect(ox, oy + 2, 4, height - 4);

    canvas.set_drawing_colors(3);
    canvas.draw_rect(ox + 2, oy + 77, width - 4, 2);
    canvas.draw_rect(ox + 157, oy + 2, 2, height - 4);

    canvas.set_drawing_colors(4);
    canvas.draw_horizontal_line(ox, oy, width);
    canvas.draw_horizontal_line(ox + 3, oy + 3, width - 6);
    canvas.draw_vertical_line(ox, oy, height);
    canvas.draw_vertical_line(ox + 3, oy + 3, height - 6);

    canvas.draw_horizontal_line(ox, oy + 79, width);
    canvas.draw_horizontal_line(ox + 3, oy + 76, width - 6);
    canvas.draw_vertical_line(ox + 159, oy, height);
    canvas.draw_vertical_line(ox + 156, oy + 3, height - 6);

    canvas.draw_line(ox, oy, ox + 3, oy + 3);
    canvas.draw_line(ox + 159, oy, ox + 156, oy + 3);
    canvas.draw_line(ox, oy + 79, ox + 3, oy + 76);
    canvas.draw_line(ox + 159, oy + 79, ox + 156, oy + 76);

    proof {
        assert(canvas@ =~= old(canvas)@ + frame_fixed_cmds(ox as int, oy as int));
    }

    let ghost after_fixed = canvas@;
    let mut i: i32 = 1;
    while i < 79
        invariant
            -32768 <= ox <= 32767,
            -32768 <= oy <= 32767,
            1 <= i <= 79,
            canvas@ == after_fixed + frame_hdots(ox as int, oy as int, i as int),
        decreases 79 - i,
    {
        canvas.draw_point(ox + 1 + 2 * i, oy + 77);
        canvas.draw_point(ox + 2 * i, oy + 78);
        proof {
            assert(canvas@ =~= after_fixed + frame_hdots(ox as int, oy as int, i as int + 1));
        }
        i = i + 1;
    }

    let ghost after_hdots = canvas@;
    let mut i: i32 = 1;
    while i < 39
        invariant
            -32768 <= ox <= 32767,
            -32768 <= oy <= 32767,
            1 <= i <= 39,
            canvas@ == after_hdots + frame_vdots(ox as int, oy as int, i as int),
        decreases 39 - i,
    {
        canvas.draw_point(ox + 157, oy + 1 + 2 * i);
        canvas.draw_point(ox + 158, oy + 2 * i);
        proof {
            assert(canvas@ =~= after_hdots + frame_vdots(ox as int, oy as int, i as int + 1));
        }
        i = i + 1;
    }

    proof {
        assert(canvas@ =~= old(canvas)@ + frame_cmds(offset.0 as int, offset.1 as int));
    }
}

} // verus!
