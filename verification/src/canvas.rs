//! Drawing modelled as data.
//!
//! The host's pixel primitives (rectangle, line, text) are external
//! collaborators: the library never touches pixels.  Instead, every frame
//! appends drawing commands to a [`Canvas`], and the host replays them
//! against its real drawing surface.  The abstract model of a canvas is
//! the sequence of [`Command`] values it has accumulated.

use vstd::prelude::*;

verus! {

/// The abstract form of one drawing primitive invocation.
pub enum Command {
    /// Select the drawing colours for the following commands.
    SetColors { colors: int },
    /// A filled rectangle.
    Rect { x: int, y: int, width: int, height: int },
    /// A line between two points.
    Line { x1: int, y1: int, x2: int, y2: int },
    /// A horizontal line.
    HLine { x: int, y: int, width: int },
    /// A vertical line.
    VLine { x: int, y: int, height: int },
    /// A text string drawn at a position.
    Text { text: Seq<char>, x: int, y: int },
}

/// One drawing primitive invocation, as handed to the host.
#[derive(Clone, Copy, Debug, PartialEq)]
pub enum DrawCommand {
    /// Select the drawing colours for the following commands.
    SetColors(u16),
    /// A filled rectangle: position, then width and height.
    Rect(i32, i32, u32, u32),
    /// A line between two points.
    Line(i32, i32, i32, i32),
    /// A horizontal line: position, then width.
    HLine(i32, i32, u32),
    /// A vertical line: position, then height.
    VLine(i32, i32, u32),
    /// A text string drawn at a position.
    Text(&'static str, i32, i32),
}

impl View for DrawCommand {
    type V = Command;

    open spec fn view(&self) -> Command {
        match *self {
            DrawCommand::SetColors(colors) => Command::SetColors { colors: colors as int },
            DrawCommand::Rect(x, y, width, height) => Command::Rect {
                x: x as int,
                y: y as int,
                width: width as int,
                height: height as int,
            },
            DrawCommand::Line(x1, y1, x2, y2) => Command::Line {
                x1: x1 as int,
                y1: y1 as int,
                x2: x2 as int,
                y2: y2 as int,
            },
            DrawCommand::HLine(x, y, width) => Command::HLine {
                x: x as int,
                y: y as int,
                width: width as int,
            },
            DrawCommand::VLine(x, y, height) => Command::VLine {
                x: x as int,
                y: y as int,
                height: height as int,
            },
            DrawCommand::Text(text, x, y) => Command::Text {
                text: text@,
                x: x as int,
                y: y as int,
            },
        }
    }
}

/// A frame's accumulated drawing commands, in issue order.
pub struct Canvas {
    commands: Vec<DrawCommand>,
}

impl View for Canvas {
    type V = Seq<Command>;

    closed spec fn view(&self) -> Seq<Command> {
        self.commands@.map_values(|c: DrawCommand| c@)
    }
}

impl Canvas {
    /// An empty canvas for a fresh frame.
    pub fn new() -> (r: Canvas)
        ensures
            r@ == Seq::<Command>::empty(),
    {
        let r = Canvas { commands: Vec::new() };
        proof {
            assert(r@ =~= Seq::<Command>::empty());
        }
        r
    }

    /// The accumulated commands, for the host to replay in order.
    pub fn commands(&self) -> (r: &Vec<DrawCommand>)
        ensures
            r@.len() == self@.len(),
            forall|i: int| 0 <= i < r@.len() ==> (#[trigger] r@[i])@ == self@[i],
    {
        &self.commands
    }

    fn push(&mut self, command: DrawCommand)
        ensures
            final(self)@ == old(self)@.push(command@),
    {
        self.commands.push(command);
        proof {
            assert(self@ =~= old(self)@.push(command@));
        }
    }

    /// Select the drawing colours for the following commands.
    pub fn set_drawing_colors(&mut self, colors: u16)
        ensures
            final(self)@ == old(self)@.push(Command::SetColors { colors: colors as int }),
    {
        self.push(DrawCommand::SetColors(colors));
    }

    /// Draw a rectangle using the current colours.
    pub fn draw_rect(&mut self, x: i32, y: i32, width: u32, height: u32)
        ensures
            final(self)@ == old(self)@.push(
                Command::Rect {
                    x: x as int,
                    y: y as int,
                    width: width as int,
                    height: height as int,
                },
            ),
    {
        self.push(DrawCommand::Rect(x, y, width, height));
    }

    /// Draw a line between two points using the current colours.
    pub fn draw_line(&mut self, x1: i32, y1: i32, x2: i32, y2: i32)
        ensures
            final(self)@ == old(self)@.push(
                Command::Line { x1: x1 as int, y1: y1 as int, x2: x2 as int, y2: y2 as int },
            ),
    {
        self.push(DrawCommand::Line(x1, y1, x2, y2));
    }

    /// Draw a horizontal line using the current colours.
    pub fn draw_horizontal_line(&mut self, x: i32, y: i32, width: u32)
        ensures
            final(self)@ == old(self)@.push(
                Command::HLine { x: x as int, y: y as int, width: width as int },
            ),
    {
        self.push(DrawCommand::HLine(x, y, width));
    }

    /// Draw a vertical line using the current colours.
    pub fn draw_vertical_line(&mut self, x: i32, y: i32, height: u32)
        ensures
            final(self)@ == old(self)@.push(
                Command::VLine { x: x as int, y: y as int, height: height as int },
            ),
    {
        self.push(DrawCommand::VLine(x, y, height));
    }

    /// Draw a single point, as a vertical line of height one, using the
    /// current colours.
    pub fn draw_point(&mut self, x: i32, y: i32)
        ensures
            final(self)@ == old(self)@.push(Command::VLine { x: x as int, y: y as int, height: 1 }),
    {
        self.push(DrawCommand::VLine(x, y, 1));
    }

    /// Draw text using the current colours.
    pub fn draw_text(&mut self, string: &'static str, x: i32, y: i32)
        ensures
            final(self)@ == old(self)@.push(Command::Text { text: string@, x: x as int, y: y as int }),
    {
        self.push(DrawCommand::Text(string, x, y));
    }
}

} // verus!
