//! The per-frame controller.
//!
//! One owned [`Game`] value holds the grid and the simulation state
//! (`paused`, `speed`, `button_cooldown`).  It is created once by
//! [`start`] and then driven once per display frame: the pointer may edit
//! a cell, the frame clock gates a generation advance through
//! [`propagate_life`], and the debounced widget interaction of
//! [`operate_user_controls`] applies speed and pause changes.

use vstd::arithmetic::div_mod::lemma_div_is_ordered;
use vstd::arithmetic::div_mod::lemma_div_plus_one;
use vstd::arithmetic::div_mod::lemma_fundamental_div_mod_converse;
use vstd::prelude::*;

use crate::canvas::Canvas;
use crate::canvas::Command;
use crate::interface::Button;
use crate::interface::CheckBox;
use crate::interface::Label;
use crate::interface::SpinBox;
use crate::interface::button_cmds;
use crate::interface::checkbox_cmds;
use crate::interface::draw_frame;
use crate::interface::draw_title;
use crate::interface::frame_cmds;
use crate::interface::label_cmds;
use crate::interface::rect_inside;
use crate::interface::spinbox_cmds;
use crate::interface::title_cmds;
use crate::pointer::Pointer;
use crate::world::cell_of;
use crate::world::AREA;
use crate::world::HEIGHT;
use crate::world::WIDTH;
use crate::world::World;
use crate::world::grid_index;
use crate::world::in_grid;
use crate::world::next_cell_of;
use crate::world::next_gen;

verus! {

/// Number of frames a speed control stays blocked after it fires.
pub const MAX_BUTTON_COOLDOWN: u8 = 6;

/// The frame clock runs at this many ticks per second, and a generation
/// advances every `TICKS_PER_SECOND / speed` ticks.
pub const TICKS_PER_SECOND: u8 = 60;

/// The whole mutable state of one running game: the grid plus the
/// simulation state owned by the controller.
pub struct Game {
    /// The toroidal grid of cells.
    pub world: World,
    /// Whether generation advance is suspended.
    pub paused: bool,
    /// Simulation speed, in generations per second; always in `[1, 6]`.
    pub speed: u8,
    /// Debounce countdown for the speed controls; always in `[0, 6]`.
    pub button_cooldown: u8,
}

impl Game {
    /// The state invariant: a full grid, speed in `[1, 6]`, cooldown in
    /// `[0, 6]`.
    pub open spec fn wf(self) -> bool {
        &&& self.world.wf()
        &&& 1 <= self.speed <= 6
        &&& self.button_cooldown <= 6
    }
}

/// Whether `(x, y)` carries a live cell of the fixed initial seed
/// pattern (a five-cell glider).
pub open spec fn seed_cell(x: int, y: int) -> bool {
    ||| x == 8 && y == 6
    ||| x == 9 && y == 7
    ||| x == 7 && y == 8
    ||| x == 8 && y == 8
    ||| x == 9 && y == 8
}

/// Create the initial game state: the seed pattern in an otherwise dead
/// grid, unpaused, at the slowest speed, with no cooldown pending.
pub fn start() -> (g: Game)
    ensures
        g.wf(),
        g.paused == false,
        g.speed == 1,
        g.button_cooldown == 0,
        forall|x: int, y: int| in_grid(x, y) ==> g.world.cell(x, y) == seed_cell(x, y),
{
    let mut world = World::new();
    world.set_cell(8, 6, true);
    world.set_cell(9, 7, true);
    world.set_cell(7, 8, true);
    world.set_cell(8, 8, true);
    world.set_cell(9, 8, true);
    Game { world, paused: false, speed: 1, button_cooldown: 0 }
}

/// Advance the grid by one generation: every cell is evaluated against
/// the previous generation only, written into a separate destination
/// grid, and the result is committed wholesale.  The next state is a
/// function of the previous snapshot alone.
pub fn propagate_life(world: &mut World)
    requires
        old(world).wf(),
    ensures
        final(world).wf(),
        final(world)@ == next_gen(old(world)@),
        forall|x: int, y: int|
            in_grid(x, y) ==> final(world).cell(x, y) == next_cell_of(old(world)@, x, y),
{
    let mut new_world = World::new();

    let mut x: i16 = 0;
    while x < WIDTH as i16
        invariant
            world.wf(),
            world@ == old(world)@,
            new_world.wf(),
            0 <= x <= WIDTH,
            forall|i: int, j: int|
                in_grid(i, j) && i < x ==> new_world.cell(i, j) == next_cell_of(world@, i, j),
        decreases WIDTH - x,
    {
        let mut y: i16 = 0;
        while y < HEIGHT as i16
            invariant
                world.wf(),
                world@ == old(world)@,
                new_world.wf(),
                0 <= x < WIDTH,
                0 <= y <= HEIGHT,
                forall|i: int, j: int|
                    in_grid(i, j) && i < x ==> new_world.cell(i, j) == next_cell_of(world@, i, j),
                forall|j: int|
                    0 <= j < y ==> new_world.cell(x as int, j) == next_cell_of(
                        world@,
                        x as int,
                        j,
                    ),
            decreases HEIGHT - y,
        {
            let alive = world.get_cell(x, y);
            let count = world.count_live_neighbours(x, y);

            let next = if alive {
                2 <= count && count < 4
            } else {
                count == 3
            };
            proof {
                assert(next == next_cell_of(world@, x as int, y as int));
            }
            let ghost prev_world = new_world;
            new_world.set_cell(x, y, next);
            proof {
                assert forall|j: int| 0 <= j < y + 1 implies new_world.cell(x as int, j)
                    == next_cell_of(world@, x as int, j) by {
                    if j < y {
                        assert(in_grid(x as int, j));
                        assert(new_world.cell(x as int, j) == prev_world.cell(x as int, j));
                    }
                }
            }
            y = y + 1;
        }
        x = x + 1;
    }

    proof {
        assert forall|idx: int| 0 <= idx < AREA implies new_world@[idx] == next_gen(world@)[idx] by {
            let xx = idx % (WIDTH as int);
            let yy = idx / (WIDTH as int);
            assert(in_grid(xx, yy));
            assert(grid_index(xx, yy) == idx);
        }
        assert(new_world@ =~= next_gen(world@));
    }

    world.replace(&new_world);
}

/// Whether the pointer edits a cell this frame: a button is held and the
/// pixel position maps into the grid rectangle (the inverse of the
/// display transform: a layout offset, a one-cell border inset of 4
/// pixels, and a cell pitch of 4 pixels on each axis).
pub open spec fn edit_applies(p: Pointer, ox: int, oy: int) -> bool {
    &&& p.left || p.right
    &&& 0 <= p.x - ox - 4 < 4 * (WIDTH as int)
    &&& 0 <= p.y - oy - 4 < 4 * (HEIGHT as int)
}

/// The grid column the pointer's pixel position maps to.
pub open spec fn edit_x(p: Pointer, ox: int) -> int {
    (p.x - ox - 4) / 4
}

/// The grid row the pointer's pixel position maps to.
pub open spec fn edit_y(p: Pointer, oy: int) -> int {
    (p.y - oy - 4) / 4
}

/// The grid after the frame's pointer edit: the mapped cell is set alive
/// under the left button and dead under the right; a position mapping
/// outside the grid leaves the grid unmodified.
pub open spec fn edited_grid(s: Seq<bool>, p: Pointer, ox: int, oy: int) -> Seq<bool> {
    if edit_applies(p, ox, oy) {
        s.update(grid_index(edit_x(p, ox), edit_y(p, oy)), p.left)
    } else {
        s
    }
}

/// While a pointer button is held, map the pointer's pixel position into
/// grid coordinates and edit that cell: alive under the left button, dead
/// under the right.  A position mapping outside the grid is silently
/// ignored and the grid is left unmodified.
pub fn draw_with_mouse(mouse: &Pointer, offset: (i32, i32), world: &mut World)
    requires
        old(world).wf(),
        i16::MIN <= offset.0 <= i16::MAX,
        i16::MIN <= offset.1 <= i16::MAX,
    ensures
        final(world).wf(),
        final(world)@ == edited_grid(old(world)@, *mouse, offset.0 as int, offset.1 as int),
{
    if mouse.left_pressed() || mouse.right_pressed() {
        let (x, y) = mouse.coordinates();
        let dx = x as i32 - offset.0 - 4;
        let dy = y as i32 - offset.1 - 4;
        if dx >= 0 && dx < 4 * WIDTH as i32 && dy >= 0 && dy < 4 * HEIGHT as i32 {
            let cell_x = (dx as usize / 4) as i16;
            let cell_y = (dy as usize / 4) as i16;
            if mouse.left_pressed() {
                world.set_cell(cell_x, cell_y, true);
            } else {
                world.set_cell(cell_x, cell_y, false);
            }
        }
    }
}

/// One frame's widget interaction, as the controller consumes it: whether
/// the pause box was clicked and whether each speed control is held.
pub struct ControlInput {
    /// The pause box toggle fired this frame (edge-triggered).
    pub pause_clicked: bool,
    /// The "+" control is clicked this frame (level-triggered).
    pub plus_clicked: bool,
    /// The "-" control is clicked this frame (level-triggered).
    pub minus_clicked: bool,
}

/// The simulation state the widget interaction acts on.
pub struct ControlState {
    /// Whether generation advance is suspended.
    pub paused: bool,
    /// Simulation speed, in `[1, 6]`.
    pub speed: u8,
    /// Debounce countdown, in `[0, 6]`.
    pub cooldown: u8,
}

/// The invariant of the simulation state.
pub open spec fn control_wf(st: ControlState) -> bool {
    1 <= st.speed <= 6 && st.cooldown <= 6
}

/// Whether a "+" click is honoured: no cooldown pending and the speed is
/// below its maximum.
pub open spec fn plus_fires(st: ControlState, inp: ControlInput) -> bool {
    st.cooldown == 0 && inp.plus_clicked && st.speed < 6
}

/// Whether a "-" click is honoured: no cooldown pending, the speed is
/// above its minimum, and the "+" control did not already fire this frame
/// (firing resets the shared cooldown, which blocks the other control).
pub open spec fn minus_fires(st: ControlState, inp: ControlInput) -> bool {
    !plus_fires(st, inp) && st.cooldown == 0 && inp.minus_clicked && st.speed > 1
}

/// One frame of widget interaction: the pause flag follows the (possibly
/// toggled) box, an honoured speed click moves the speed one step and
/// resets the cooldown to its maximum, and a pending cooldown counts down
/// by one at the end of the frame.
pub open spec fn control_step(st: ControlState, inp: ControlInput) -> ControlState {
    let speed = if plus_fires(st, inp) {
        (st.speed + 1) as u8
    } else if minus_fires(st, inp) {
        (st.speed - 1) as u8
    } else {
        st.speed
    };
    let reset = if plus_fires(st, inp) || minus_fires(st, inp) {
        MAX_BUTTON_COOLDOWN
    } else {
        st.cooldown
    };
    let cooldown = if reset > 0 {
        (reset - 1) as u8
    } else {
        reset
    };
    ControlState {
        paused: if inp.pause_clicked {
            !st.paused
        } else {
            st.paused
        },
        speed,
        cooldown,
    }
}

/// Speed bounds law: one frame of widget interaction never drives the
/// speed out of `[1, 6]` nor the cooldown out of `[0, 6]`.
pub proof fn lemma_control_step_bounds(st: ControlState, inp: ControlInput)
    requires
        control_wf(st),
    ensures
        control_wf(control_step(st, inp)),
{
}

/// Apply one frame of widget interaction to the simulation state, as
/// [`control_step`] describes it: toggle the pause box on an
/// edge-triggered click, honour at most one debounced speed click, mirror
/// the box's pressed flag into the pause flag, and count the cooldown
/// down.
pub fn operate_user_controls(
    paused_checkbox: &mut CheckBox,
    minus_button: &Button,
    plus_button: &Button,
    paused: &mut bool,
    speed: &mut u8,
    button_cooldown: &mut u8,
    mouse: &Pointer,
)
    ensures
        (ControlState {
            paused: *final(paused),
            speed: *final(speed),
            cooldown: *final(button_cooldown),
        }) == control_step(
            (ControlState {
                paused: old(paused_checkbox).pressed,
                speed: *old(speed),
                cooldown: *old(button_cooldown),
            }),
            (ControlInput {
                pause_clicked: old(paused_checkbox).spec_toggles(*mouse),
                plus_clicked: plus_button.spec_clicked(*mouse),
                minus_clicked: minus_button.spec_clicked(*mouse),
            }),
        ),
        *final(paused) == final(paused_checkbox).pressed,
        *final(paused_checkbox) == (CheckBox {
            pressed: final(paused_checkbox).pressed,
            ..*old(paused_checkbox)
        }),
{
    paused_checkbox.toggle(mouse);

    if *button_cooldown == 0 && plus_button.is_clicked(mouse) && *speed < 6 {
        *speed = *speed + 1;
        *button_cooldown = MAX_BUTTON_COOLDOWN;
    }

    if *button_cooldown == 0 && minus_button.is_clicked(mouse) && *speed > 1 {
        *speed = *speed - 1;
        *button_cooldown = MAX_BUTTON_COOLDOWN;
    }

    *paused = paused_checkbox.is_pressed();

    if *button_cooldown > 0 {
        *button_cooldown = *button_cooldown - 1;
    }
}

/// How many of the frames in `ins`, applied in order from `st`, increase
/// the speed.
pub open spec fn speed_increments(st: ControlState, ins: Seq<ControlInput>) -> int
    decreases ins.len(),
{
    if ins.len() == 0 {
        0
    } else {
        let st2 = control_step(st, ins[0]);
        (if st2.speed > st.speed {
            1int
        } else {
            0int
        }) + speed_increments(st2, ins.drop_first())
    }
}

/// The cooldown, capped at 5: after a control fires, the end-of-frame
/// countdown leaves at most 5 frames of remaining blockage.
pub open spec fn capped_cooldown(c: u8) -> int {
    if c <= 5 {
        c as int
    } else {
        5
    }
}

proof fn lemma_debounce_from(st: ControlState, ins: Seq<ControlInput>)
    requires
        control_wf(st),
    ensures
        speed_increments(st, ins) <= (ins.len() + 5 - capped_cooldown(st.cooldown)) / 6,
        speed_increments(st, ins) >= 0,
    decreases ins.len(),
{
    let n = ins.len() as int;
    if ins.len() == 0 {
    } else {
        let st2 = control_step(st, ins[0]);
        lemma_control_step_bounds(st, ins[0]);
        lemma_debounce_from(st2, ins.drop_first());
        if st2.speed > st.speed {
            assert(st.cooldown == 0);
            assert(st2.cooldown == 5);
            lemma_div_plus_one(n - 1, 6);
        } else {
            lemma_div_is_ordered(
                n - 1 + 5 - capped_cooldown(st2.cooldown),
                n + 5 - capped_cooldown(st.cooldown),
                6,
            );
        }
    }
}

/// Debounce law: whatever controls are held over any run of `N`
/// consecutive frames, the speed is incremented at most `ceil(N / 6)`
/// times, never once per frame.
pub proof fn lemma_debounce(st: ControlState, ins: Seq<ControlInput>)
    requires
        control_wf(st),
    ensures
        speed_increments(st, ins) <= (ins.len() + 5) / 6,
{
    lemma_debounce_from(st, ins);
    lemma_div_is_ordered(
        ins.len() as int + 5 - capped_cooldown(st.cooldown),
        ins.len() as int + 5,
        6,
    );
}

/// Build the frame's control widgets from fixed offsets relative to the
/// controls row at `controls_y`: the pause box mirroring `paused`, the
/// speed label, and the "-" / spin box / "+" row showing `speed`.
pub fn create_user_controls(controls_y: i32, paused: bool, speed: u8) -> (r: (
    CheckBox,
    Label,
    Button,
    SpinBox,
    Button,
))
    requires
        controls_y <= i32::MAX - 15,
    ensures
        r.0 == (CheckBox {
            string: r.0.string,
            x: 38,
            y: (controls_y + 15) as i32,
            width: 84,
            height: 12,
            pressed: paused,
        }),
        r.0.string@ == "Pause"@,
        r.1 == (Label { string: r.1.string, x: 32, y: controls_y, width: 60, height: 12 }),
        r.1.string@ == "Speed:"@,
        r.2 == (Button { string: r.2.string, x: 92, y: controls_y, width: 12, height: 12 }),
        r.2.string@ == "-"@,
        r.3 == (SpinBox { value: speed, x: 104, y: controls_y, width: 12, height: 12 }),
        r.4 == (Button { string: r.4.string, x: 116, y: controls_y, width: 12, height: 12 }),
        r.4.string@ == "+"@,
{
    let paused_button_y: i32 = 15;
    let row_y: i32 = 0;

    let checkbox_width: u32 = 4 + 8 * 10;
    let checkbox_x = ((160 - checkbox_width) / 2) as i32;
    let mut paused_checkbox = CheckBox::new(
        "Pause",
        checkbox_x,
        controls_y + paused_button_y,
        checkbox_width,
        4 + 8,
    );
    paused_checkbox.set_pressed(paused);

    let row_width: u32 = (4 + 8 * 7) + (4 + 8) + (4 + 8) + (4 + 8);
    let row_x = ((160 - row_width) / 2) as i32;

    let label_x = row_x;
    let minus_button_x = row_x + 4 + 8 * 7;
    let spinbox_x = row_x + 4 * 2 + 8 * (7 + 1);
    let plus_button_x = row_x + 4 * 3 + 8 * (7 + 1 + 1);

    let label = Label::new("Speed:", label_x, controls_y + row_y, 4 + 8 * 7, 4 + 8);
    let minus_button = Button::new("-", minus_button_x, controls_y + row_y, 4 + 8, 4 + 8);
    let spinbox = SpinBox::new(speed, spinbox_x, controls_y + row_y, 4 + 8, 4 + 8);
    let plus_button = Button::new("+", plus_button_x, controls_y + row_y, 4 + 8, 4 + 8);

    (paused_checkbox, label, minus_button, spinbox, plus_button)
}

/// The commands the grid's live cells emit, cell by cell in drawing
/// order (columns outer, rows inner), after the first `k` cells have
/// been considered.
pub open spec fn world_rects_upto(s: Seq<bool>, ox: int, oy: int, k: int) -> Seq<Command>
    decreases k,
{
    if k <= 0 {
        Seq::<Command>::empty()
    } else {
        world_rects_upto(s, ox, oy, k - 1) + (if cell_of(
            s,
            (k - 1) / (HEIGHT as int),
            (k - 1) % (HEIGHT as int),
        ) {
            seq![
                Command::Rect {
                    x: ox + 4 + 4 * ((k - 1) / (HEIGHT as int)),
                    y: oy + 4 + 4 * ((k - 1) % (HEIGHT as int)),
                    width: 4,
                    height: 4,
                },
            ]
        } else {
            Seq::<Command>::empty()
        })
    }
}

/// The commands that render the grid at layout offset `(ox, oy)`: one
/// 4-by-4 rectangle per live cell, inside the frame's one-cell border.
pub open spec fn world_cmds(s: Seq<bool>, ox: int, oy: int) -> Seq<Command> {
    seq![Command::SetColors { colors: 2 }] + world_rects_upto(s, ox, oy, AREA as int)
}

/// Emit one rectangle for every live cell of the grid.
pub fn draw_world(world: &World, offset: (i32, i32), canvas: &mut Canvas)
    requires
        world.wf(),
        -32768 <= offset.0 <= 32767,
        -32768 <= offset.1 <= 32767,
    ensures
        final(canvas)@ == old(canvas)@ + world_cmds(world@, offset.0 as int, offset.1 as int),
{
    let ghost ox = offset.0 as int;
    let ghost oy = offset.1 as int;
    canvas.set_drawing_colors(2);
    let ghost base = canvas@;

    let mut x: i16 = 0;
    while x < WIDTH as i16
        invariant
            world.wf(),
            -32768 <= offset.0 <= 32767,
            -32768 <= offset.1 <= 32767,
            ox == offset.0 as int,
            oy == offset.1 as int,
            0 <= x <= WIDTH,
            canvas@ == base + world_rects_upto(world@, ox, oy, (x as int) * (HEIGHT as int)),
        decreases WIDTH - x,
    {
        let mut y: i16 = 0;
        while y < HEIGHT as i16
            invariant
                world.wf(),
                -32768 <= offset.0 <= 32767,
                -32768 <= offset.1 <= 32767,
                ox == offset.0 as int,
                oy == offset.1 as int,
                0 <= x < WIDTH,
                0 <= y <= HEIGHT,
                canvas@ == base + world_rects_upto(
                    world@,
                    ox,
                    oy,
                    (x as int) * (HEIGHT as int) + (y as int),
                ),
            decreases HEIGHT - y,
        {
            if world.get_cell(x, y) {
                canvas.draw_rect(
                    offset.0 + 4 + (x as i32) * 4,
                    offset.1 + 4 + (y as i32) * 4,
                    4,
                    4,
                );
            }
            proof {
                let k = (x as int) * (HEIGHT as int) + (y as int) + 1;
                lemma_fundamental_div_mod_converse(k - 1, HEIGHT as int, x as int, y as int);
                assert(canvas@ =~= base + world_rects_upto(world@, ox, oy, k));
            }
            y = y + 1;
        }
        x = x + 1;
    }

    proof {
        assert(canvas@ =~= old(canvas)@ + world_cmds(world@, ox, oy));
    }
}

/// The commands of the pointer cursor indicator: a small cross at the
/// pointer's position.
pub open spec fn pointer_cmds(p: Pointer) -> Seq<Command> {
    seq![
        Command::SetColors { colors: 4 },
        Command::VLine { x: p.x as int, y: p.y - 1, height: 3 },
        Command::HLine { x: p.x - 1, y: p.y as int, width: 3 },
    ]
}

/// Emit the pointer cursor indicator.
pub fn draw_mouse_pointer(mouse: &Pointer, canvas: &mut Canvas)
    ensures
        final(canvas)@ == old(canvas)@ + pointer_cmds(*mouse),
{
    let (x, y) = mouse.coordinates();
    canvas.set_drawing_colors(4);
    canvas.draw_vertical_line(x as i32, y as i32 - 1, 3);
    canvas.draw_horizontal_line(x as i32 - 1, y as i32, 3);
    proof {
        assert(canvas@ =~= old(canvas)@ + pointer_cmds(*mouse));
    }
}

/// Emit the whole frame: title, decorated frame, grid contents, the
/// widgets, then the pointer cursor indicator.
pub fn draw(
    offset: (i32, i32),
    world: &World,
    paused_checkbox: &CheckBox,
    label: &Label,
    minus_button: &Button,
    spinbox: &SpinBox,
    plus_button: &Button,
    mouse: &Pointer,
    canvas: &mut Canvas,
)
    requires
        world.wf(),
        -32768 <= offset.0 <= 32767,
        -32768 <= offset.1 <= 32767,
        crate::interface::face_fits(
            paused_checkbox.string@,
            paused_checkbox.x as int,
            paused_checkbox.y as int,
            paused_checkbox.width as int,
        ),
        crate::interface::face_fits(
            minus_button.string@,
            minus_button.x as int,
            minus_button.y as int,
            minus_button.width as int,
        ),
        crate::interface::face_fits(
            plus_button.string@,
            plus_button.x as int,
            plus_button.y as int,
            plus_button.width as int,
        ),
        label.x <= i32::MAX - 1,
        label.y <= i32::MAX - 1,
        i32::MIN < spinbox.x,
        i32::MIN < spinbox.y,
        spinbox.x <= i32::MAX - 1,
        spinbox.y <= i32::MAX - 1,
    ensures
        final(canvas)@ == old(canvas)@ + title_cmds() + frame_cmds(
            offset.0 as int,
            offset.1 as int,
        ) + world_cmds(world@, offset.0 as int, offset.1 as int) + checkbox_cmds(
            paused_checkbox.string@,
            paused_checkbox.x as int,
            paused_checkbox.y as int,
            paused_checkbox.width as int,
            paused_checkbox.height as int,
            paused_checkbox.pressed,
            *mouse,
        ) + label_cmds(label.string@, label.x as int, label.y as int) + button_cmds(
            minus_button.string@,
            minus_button.x as int,
            minus_button.y as int,
            minus_button.width as int,
            minus_button.height as int,
            *mouse,
        ) + spinbox_cmds(
            spinbox.value as int,
            spinbox.x as int,
            spinbox.y as int,
            spinbox.width as int,
            spinbox.height as int,
        ) + button_cmds(
            plus_button.string@,
            plus_button.x as int,
            plus_button.y as int,
            plus_button.width as int,
            plus_button.height as int,
            *mouse,
        ) + pointer_cmds(*mouse),
{
    draw_title(canvas);
    draw_frame(canvas, offset);
    draw_world(world, offset, canvas);

    paused_checkbox.draw(canvas, mouse);
    label.draw(canvas);
    minus_button.draw(canvas, mouse);
    spinbox.draw(canvas);
    plus_button.draw(canvas, mouse);

    draw_mouse_pointer(mouse, canvas);
}

/// Ticks between generation advances at a given speed.
pub open spec fn period_of(speed: u8) -> int {
    60int / (speed as int)
}

/// Whether a frame at `tick` advances a generation: the simulation is
/// not paused and the tick is a multiple of the period.
pub open spec fn advances(paused: bool, speed: u8, tick: u32) -> bool {
    !paused && (tick as int) % period_of(speed) == 0
}

/// The grid after one frame: first the pointer edit, then — when the
/// frame clock gates it — one generation advance.
pub open spec fn world_after_frame(
    s: Seq<bool>,
    p: Pointer,
    tick: u32,
    paused: bool,
    speed: u8,
    ox: int,
    oy: int,
) -> Seq<bool> {
    let edited = edited_grid(s, p, ox, oy);
    if advances(paused, speed, tick) {
        next_gen(edited)
    } else {
        edited
    }
}

/// Period law: at the slowest speed a generation advances exactly on
/// every 60th tick, and at the fastest on every 10th.
pub proof fn lemma_generation_period(tick: u32)
    ensures
        period_of(1) == 60,
        period_of(6) == 10,
        advances(false, 1, tick) <==> (tick as int) % 60 == 0,
        advances(false, 6, tick) <==> (tick as int) % 10 == 0,
{
}

/// Edit bounds law: the pointer edits a cell exactly when a button is
/// held and the mapped coordinate lies inside the grid; any position
/// mapping outside leaves the grid unmodified.
pub proof fn lemma_edit_bounds(s: Seq<bool>, p: Pointer, ox: int, oy: int)
    ensures
        edit_applies(p, ox, oy) <==> ((p.left || p.right) && in_grid(edit_x(p, ox), edit_y(p, oy))),
        !((p.left || p.right) && in_grid(edit_x(p, ox), edit_y(p, oy))) ==> edited_grid(
            s,
            p,
            ox,
            oy,
        ) == s,
{
    let dx = p.x - ox - 4;
    let dy = p.y - oy - 4;
    assert((0 <= dx < 4 * (WIDTH as int)) <==> (0 <= dx / 4 < WIDTH)) by (nonlinear_arith);
    assert((0 <= dy < 4 * (HEIGHT as int)) <==> (0 <= dy / 4 < HEIGHT)) by (nonlinear_arith);
}

/// The widget interaction a pointer produces against the fixed control
/// layout (the controls row sits at height 118, the pause box below it).
pub open spec fn update_input(p: Pointer) -> ControlInput {
    ControlInput {
        pause_clicked: rect_inside(38, 133, 84, 12, p) && p.left_clicked(),
        plus_clicked: rect_inside(116, 118, 12, 12, p) && p.left,
        minus_clicked: rect_inside(92, 118, 12, 12, p) && p.left,
    }
}

/// One full frame: the pointer may edit the grid, the frame clock gates
/// a generation advance, the widgets apply debounced speed and pause
/// changes, and the whole scene is emitted onto the canvas.
pub fn update(game: &mut Game, mouse: &Pointer, tick: u32, canvas: &mut Canvas)
    requires
        old(game).wf(),
    ensures
        final(game).wf(),
        final(game).world@ == world_after_frame(
            old(game).world@,
            *mouse,
            tick,
            old(game).paused,
            old(game).speed,
            0,
            30,
        ),
        (ControlState {
            paused: final(game).paused,
            speed: final(game).speed,
            cooldown: final(game).button_cooldown,
        }) == control_step(
            (ControlState {
                paused: old(game).paused,
                speed: old(game).speed,
                cooldown: old(game).button_cooldown,
            }),
            update_input(*mouse),
        ),
        final(canvas)@ == old(canvas)@ + title_cmds() + frame_cmds(0, 30) + world_cmds(
            final(game).world@,
            0,
            30,
        ) + checkbox_cmds("Pause"@, 38, 133, 84, 12, final(game).paused, *mouse) + label_cmds(
            "Speed:"@,
            32,
            118,
        ) + button_cmds("-"@, 92, 118, 12, 12, *mouse) + spinbox_cmds(
            old(game).speed as int,
            104,
            118,
            12,
            12,
        ) + button_cmds("+"@, 116, 118, 12, 12, *mouse) + pointer_cmds(*mouse),
{
    let offset: (i32, i32) = (0, 30);

    draw_with_mouse(mouse, offset, &mut game.world);

    let period = 60 / game.speed;
    proof {
        vstd::arithmetic::div_mod::lemma_div_is_ordered_by_denominator(60, game.speed as int, 6);
    }
    if !game.paused && tick % (period as u32) == 0 {
        propagate_life(&mut game.world);
    }

    let controls_y: i32 = 118;
    let (mut paused_checkbox, label, minus_button, spinbox, plus_button) = create_user_controls(
        controls_y,
        game.paused,
        game.speed,
    );

    operate_user_controls(
        &mut paused_checkbox,
        &minus_button,
        &plus_button,
        &mut game.paused,
        &mut game.speed,
        &mut game.button_cooldown,
        mouse,
    );

    proof {
        reveal_strlit("Pause");
        reveal_strlit("-");
        reveal_strlit("+");
        lemma_control_step_bounds(
            ControlState {
                paused: old(game).paused,
                speed: old(game).speed,
                cooldown: old(game).button_cooldown,
            },
            update_input(*mouse),
        );
    }

    draw(
        offset,
        &game.world,
        &paused_checkbox,
        &label,
        &minus_button,
        &spinbox,
        &plus_button,
        mouse,
        canvas,
    );
}

} // verus!
