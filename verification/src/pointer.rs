//! The per-frame pointer snapshot.
//!
//! A `Pointer` holds the pixel coordinates of the pointing device, the
//! "currently held" flags of its two buttons, and the left flag of the
//! previous frame, from which edge-triggered click detection ("the left
//! button transitioned to held this frame") is derived.  The host refreshes
//! the snapshot once per frame, after the controller has consumed it.

use vstd::prelude::*;

verus! {

/// A read-only snapshot of the pointing device for one frame.
#[derive(Clone, Copy, PartialEq, Eq, Structural)]
pub struct Pointer {
    /// Horizontal pixel coordinate.
    pub x: i16,
    /// Vertical pixel coordinate.
    pub y: i16,
    /// Whether the left button is currently held.
    pub left: bool,
    /// Whether the right button is currently held.
    pub right: bool,
    /// Whether the left button was held on the previous frame.
    pub prev_left: bool,
}

impl Pointer {
    /// Whether the left button transitioned to held this frame.
    pub open spec fn left_clicked(self) -> bool {
        self.left && !self.prev_left
    }

    /// A snapshot for the first frame: no previous button state exists,
    /// so the previous left flag starts released.
    pub fn new(x: i16, y: i16, left: bool, right: bool) -> (r: Pointer)
        ensures
            r == (Pointer { x, y, left, right, prev_left: false }),
    {
        Pointer { x, y, left, right, prev_left: false }
    }

    /// The snapshot for the next frame: the host supplies the fresh
    /// device state, and this frame's left flag becomes the previous one.
    pub fn refreshed(self, x: i16, y: i16, left: bool, right: bool) -> (r: Pointer)
        ensures
            r == (Pointer { x, y, left, right, prev_left: self.left }),
    {
        Pointer { x, y, left, right, prev_left: self.left }
    }

    /// The current pixel coordinates.
    pub fn coordinates(&self) -> (r: (i16, i16))
        ensures
            r.0 == self.x,
            r.1 == self.y,
    {
        (self.x, self.y)
    }

    /// Whether the left button is currently held.
    pub fn left_pressed(&self) -> (r: bool)
        ensures
            r == self.left,
    {
        self.left
    }

    /// Whether the right button is currently held.
    pub fn right_pressed(&self) -> (r: bool)
        ensures
            r == self.right,
    {
        self.right
    }

    /// Whether the left button transitioned to held this frame.
    pub fn left_just_pressed(&self) -> (r: bool)
        ensures
            r == self.left_clicked(),
    {
        self.left && !self.prev_left
    }
}

} // verus!
