//! An interactive engine for Conway's Game of Life on a toroidal grid.
//!
//! The library is organised around three pieces:
//!
//! - [`world`]: the fixed-size toroidal grid of cells, its neighbour
//!   arithmetic and the generation-advance rule;
//! - [`pointer`] and [`interface`]: the per-frame input snapshot and the
//!   interactive widgets (hit-testing and toggling, plus the command
//!   sequences of their faces);
//! - [`game`]: the per-frame controller fusing timing, pointer-driven
//!   editing and debounced widget interaction into the next state.
//!
//! Rendering is modelled as data: the host's pixel primitives are
//! external collaborators, so every frame emits a sequence of drawing
//! commands into a [`canvas::Canvas`], which a host replays against its
//! real drawing surface.

pub mod canvas;
pub mod game;
pub mod interface;
pub mod pointer;
pub mod world;
