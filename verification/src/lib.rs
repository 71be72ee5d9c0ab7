//! Grid-based snake simulation.
//!
//! A [`Simulation`] owns a rectangular grid, the snake as an ordered list of
//! cells with the head first, the heading, the food cell, the score and the
//! running state. It advances by one discrete step per call of
//! [`Simulation::tick`], which reports what happened as a [`TickEvent`].
//!
//! Every operation carries a contract over [`SimulationView`], the
//! mathematical model of a simulation, and the rules of the game are stated
//! once, as spec functions on that model.

pub mod checks;
pub mod grid;
pub mod input;
pub mod laws;
pub mod model;
pub mod placement;
mod rng;
pub mod simulation;

pub use checks::{food_is_valid, snake_is_valid};
pub use grid::{
    clamp_position, grid_center, grid_is_valid, next_head, on_grid, Direction, Position, GRID_HEIGHT,
    GRID_WIDTH,
};
pub use input::{direction_from_keys, effective_direction};
pub use model::{SimulationError, SimulationState, SimulationView, TickEvent};
pub use placement::{count_free_cells, nth_free_cell, occupies, occupies_first};
pub use simulation::Simulation;
