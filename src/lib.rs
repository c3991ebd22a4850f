//! A forest-fire cellular automaton: a square grid of empty, tree and burning
//! cells with an absorbing empty border, advanced one synchronous tick at a
//! time by a per-cell transition rule.

mod cell;
mod grid;
mod laws;
mod random;
mod simulation;

pub use cell::{any_burning, has_burning, rule, spread, CellState, CATCH_SCALE, DEFAULT_CATCH_CHANCE};
pub use grid::{
    border_empty, exposed, initial_cell, is_square, may_become, neighbor_cells, on_border, steps_to,
    Grid, GridError,
};
pub use laws::{
    is_run, lemma_border_empty_every_tick, lemma_burning_goes_out, lemma_certain_catch,
    lemma_empty_stays_empty, lemma_initial_border_empty, lemma_no_catch_no_spread, lemma_run_keeps_side,
    lemma_step_keeps_border_empty, lemma_tree_without_fire_stays,
};
pub use simulation::Simulation;
