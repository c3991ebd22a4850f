use vstd::prelude::*;

use crate::grid::{border_empty, initial_cell, steps_to, Grid, GridError};
use crate::laws::{lemma_initial_border_empty, lemma_step_keeps_border_empty};

verus! {

/// A running forest fire: the current grid, the chance that a tree next to fire
/// catches (in units of `CATCH_SCALE`), and the random source that decides it.
pub struct Simulation {
    grid: Grid,
    catch_chance: u32,
    rng: fastrand::Rng,
}

impl Simulation {
    /// The current grid.
    pub closed spec fn spec_grid(&self) -> Grid {
        self.grid
    }

    /// The catch chance, in units of `CATCH_SCALE`.
    pub closed spec fn spec_catch_chance(&self) -> u32 {
        self.catch_chance
    }

    /// The current grid is well formed and its border is empty.
    pub open spec fn wf(&self) -> bool {
        self.spec_grid().wf() && border_empty(self.spec_grid()@)
    }

    /// Starts a fire on a fresh grid of side `size` (see `Grid::new`); a side
    /// under 3 is refused.
    pub fn new(size: usize, catch_chance: u32, rng: fastrand::Rng) -> (r: Result<Simulation, GridError>)
        ensures
            size < 3 <==> r is Err,
            r matches Err(e) ==> e == GridError::InvalidSize,
            r matches Ok(s) ==> {
                &&& s.wf()
                &&& s.spec_catch_chance() == catch_chance
                &&& s.spec_grid()@.len() == size
                &&& forall|i: int, j: int|
                    0 <= i < size && 0 <= j < size ==> #[trigger] s.spec_grid()@[i][j] == initial_cell(
                        size as int,
                        i,
                        j,
                    )
            },
    {
        match Grid::new(size) {
            Ok(grid) => {
                proof {
                    lemma_initial_border_empty(grid@);
                }
                Ok(Simulation { grid, catch_chance, rng })
            },
            Err(e) => Err(e),
        }
    }

    /// The current grid.
    pub fn grid(&self) -> (r: &Grid)
        ensures
            *r == self.spec_grid(),
    {
        &self.grid
    }

    /// The catch chance, in units of `CATCH_SCALE`.
    pub fn catch_chance(&self) -> (r: u32)
        ensures
            r == self.spec_catch_chance(),
    {
        self.catch_chance
    }

    /// Advances the fire by one tick: the current grid is replaced by its
    /// successor under the transition rule.
    pub fn tick(&mut self)
        requires
            old(self).wf(),
        ensures
            final(self).wf(),
            final(self).spec_catch_chance() == old(self).spec_catch_chance(),
            steps_to(
                old(self).spec_grid()@,
                final(self).spec_grid()@,
                old(self).spec_catch_chance() as int,
            ),
    {
        let next = self.grid.step(&mut self.rng, self.catch_chance);
        proof {
            lemma_step_keeps_border_empty(self.grid@, next@, self.catch_chance as int);
        }
        self.grid = next;
    }
}

} // verus!
