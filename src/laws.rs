use vstd::prelude::*;

use crate::cell::{CellState, CATCH_SCALE};
use crate::grid::{border_empty, exposed, initial_cell, is_square, on_border, steps_to};

verus! {

/// `trace` lists the grids of a run, one per tick: it starts from a square
/// grid and each grid is a possible successor of the one before it.
pub open spec fn is_run(trace: Seq<Seq<Seq<CellState>>>, catch_chance: int) -> bool {
    &&& trace.len() > 0
    &&& is_square(trace[0])
    &&& forall|t: int| 0 <= t < trace.len() - 1 ==> steps_to(#[trigger] trace[t], trace[t + 1], catch_chance)
}

/// A freshly built grid has an empty border.
pub proof fn lemma_initial_border_empty(g: Seq<Seq<CellState>>)
    requires
        is_square(g),
        forall|i: int, j: int|
            0 <= i < g.len() && 0 <= j < g.len() ==> #[trigger] g[i][j] == initial_cell(g.len() as int, i, j),
    ensures
        border_empty(g),
{
}

/// One tick keeps an empty border empty: the rule never turns an empty cell
/// into anything else.
pub proof fn lemma_step_keeps_border_empty(
    prev: Seq<Seq<CellState>>,
    next: Seq<Seq<CellState>>,
    catch_chance: int,
)
    requires
        border_empty(prev),
        steps_to(prev, next, catch_chance),
    ensures
        border_empty(next),
{
    assert forall|i: int, j: int|
        0 <= i < next.len() && 0 <= j < next.len() && on_border(next.len() as int, i, j)
        implies #[trigger] next[i][j] == CellState::Empty by {
        assert(prev[i][j] == CellState::Empty);
    }
}

/// Every grid of a run has the same side as the first.
pub proof fn lemma_run_keeps_side(trace: Seq<Seq<Seq<CellState>>>, catch_chance: int, t: int)
    requires
        is_run(trace, catch_chance),
        0 <= t < trace.len(),
    ensures
        trace[t].len() == trace[0].len(),
        is_square(trace[t]),
    decreases t,
{
    if t > 0 {
        lemma_run_keeps_side(trace, catch_chance, t - 1);
        assert(steps_to(trace[t - 1], trace[t], catch_chance));
    }
}

/// In a run that starts with an empty border, the border is empty at every
/// tick.
pub proof fn lemma_border_empty_every_tick(trace: Seq<Seq<Seq<CellState>>>, catch_chance: int, t: int)
    requires
        is_run(trace, catch_chance),
        border_empty(trace[0]),
        0 <= t < trace.len(),
    ensures
        border_empty(trace[t]),
    decreases t,
{
    if t > 0 {
        lemma_border_empty_every_tick(trace, catch_chance, t - 1);
        assert(steps_to(trace[t - 1], trace[t], catch_chance));
        lemma_step_keeps_border_empty(trace[t - 1], trace[t], catch_chance);
    }
}

/// A burning cell is empty one tick later, whatever the draw.
pub proof fn lemma_burning_goes_out(
    prev: Seq<Seq<CellState>>,
    next: Seq<Seq<CellState>>,
    catch_chance: int,
    i: int,
    j: int,
)
    requires
        steps_to(prev, next, catch_chance),
        0 <= i < prev.len(),
        0 <= j < prev.len(),
        prev[i][j] == CellState::Burning,
    ensures
        next[i][j] == CellState::Empty,
{
}

/// A tree with no burning neighbor is still a tree one tick later.
pub proof fn lemma_tree_without_fire_stays(
    prev: Seq<Seq<CellState>>,
    next: Seq<Seq<CellState>>,
    catch_chance: int,
    i: int,
    j: int,
)
    requires
        steps_to(prev, next, catch_chance),
        0 <= i < prev.len(),
        0 <= j < prev.len(),
        prev[i][j] == CellState::Tree,
        !exposed(prev, i, j),
    ensures
        next[i][j] == CellState::Tree,
{
}

/// An empty cell stays empty at every later tick of a run: nothing regrows
/// and nothing ignites by itself.
pub proof fn lemma_empty_stays_empty(
    trace: Seq<Seq<Seq<CellState>>>,
    catch_chance: int,
    t: int,
    u: int,
    i: int,
    j: int,
)
    requires
        is_run(trace, catch_chance),
        0 <= t <= u < trace.len(),
        0 <= i < trace[0].len(),
        0 <= j < trace[0].len(),
        trace[t][i][j] == CellState::Empty,
    ensures
        trace[u][i][j] == CellState::Empty,
    decreases u - t,
{
    if u > t {
        lemma_empty_stays_empty(trace, catch_chance, t, u - 1, i, j);
        lemma_run_keeps_side(trace, catch_chance, u - 1);
        assert(steps_to(trace[u - 1], trace[u], catch_chance));
    }
}

/// With a catch chance of `CATCH_SCALE` or more, a tree next to fire is
/// burning one tick later.
pub proof fn lemma_certain_catch(
    prev: Seq<Seq<CellState>>,
    next: Seq<Seq<CellState>>,
    catch_chance: int,
    i: int,
    j: int,
)
    requires
        catch_chance >= CATCH_SCALE,
        steps_to(prev, next, catch_chance),
        0 <= i < prev.len(),
        0 <= j < prev.len(),
        prev[i][j] == CellState::Tree,
        exposed(prev, i, j),
    ensures
        next[i][j] == CellState::Burning,
{
}

/// With a catch chance of 0 the fire never spreads: from the first tick on
/// nothing burns, what burned at the start is empty, and every tree of the
/// start is still a tree.
pub proof fn lemma_no_catch_no_spread(trace: Seq<Seq<Seq<CellState>>>, t: int, i: int, j: int)
    requires
        is_run(trace, 0),
        1 <= t < trace.len(),
        0 <= i < trace[0].len(),
        0 <= j < trace[0].len(),
    ensures
        trace[t][i][j] == (if trace[0][i][j] == CellState::Tree {
            CellState::Tree
        } else {
            CellState::Empty
        }),
        trace[t][i][j] != CellState::Burning,
        trace[0][i][j] == CellState::Burning ==> trace[t][i][j] == CellState::Empty,
        trace[0][i][j] == CellState::Tree ==> trace[t][i][j] == CellState::Tree,
    decreases t,
{
    lemma_run_keeps_side(trace, 0, t - 1);
    assert(steps_to(trace[t - 1], trace[t], 0));
    if t > 1 {
        lemma_no_catch_no_spread(trace, t - 1, i, j);
    }
}

} // verus!
