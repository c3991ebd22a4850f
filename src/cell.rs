use vstd::prelude::*;

verus! {

/// The denominator of a catch chance: a chance of `c` means that a tree next to
/// fire ignites with probability `c / CATCH_SCALE` (a chance of `CATCH_SCALE` or
/// more ignites it always, a chance of 0 never).
pub const CATCH_SCALE: u32 = 1_000_000;

/// One half, in units of `CATCH_SCALE`.
pub const DEFAULT_CATCH_CHANCE: u32 = 500_000;

/// The state of one cell of the forest.
#[derive(Clone, Copy, Debug, PartialEq, Eq, Structural)]
pub enum CellState {
    Empty,
    Tree,
    Burning,
}

/// Whether some cell of `s` is burning.
pub open spec fn has_burning(s: Seq<CellState>) -> bool {
    exists|k: int| 0 <= k < s.len() && #[trigger] s[k] == CellState::Burning
}

/// The transition rule of one cell: `exposed` says that a neighbor burns,
/// `ignite` that the random draw for this cell came out in favour of catching.
pub open spec fn rule(site: CellState, exposed: bool, ignite: bool) -> CellState {
    match site {
        CellState::Empty => CellState::Empty,
        CellState::Burning => CellState::Empty,
        CellState::Tree => if exposed && ignite {
            CellState::Burning
        } else {
            CellState::Tree
        },
    }
}

/// Tests whether any of `neighbors` is burning.
pub fn any_burning(neighbors: &Vec<CellState>) -> (r: bool)
    ensures
        r == has_burning(neighbors@),
{
    let mut k: usize = 0;
    while k < neighbors.len()
        invariant
            k <= neighbors@.len(),
            forall|m: int| 0 <= m < k ==> neighbors@[m] != CellState::Burning,
        decreases neighbors@.len() - k,
    {
        if neighbors[k] == CellState::Burning {
            return true;
        }
        k += 1;
    }
    false
}

/// The next state of a cell whose current state is `site` and whose neighbors
/// are `neighbors`. `draw` is a uniform draw from `0..CATCH_SCALE`; a tree next
/// to fire catches when the draw falls below `catch_chance`.
pub fn spread(site: CellState, neighbors: &Vec<CellState>, draw: u32, catch_chance: u32) -> (r: CellState)
    ensures
        r == rule(site, has_burning(neighbors@), draw < catch_chance),
{
    match site {
        CellState::Empty => CellState::Empty,
        CellState::Tree => {
            if any_burning(neighbors) && draw < catch_chance {
                CellState::Burning
            } else {
                CellState::Tree
            }
        },
        CellState::Burning => CellState::Empty,
    }
}

} // verus!
