use vstd::prelude::*;

use crate::cell::{any_burning, has_burning, rule, spread, CellState, CATCH_SCALE};
use crate::random::draw_below;

verus! {

/// What can go wrong when a grid is built or queried.
#[derive(Clone, Copy, Debug, PartialEq, Eq, Structural)]
pub enum GridError {
    /// The side is too short to hold a border and at least one interior cell.
    InvalidSize,
    /// A row or column lies outside the grid.
    IndexOutOfRange,
}

/// Every row of `g` is as long as `g` has rows.
pub open spec fn is_square(g: Seq<Seq<CellState>>) -> bool {
    forall|i: int| 0 <= i < g.len() ==> #[trigger] g[i].len() == g.len()
}

/// Whether `(i, j)` lies on the outer ring of a grid of side `n`.
pub open spec fn on_border(n: int, i: int, j: int) -> bool {
    i == 0 || j == 0 || i == n - 1 || j == n - 1
}

/// Every cell on the outer ring of `g` is empty.
pub open spec fn border_empty(g: Seq<Seq<CellState>>) -> bool {
    forall|i: int, j: int|
        0 <= i < g.len() && 0 <= j < g.len() && on_border(g.len() as int, i, j)
            ==> #[trigger] g[i][j] == CellState::Empty
}

/// The starting state of cell `(i, j)` of a grid of side `n`: an empty border,
/// a burning center and trees everywhere else.
pub open spec fn initial_cell(n: int, i: int, j: int) -> CellState {
    if on_border(n, i, j) {
        CellState::Empty
    } else if i == n / 2 && j == n / 2 {
        CellState::Burning
    } else {
        CellState::Tree
    }
}

/// The cells above, below, left and right of `(i, j)`, in that order, leaving
/// out those that fall outside `g`.
pub open spec fn neighbor_cells(g: Seq<Seq<CellState>>, i: int, j: int) -> Seq<CellState> {
    let n = g.len() as int;
    (if i > 0 { seq![g[i - 1][j]] } else { Seq::empty() })
        + (if i + 1 < n { seq![g[i + 1][j]] } else { Seq::empty() })
        + (if j > 0 { seq![g[i][j - 1]] } else { Seq::empty() })
        + (if j + 1 < n { seq![g[i][j + 1]] } else { Seq::empty() })
}

/// Some neighbor of `(i, j)` burns.
pub open spec fn exposed(g: Seq<Seq<CellState>>, i: int, j: int) -> bool {
    has_burning(neighbor_cells(g, i, j))
}

/// Whether cell `(i, j)` of `g` may be in state `c` one tick later, whatever
/// the random draw, when a tree next to fire catches with chance
/// `catch_chance / CATCH_SCALE`.
pub open spec fn may_become(g: Seq<Seq<CellState>>, i: int, j: int, catch_chance: int, c: CellState) -> bool {
    let site = g[i][j];
    if site == CellState::Tree && exposed(g, i, j) {
        &&& (c == CellState::Tree || c == CellState::Burning)
        &&& (catch_chance >= CATCH_SCALE ==> c == CellState::Burning)
        &&& (catch_chance <= 0 ==> c == CellState::Tree)
    } else {
        c == rule(site, exposed(g, i, j), false)
    }
}

/// `next` is a possible successor of the square grid `prev` after one tick.
pub open spec fn steps_to(prev: Seq<Seq<CellState>>, next: Seq<Seq<CellState>>, catch_chance: int) -> bool {
    &&& next.len() == prev.len()
    &&& is_square(next)
    &&& forall|i: int, j: int|
        0 <= i < prev.len() && 0 <= j < prev.len()
            ==> may_become(prev, i, j, catch_chance, #[trigger] next[i][j])
}

/// A square forest whose side is fixed when it is built.
#[derive(Clone, Debug, PartialEq, Eq)]
pub struct Grid {
    cells: Vec<Vec<CellState>>,
}

impl View for Grid {
    type V = Seq<Seq<CellState>>;

    closed spec fn view(&self) -> Seq<Seq<CellState>> {
        Seq::new(self.cells@.len(), |i: int| self.cells@[i]@)
    }
}

impl Grid {
    /// The grid is square with a side of at least 3.
    pub open spec fn wf(&self) -> bool {
        self@.len() >= 3 && is_square(self@)
    }

    /// Builds a grid of side `size` with an empty border, a burning center and
    /// trees everywhere else; a side under 3 is refused.
    pub fn new(size: usize) -> (r: Result<Grid, GridError>)
        ensures
            size < 3 <==> r is Err,
            r matches Err(e) ==> e == GridError::InvalidSize,
            r matches Ok(g) ==> {
                &&& g.wf()
                &&& g@.len() == size
                &&& forall|i: int, j: int|
                    0 <= i < size && 0 <= j < size ==> #[trigger] g@[i][j] == initial_cell(
                        size as int,
                        i,
                        j,
                    )
            },
    {
        if size < 3 {
            return Err(GridError::InvalidSize);
        }
        let half = size / 2;
        let mut cells: Vec<Vec<CellState>> = Vec::new();
        let mut i: usize = 0;
        while i < size
            invariant
                i <= size,
                cells@.len() == i,
                half == size / 2,
                forall|a: int| 0 <= a < i ==> (#[trigger] cells@[a])@.len() == size,
                forall|a: int, b: int|
                    0 <= a < i && 0 <= b < size ==> #[trigger] cells@[a]@[b] == initial_cell(
                        size as int,
                        a,
                        b,
                    ),
            decreases size - i,
        {
            let mut row: Vec<CellState> = Vec::new();
            let mut j: usize = 0;
            while j < size
                invariant
                    i < size,
                    j <= size,
                    row@.len() == j,
                    half == size / 2,
                    forall|b: int| 0 <= b < j ==> #[trigger] row@[b] == initial_cell(size as int, i as int, b),
                decreases size - j,
            {
                if i == 0 || i == size - 1 || j == 0 || j == size - 1 {
                    row.push(CellState::Empty);
                } else if i == half && j == half {
                    row.push(CellState::Burning);
                } else {
                    row.push(CellState::Tree);
                }
                j += 1;
            }
            cells.push(row);
            i += 1;
        }
        let g = Grid { cells };
        assert(is_square(g@));
        Ok(g)
    }

    /// The side of the grid, border included.
    pub fn size(&self) -> (r: usize)
        requires
            self.wf(),
        ensures
            r == self@.len(),
    {
        self.cells.len()
    }

    /// The state of the cell at `(row, col)`.
    pub fn cell(&self, row: usize, col: usize) -> (r: Result<CellState, GridError>)
        requires
            self.wf(),
        ensures
            (row < self@.len() && col < self@.len()) <==> r is Ok,
            r matches Ok(c) ==> c == self@[row as int][col as int],
            r matches Err(e) ==> e == GridError::IndexOutOfRange,
    {
        if row < self.cells.len() && col < self.cells.len() {
            assert(self@[row as int].len() == self@.len());
            Ok(self.cells[row][col])
        } else {
            Err(GridError::IndexOutOfRange)
        }
    }

    /// The cells above, below, left and right of `(row, col)`, in that order,
    /// leaving out those outside the grid.
    pub fn neighbors(&self, row: usize, col: usize) -> (r: Vec<CellState>)
        requires
            self.wf(),
            row < self@.len(),
            col < self@.len(),
        ensures
            r@ == neighbor_cells(self@, row as int, col as int),
    {
        let n = self.cells.len();
        assert(self@[row as int].len() == n);
        let mut r: Vec<CellState> = Vec::new();
        if row > 0 {
            assert(self@[row - 1].len() == n);
            r.push(self.cells[row - 1][col]);
        }
        if row + 1 < n {
            assert(self@[row + 1].len() == n);
            r.push(self.cells[row + 1][col]);
        }
        if col > 0 {
            r.push(self.cells[row][col - 1]);
        }
        if col + 1 < n {
            r.push(self.cells[row][col + 1]);
        }
        assert(r@ =~= neighbor_cells(self@, row as int, col as int));
        r
    }

    /// One tick: every cell's next state is computed from this grid alone.
    /// Each tree next to fire consumes one fresh draw from `rng` and catches
    /// with chance `catch_chance / CATCH_SCALE`; no other cell draws.
    pub fn step(&self, rng: &mut fastrand::Rng, catch_chance: u32) -> (r: Grid)
        requires
            self.wf(),
        ensures
            r.wf(),
            steps_to(self@, r@, catch_chance as int),
    {
        let n = self.cells.len();
        let mut next: Vec<Vec<CellState>> = Vec::new();
        let mut i: usize = 0;
        while i < n
            invariant
                self.wf(),
                n == self@.len(),
                i <= n,
                next@.len() == i,
                forall|a: int| 0 <= a < i ==> (#[trigger] next@[a])@.len() == n,
                forall|a: int, b: int|
                    0 <= a < i && 0 <= b < n ==> may_become(
                        self@,
                        a,
                        b,
                        catch_chance as int,
                        #[trigger] next@[a]@[b],
                    ),
            decreases n - i,
        {
            let mut row: Vec<CellState> = Vec::new();
            let mut j: usize = 0;
            assert(self@[i as int].len() == n);
            while j < n
                invariant
                    self.wf(),
                    n == self@.len(),
                    i < n,
                    self@[i as int].len() == n,
                    j <= n,
                    row@.len() == j,
                    forall|b: int|
                        0 <= b < j ==> may_become(
                            self@,
                            i as int,
                            b,
                            catch_chance as int,
                            #[trigger] row@[b],
                        ),
                decreases n - j,
            {
                let site = self.cells[i][j];
                let nb = self.neighbors(i, j);
                // The draw only matters to a tree next to fire; no other cell takes one.
                let draw: u32 = if site == CellState::Tree && any_burning(&nb) {
                    draw_below(rng, CATCH_SCALE)
                } else {
                    0
                };
                let c = spread(site, &nb, draw, catch_chance);
                row.push(c);
                j += 1;
            }
            next.push(row);
            i += 1;
        }
        let r = Grid { cells: next };
        assert(is_square(r@));
        r
    }
}

} // verus!
