use forest_fire::{any_burning, spread, CellState, Grid, GridError, Simulation, CATCH_SCALE, DEFAULT_CATCH_CHANCE};

use CellState::{Burning, Empty, Tree};

fn states(g: &Grid) -> Vec<Vec<CellState>> {
    let n = g.size();
    (0..n).map(|i| (0..n).map(|j| g.cell(i, j).unwrap()).collect()).collect()
}

fn sim(size: usize, chance: u32, seed: u64) -> Simulation {
    Simulation::new(size, chance, fastrand::Rng::with_seed(seed)).unwrap()
}

fn on_border(n: usize, i: usize, j: usize) -> bool {
    i == 0 || j == 0 || i == n - 1 || j == n - 1
}

#[test]
fn new_refuses_sides_under_three() {
    assert_eq!(Grid::new(0), Err(GridError::InvalidSize));
    assert_eq!(Grid::new(1), Err(GridError::InvalidSize));
    assert_eq!(Grid::new(2), Err(GridError::InvalidSize));
    assert!(matches!(
        Simulation::new(2, CATCH_SCALE, fastrand::Rng::with_seed(1)),
        Err(GridError::InvalidSize)
    ));
}

#[test]
fn smallest_grid_has_one_burning_cell() {
    let g = Grid::new(3).unwrap();
    assert_eq!(g.size(), 3);
    assert_eq!(
        states(&g),
        vec![vec![Empty, Empty, Empty], vec![Empty, Burning, Empty], vec![Empty, Empty, Empty]]
    );
}

#[test]
fn initial_grid_layout() {
    let n = 27;
    let g = Grid::new(n).unwrap();
    for i in 0..n {
        for j in 0..n {
            let expected = if on_border(n, i, j) {
                Empty
            } else if i == 13 && j == 13 {
                Burning
            } else {
                Tree
            };
            assert_eq!(g.cell(i, j), Ok(expected));
        }
    }
}

#[test]
fn even_side_puts_fire_at_half() {
    let g = Grid::new(6).unwrap();
    assert_eq!(g.cell(3, 3), Ok(Burning));
    assert_eq!(g.cell(2, 2), Ok(Tree));
}

#[test]
fn cell_out_of_range() {
    let g = Grid::new(5).unwrap();
    assert_eq!(g.cell(5, 0), Err(GridError::IndexOutOfRange));
    assert_eq!(g.cell(0, 5), Err(GridError::IndexOutOfRange));
    assert_eq!(g.cell(usize::MAX, usize::MAX), Err(GridError::IndexOutOfRange));
    assert_eq!(g.cell(4, 4), Ok(Empty));
}

#[test]
fn neighbors_in_order_and_clipped() {
    let g = Grid::new(5).unwrap();
    // up, down, left, right of the cell below the center
    assert_eq!(g.neighbors(3, 2), vec![Burning, Empty, Tree, Tree]);
    assert_eq!(g.neighbors(2, 1), vec![Tree, Tree, Empty, Burning]);
    assert_eq!(g.neighbors(0, 0), vec![Empty, Empty]);
    assert_eq!(g.neighbors(4, 4), vec![Empty, Empty]);
    assert_eq!(g.neighbors(0, 2), vec![Tree, Empty, Empty]);
}

#[test]
fn any_burning_cases() {
    assert!(!any_burning(&vec![]));
    assert!(!any_burning(&vec![Tree, Empty, Tree]));
    assert!(any_burning(&vec![Tree, Empty, Burning]));
}

#[test]
fn spread_rule_table() {
    let fire = vec![Empty, Burning];
    let calm = vec![Tree, Empty, Tree, Tree];
    assert_eq!(spread(Empty, &fire, 0, CATCH_SCALE), Empty);
    assert_eq!(spread(Burning, &fire, 0, CATCH_SCALE), Empty);
    assert_eq!(spread(Burning, &calm, 0, CATCH_SCALE), Empty);
    assert_eq!(spread(Tree, &calm, 0, CATCH_SCALE), Tree);
    assert_eq!(spread(Tree, &fire, 499_999, DEFAULT_CATCH_CHANCE), Burning);
    assert_eq!(spread(Tree, &fire, 500_000, DEFAULT_CATCH_CHANCE), Tree);
    assert_eq!(spread(Tree, &fire, 999_999, CATCH_SCALE), Burning);
    assert_eq!(spread(Tree, &fire, 0, 0), Tree);
}

#[test]
fn border_stays_empty_every_tick() {
    let n = 27;
    let mut s = sim(n, DEFAULT_CATCH_CHANCE, 42);
    for _ in 0..40 {
        s.tick();
        for i in 0..n {
            for j in 0..n {
                if on_border(n, i, j) {
                    assert_eq!(s.grid().cell(i, j), Ok(Empty));
                }
            }
        }
    }
}

#[test]
fn local_rules_hold_on_a_random_run() {
    let n = 15;
    let mut s = sim(n, DEFAULT_CATCH_CHANCE, 7);
    for _ in 0..30 {
        let prev = states(s.grid());
        let prev_grid = s.grid().clone();
        s.tick();
        let next = states(s.grid());
        for i in 0..n {
            for j in 0..n {
                let exposed = prev_grid.neighbors(i, j).contains(&Burning);
                match prev[i][j] {
                    Burning => assert_eq!(next[i][j], Empty),
                    Empty => assert_eq!(next[i][j], Empty),
                    Tree if !exposed => assert_eq!(next[i][j], Tree),
                    Tree => assert!(next[i][j] == Tree || next[i][j] == Burning),
                }
            }
        }
    }
}

#[test]
fn certain_catch_ignites_every_exposed_tree() {
    let n = 11;
    let mut s = sim(n, CATCH_SCALE, 3);
    for _ in 0..12 {
        let prev_grid = s.grid().clone();
        s.tick();
        for i in 0..n {
            for j in 0..n {
                if prev_grid.cell(i, j) == Ok(Tree) && prev_grid.neighbors(i, j).contains(&Burning) {
                    assert_eq!(s.grid().cell(i, j), Ok(Burning));
                }
            }
        }
    }
}

#[test]
fn zero_catch_never_spreads() {
    let n = 9;
    let mut s = sim(n, 0, 11);
    for _ in 0..5 {
        s.tick();
        for i in 0..n {
            for j in 0..n {
                let expected = if on_border(n, i, j) || (i == 4 && j == 4) { Empty } else { Tree };
                assert_eq!(s.grid().cell(i, j), Ok(expected));
            }
        }
    }
}

#[test]
fn diamond_front_on_seven_by_seven() {
    let n = 7;
    let mut s = sim(n, CATCH_SCALE, 5);
    assert_eq!(s.catch_chance(), CATCH_SCALE);
    for t in 0..7usize {
        for i in 0..n {
            for j in 0..n {
                let d = i.abs_diff(3) + j.abs_diff(3);
                let expected = if on_border(n, i, j) || d < t {
                    Empty
                } else if d == t {
                    Burning
                } else {
                    Tree
                };
                assert_eq!(s.grid().cell(i, j), Ok(expected), "tick {t} cell ({i},{j})");
            }
        }
        s.tick();
    }
}

#[test]
fn first_tick_of_seven_by_seven() {
    let mut s = sim(7, CATCH_SCALE, 0);
    s.tick();
    let g = s.grid();
    assert_eq!(g.cell(3, 3), Ok(Empty));
    for (i, j) in [(2, 3), (4, 3), (3, 2), (3, 4)] {
        assert_eq!(g.cell(i, j), Ok(Burning));
    }
    assert_eq!(g.cell(2, 2), Ok(Tree));
    assert_eq!(g.cell(1, 3), Ok(Tree));
}

#[test]
fn same_seed_same_run() {
    let mut a = sim(21, DEFAULT_CATCH_CHANCE, 99);
    let mut b = sim(21, DEFAULT_CATCH_CHANCE, 99);
    for _ in 0..25 {
        a.tick();
        b.tick();
        assert_eq!(a.grid(), b.grid());
    }
}

#[test]
fn step_on_a_grid_directly() {
    let g = Grid::new(5).unwrap();
    let mut rng = fastrand::Rng::with_seed(8);
    let next = g.step(&mut rng, CATCH_SCALE);
    assert_eq!(
        states(&next),
        vec![
            vec![Empty, Empty, Empty, Empty, Empty],
            vec![Empty, Tree, Burning, Tree, Empty],
            vec![Empty, Burning, Empty, Burning, Empty],
            vec![Empty, Tree, Burning, Tree, Empty],
            vec![Empty, Empty, Empty, Empty, Empty],
        ]
    );
    // the source grid is a snapshot: stepping leaves it as it was
    assert_eq!(g, Grid::new(5).unwrap());
}
