//! The fixed catalog of classical patterns that seeds the first generation.

use vstd::prelude::*;
use crate::grid::{Framebuffer, WHITE, in_bounds, point};

verus! {

/// A shape given by the offsets of its live cells, placed at `(dx, dy)`.
pub struct Pattern {
    pub cells: Vec<(usize, usize)>,
    pub dx: usize,
    pub dy: usize,
}

impl View for Pattern {
    type V = (Seq<(usize, usize)>, usize, usize);

    open spec fn view(&self) -> Self::V {
        (self.cells@, self.dx, self.dy)
    }
}

/// Whether the offset `c` placed at `(dx, dy)` lands on `(x, y)`.
pub open spec fn hits(c: (usize, usize), dx: usize, dy: usize, x: int, y: int) -> bool {
    c.0 + dx == x && c.1 + dy == y
}

/// Whether one of the first `n` offsets of `cells`, placed at `(dx, dy)`,
/// lands on `(x, y)`.
pub open spec fn covers_first(
    cells: Seq<(usize, usize)>,
    n: int,
    dx: usize,
    dy: usize,
    x: int,
    y: int,
) -> bool {
    exists|k: int| 0 <= k < n && #[trigger] hits(cells[k], dx, dy, x, y)
}

/// Whether the shape `cells` placed at `(dx, dy)` has a live cell at `(x, y)`.
pub open spec fn covers(cells: Seq<(usize, usize)>, dx: usize, dy: usize, x: int, y: int) -> bool {
    covers_first(cells, cells.len() as int, dx, dy, x, y)
}

/// Writes `WHITE` at every cell of the shape `cells` placed at `(dx, dy)` that
/// lies on the grid; the rest of the grid is left as it was.
pub fn stamp(fb: &mut Framebuffer, cells: &Vec<(usize, usize)>, dx: usize, dy: usize)
    ensures
        forall|x: int, y: int|
            #![auto]
            in_bounds(x, y) ==> final(fb)@[y]@[x] == if covers(cells@, dx, dy, x, y) {
                WHITE
            } else {
                old(fb)@[y]@[x]
            },
{
    let mut k: usize = 0;
    while k < cells.len()
        invariant
            k <= cells@.len(),
            forall|x: int, y: int|
                #![auto]
                in_bounds(x, y) ==> fb@[y]@[x] == if covers_first(cells@, k as int, dx, dy, x, y) {
                    WHITE
                } else {
                    old(fb)@[y]@[x]
                },
        decreases cells@.len() - k,
    {
        let (cx, cy) = cells[k];
        match (cx.checked_add(dx), cy.checked_add(dy)) {
            (Some(x), Some(y)) => point(x, y, WHITE, fb),
            _ => {},
        }
        assert forall|x: int, y: int| #![auto] in_bounds(x, y) implies fb@[y]@[x] == if covers_first(
            cells@,
            k + 1,
            dx,
            dy,
            x,
            y,
        ) {
            WHITE
        } else {
            old(fb)@[y]@[x]
        } by {
            if hits(cells@[k as int], dx, dy, x, y) {
                assert(covers_first(cells@, k + 1, dx, dy, x, y));
            } else if covers_first(cells@, k + 1, dx, dy, x, y) {
                let w = choose|w: int| 0 <= w < k + 1 && #[trigger] hits(cells@[w], dx, dy, x, y);
                assert(covers_first(cells@, k as int, dx, dy, x, y));
            }
        }
        k = k + 1;
    }
}

/// The seed catalog: each entry is a shape's live-cell offsets and its
/// placement.
pub open spec fn catalog() -> Seq<(Seq<(usize, usize)>, usize, usize)> {
    seq![
        // Glider
        (seq![(1,0), (2,1), (0,2), (1,2), (2,2)], 5, 5),
        // Blinker
        (seq![(0,1), (1,1), (2,1)], 20, 20),
        // Block
        (seq![(0,0), (0,1), (1,0), (1,1)], 40, 10),
        // Toad
        (seq![(1,0), (2,0), (3,0), (0,1), (1,1), (2,1)], 60, 5),
        // Beacon
        (seq![(0,0), (0,1), (1,0), (2,3), (3,2), (3,3)], 70, 20),
        // Boat
        (seq![(0,0), (1,0), (0,1), (2,1), (1,2)], 10, 40),
        // Loaf
        (seq![(1,0), (2,0), (0,1), (3,1), (1,2), (3,2), (2,3)], 25, 50),
        // Tub
        (seq![(1,0), (0,1), (2,1), (1,2)], 45, 40),
        // Part of a pulsar
        (seq![(2,0), (3,0), (4,0), (0,2), (5,2), (0,3), (5,3), (0,4), (5,4), (2,5), (3,5), (4,5)], 65, 40),
        // Lightweight spaceship
        (seq![(1,0), (4,0), (0,1), (0,2), (4,2), (0,3), (1,3), (2,3), (3,3)], 75, 60),
    ]
}

/// Whether the pattern at index `p` of the catalog has a live cell at `(x, y)`.
pub open spec fn entry_covers(p: int, x: int, y: int) -> bool {
    covers(catalog()[p].0, catalog()[p].1, catalog()[p].2, x, y)
}

/// Whether one of the first `n` patterns of the catalog has a live cell at `(x, y)`.
pub open spec fn seeded_first(n: int, x: int, y: int) -> bool {
    exists|p: int| 0 <= p < n && #[trigger] entry_covers(p, x, y)
}

/// Whether the seed catalog puts a live cell at `(x, y)`.
pub open spec fn seeded(x: int, y: int) -> bool {
    seeded_first(catalog().len() as int, x, y)
}

/// The seed catalog as values.
pub fn initial_patterns() -> (r: Vec<Pattern>)
    ensures
        r@.len() == catalog().len(),
        forall|p: int| 0 <= p < r@.len() ==> (#[trigger] r@[p])@ == catalog()[p],
{
    let r = vec![
        // Glider
        Pattern { cells: vec![(1,0), (2,1), (0,2), (1,2), (2,2)], dx: 5, dy: 5 },
        // Blinker
        Pattern { cells: vec![(0,1), (1,1), (2,1)], dx: 20, dy: 20 },
        // Block
        Pattern { cells: vec![(0,0), (0,1), (1,0), (1,1)], dx: 40, dy: 10 },
        // Toad
        Pattern { cells: vec![(1,0), (2,0), (3,0), (0,1), (1,1), (2,1)], dx: 60, dy: 5 },
        // Beacon
        Pattern { cells: vec![(0,0), (0,1), (1,0), (2,3), (3,2), (3,3)], dx: 70, dy: 20 },
        // Boat
        Pattern { cells: vec![(0,0), (1,0), (0,1), (2,1), (1,2)], dx: 10, dy: 40 },
        // Loaf
        Pattern { cells: vec![(1,0), (2,0), (0,1), (3,1), (1,2), (3,2), (2,3)], dx: 25, dy: 50 },
        // Tub
        Pattern { cells: vec![(1,0), (0,1), (2,1), (1,2)], dx: 45, dy: 40 },
        // Part of a pulsar
        Pattern { cells: vec![(2,0), (3,0), (4,0), (0,2), (5,2), (0,3), (5,3), (0,4), (5,4), (2,5), (3,5), (4,5)], dx: 65, dy: 40 },
        // Lightweight spaceship
        Pattern { cells: vec![(1,0), (4,0), (0,1), (0,2), (4,2), (0,3), (1,3), (2,3), (3,3)], dx: 75, dy: 60 },
    ];
    r
}

/// Stamps every pattern of the seed catalog onto `fb`: afterwards a cell on
/// the grid is `WHITE` where the catalog puts a live cell, and as it was
/// elsewhere.
pub fn draw_initial_pattern(fb: &mut Framebuffer)
    ensures
        forall|x: int, y: int|
            #![auto]
            in_bounds(x, y) ==> final(fb)@[y]@[x] == if seeded(x, y) {
                WHITE
            } else {
                old(fb)@[y]@[x]
            },
{
    let patterns = initial_patterns();
    let mut p: usize = 0;
    while p < patterns.len()
        invariant
            p <= patterns@.len(),
            patterns@.len() == catalog().len(),
            forall|q: int| 0 <= q < patterns@.len() ==> (#[trigger] patterns@[q])@ == catalog()[q],
            forall|x: int, y: int|
                #![auto]
                in_bounds(x, y) ==> fb@[y]@[x] == if seeded_first(p as int, x, y) {
                    WHITE
                } else {
                    old(fb)@[y]@[x]
                },
        decreases patterns@.len() - p,
    {
        let pattern = &patterns[p];
        stamp(fb, &pattern.cells, pattern.dx, pattern.dy);
        assert(pattern@ == catalog()[p as int]);
        assert forall|x: int, y: int| #![auto] in_bounds(x, y) implies fb@[y]@[x] == if seeded_first(
            p + 1,
            x,
            y,
        ) {
            WHITE
        } else {
            old(fb)@[y]@[x]
        } by {
            if entry_covers(p as int, x, y) {
                assert(seeded_first(p + 1, x, y));
            } else if seeded_first(p + 1, x, y) {
                let q = choose|q: int| 0 <= q < p + 1 && #[trigger] entry_covers(q, x, y);
                assert(seeded_first(p as int, x, y));
            }
        }
        p = p + 1;
    }
}

} // verus!
