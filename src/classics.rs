//! Classical patterns on an otherwise dead grid, and what the rule does to
//! them: the block is still, the blinker has period two, and the glider moves
//! one cell diagonally every four generations.

use vstd::prelude::*;
use crate::grid::{
    BLACK, Framebuffer, HEIGHT, WHITE, WIDTH, color_at, in_bounds, is_live, is_next_generation,
    live_count, one_if, survives,
};

verus! {

/// `fb` holds exactly the shape `s`: its cells on the grid are `WHITE` where
/// `s` holds and `BLACK` everywhere else.
pub open spec fn holds_exactly(fb: Framebuffer, s: spec_fn(int, int) -> bool) -> bool {
    forall|x: int, y: int|
        #![auto]
        in_bounds(x, y) ==> fb@[y]@[x] == if s(x, y) {
            WHITE
        } else {
            BLACK
        }
}

proof fn lemma_live_iff(fb: Framebuffer, s: spec_fn(int, int) -> bool, x: int, y: int)
    requires
        holds_exactly(fb, s),
    ensures
        is_live(fb, x, y) <==> in_bounds(x, y) && s(x, y),
{
    if in_bounds(x, y) {
        assert(color_at(fb, x, y) == fb@[y]@[x]);
    }
}

/// Whether `(x, y)` lies on the grid and in the shape `s`.
pub open spec fn on_grid_in(s: spec_fn(int, int) -> bool, x: int, y: int) -> bool {
    in_bounds(x, y) && s(x, y)
}

/// Number of the eight neighbours of `(x, y)` that lie on the grid and in `s`.
pub open spec fn shape_count(s: spec_fn(int, int) -> bool, x: int, y: int) -> int {
    one_if(on_grid_in(s, x - 1, y - 1)) + one_if(on_grid_in(s, x, y - 1)) + one_if(
        on_grid_in(s, x + 1, y - 1),
    ) + one_if(on_grid_in(s, x - 1, y)) + one_if(on_grid_in(s, x + 1, y)) + one_if(
        on_grid_in(s, x - 1, y + 1),
    ) + one_if(on_grid_in(s, x, y + 1)) + one_if(on_grid_in(s, x + 1, y + 1))
}

/// On a grid that holds exactly `s`, the rule reads only `s`.
proof fn lemma_cell_of_shape(
    fb: Framebuffer,
    s: spec_fn(int, int) -> bool,
    next: Framebuffer,
    x: int,
    y: int,
)
    requires
        holds_exactly(fb, s),
        is_next_generation(fb, next),
        in_bounds(x, y),
    ensures
        next@[y]@[x] == if survives(s(x, y), shape_count(s, x, y)) {
            WHITE
        } else {
            BLACK
        },
{
    lemma_live_iff(fb, s, x, y);
    lemma_live_iff(fb, s, x - 1, y - 1);
    lemma_live_iff(fb, s, x, y - 1);
    lemma_live_iff(fb, s, x + 1, y - 1);
    lemma_live_iff(fb, s, x - 1, y);
    lemma_live_iff(fb, s, x + 1, y);
    lemma_live_iff(fb, s, x - 1, y + 1);
    lemma_live_iff(fb, s, x, y + 1);
    lemma_live_iff(fb, s, x + 1, y + 1);
    assert(live_count(fb, x, y) == shape_count(s, x, y));
}

/// Two grids that hold exactly the same shape are equal.
proof fn lemma_exactly_unique(a: Framebuffer, b: Framebuffer, s: spec_fn(int, int) -> bool)
    requires
        holds_exactly(a, s),
        holds_exactly(b, s),
    ensures
        a == b,
{
    broadcast use vstd::array::axiom_array_ext_equal;

    assert forall|y: int| 0 <= y < HEIGHT implies a[y] == b[y] by {
        assert forall|x: int| 0 <= x < WIDTH implies a[y][x] == b[y][x] by {
            assert(in_bounds(x, y));
        }
        assert(a[y] =~= b[y]);
    }
    assert(a =~= b);
}

/// The 2x2 block with its top-left cell at `(bx, by)`.
pub open spec fn block(bx: int, by: int) -> spec_fn(int, int) -> bool {
    |x: int, y: int| bx <= x <= bx + 1 && by <= y <= by + 1
}

/// A block alone on the grid is a still life: the next generation is the
/// same grid.
pub proof fn lemma_block_still(bx: int, by: int, fb: Framebuffer, next: Framebuffer)
    requires
        0 <= bx && bx + 1 < WIDTH,
        0 <= by && by + 1 < HEIGHT,
        holds_exactly(fb, block(bx, by)),
        is_next_generation(fb, next),
    ensures
        next == fb,
{
    assert forall|x: int, y: int| in_bounds(x, y) implies #[trigger] next@[y]@[x] == if block(
        bx,
        by,
    )(x, y) {
        WHITE
    } else {
        BLACK
    } by {
        lemma_cell_of_shape(fb, block(bx, by), next, x, y);
    }
    lemma_exactly_unique(next, fb, block(bx, by));
}

/// A horizontal blinker: three cells in a row centred on `(cx, cy)`.
pub open spec fn blinker_row(cx: int, cy: int) -> spec_fn(int, int) -> bool {
    |x: int, y: int| -1 <= x - cx <= 1 && y - cy == 0
}

/// A vertical blinker: three cells in a column centred on `(cx, cy)`.
pub open spec fn blinker_column(cx: int, cy: int) -> spec_fn(int, int) -> bool {
    |x: int, y: int| x - cx == 0 && -1 <= y - cy <= 1
}

/// Whether the blinker centred on `(cx, cy)` fits on the grid in both phases.
pub open spec fn blinker_fits(cx: int, cy: int) -> bool {
    1 <= cx && cx + 1 < WIDTH && 1 <= cy && cy + 1 < HEIGHT
}

/// A horizontal blinker alone on the grid turns into the vertical one with
/// the same centre.
pub proof fn lemma_blinker_turns(cx: int, cy: int, fb: Framebuffer, next: Framebuffer)
    requires
        blinker_fits(cx, cy),
        holds_exactly(fb, blinker_row(cx, cy)),
        is_next_generation(fb, next),
    ensures
        holds_exactly(next, blinker_column(cx, cy)),
{
    assert forall|x: int, y: int| in_bounds(x, y) implies #[trigger] next@[y]@[x] == if blinker_column(
        cx,
        cy,
    )(x, y) {
        WHITE
    } else {
        BLACK
    } by {
        lemma_cell_of_shape(fb, blinker_row(cx, cy), next, x, y);
    }
}

/// A vertical blinker alone on the grid turns into the horizontal one with
/// the same centre.
pub proof fn lemma_blinker_turns_back(cx: int, cy: int, fb: Framebuffer, next: Framebuffer)
    requires
        blinker_fits(cx, cy),
        holds_exactly(fb, blinker_column(cx, cy)),
        is_next_generation(fb, next),
    ensures
        holds_exactly(next, blinker_row(cx, cy)),
{
    assert forall|x: int, y: int| in_bounds(x, y) implies #[trigger] next@[y]@[x] == if blinker_row(
        cx,
        cy,
    )(x, y) {
        WHITE
    } else {
        BLACK
    } by {
        lemma_cell_of_shape(fb, blinker_column(cx, cy), next, x, y);
    }
}

/// The blinker oscillates with period two: from a horizontal blinker alone
/// on the grid, one generation gives the vertical blinker with the same
/// centre, and the second gives the starting grid again.
pub proof fn lemma_blinker_period_two(
    cx: int,
    cy: int,
    g0: Framebuffer,
    g1: Framebuffer,
    g2: Framebuffer,
)
    requires
        blinker_fits(cx, cy),
        holds_exactly(g0, blinker_row(cx, cy)),
        is_next_generation(g0, g1),
        is_next_generation(g1, g2),
    ensures
        holds_exactly(g1, blinker_column(cx, cy)),
        g2 == g0,
{
    lemma_blinker_turns(cx, cy, g0, g1);
    lemma_blinker_turns_back(cx, cy, g1, g2);
    lemma_exactly_unique(g2, g0, blinker_row(cx, cy));
}

/// Whether `(i, j)`, relative to the top-left corner of the glider's 4x4
/// box, is live in phase `k` of the glider, for `k` in `0..4`.
pub open spec fn glider_cell(k: int, i: int, j: int) -> bool {
    if k == 0 {
        (i == 1 && j == 0) || (i == 2 && j == 1) || (j == 2 && 0 <= i <= 2)
    } else if k == 1 {
        (i == 0 && j == 1) || (i == 2 && j == 1) || (i == 1 && j == 2) || (i == 2 && j == 2) || (
        i == 1 && j == 3)
    } else if k == 2 {
        (i == 2 && j == 1) || (i == 0 && j == 2) || (i == 2 && j == 2) || (i == 1 && j == 3) || (
        i == 2 && j == 3)
    } else {
        (i == 1 && j == 1) || (i == 2 && j == 2) || (i == 3 && j == 2) || (i == 1 && j == 3) || (
        i == 2 && j == 3)
    }
}

/// Phase `k` of the glider whose box has its top-left corner at `(gx, gy)`.
pub open spec fn glider(gx: int, gy: int, k: int) -> spec_fn(int, int) -> bool {
    |x: int, y: int| glider_cell(k, x - gx, y - gy)
}

/// Whether the glider's box at `(gx, gy)`, and the box one cell further
/// down and right, lie on the grid.
pub open spec fn glider_fits(gx: int, gy: int) -> bool {
    0 <= gx && gx + 3 < WIDTH && 0 <= gy && gy + 3 < HEIGHT
}

/// The phase that follows phase `k` of the glider at `(gx, gy)`; after the
/// last phase comes the first, one cell further down and right.
pub open spec fn glider_after(gx: int, gy: int, k: int) -> spec_fn(int, int) -> bool {
    if k < 3 {
        glider(gx, gy, k + 1)
    } else {
        glider(gx + 1, gy + 1, 0)
    }
}

/// One generation takes a glider alone on the grid to its next phase.
pub proof fn lemma_glider_phase(gx: int, gy: int, k: int, fb: Framebuffer, next: Framebuffer)
    requires
        glider_fits(gx, gy),
        0 <= k < 4,
        holds_exactly(fb, glider(gx, gy, k)),
        is_next_generation(fb, next),
    ensures
        holds_exactly(next, glider_after(gx, gy, k)),
{
    assert forall|x: int, y: int| in_bounds(x, y) implies #[trigger] next@[y]@[x] == if glider_after(
        gx,
        gy,
        k,
    )(x, y) {
        WHITE
    } else {
        BLACK
    } by {
        lemma_cell_of_shape(fb, glider(gx, gy, k), next, x, y);
    }
}

/// The glider is a spaceship: four generations after a glider alone on the
/// grid, the grid holds the same glider moved one cell right and one down.
pub proof fn lemma_glider_moves(
    gx: int,
    gy: int,
    g0: Framebuffer,
    g1: Framebuffer,
    g2: Framebuffer,
    g3: Framebuffer,
    g4: Framebuffer,
)
    requires
        glider_fits(gx, gy),
        holds_exactly(g0, glider(gx, gy, 0)),
        is_next_generation(g0, g1),
        is_next_generation(g1, g2),
        is_next_generation(g2, g3),
        is_next_generation(g3, g4),
    ensures
        holds_exactly(g4, glider(gx + 1, gy + 1, 0)),
{
    lemma_glider_phase(gx, gy, 0, g0, g1);
    lemma_glider_phase(gx, gy, 1, g1, g2);
    lemma_glider_phase(gx, gy, 2, g2, g3);
    lemma_glider_phase(gx, gy, 3, g3, g4);
}

} // verus!
