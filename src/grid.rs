//! The grid engine: bounds-checked cell access, neighbour counting and the
//! transition from one generation to the next.

use vstd::prelude::*;

verus! {

/// Number of columns of the grid.
pub const WIDTH: usize = 100;

/// Number of rows of the grid.
pub const HEIGHT: usize = 100;

/// Value of a live cell.
pub const WHITE: u8 = 255;

/// Value of a dead cell.
pub const BLACK: u8 = 0;

/// A generation: `fb[y][x]` is the cell in column `x` of row `y`.
pub type Framebuffer = [[u8; WIDTH]; HEIGHT];

/// Whether `(x, y)` lies on the grid.
pub open spec fn in_bounds(x: int, y: int) -> bool {
    0 <= x < WIDTH && 0 <= y < HEIGHT
}

/// The cell at `(x, y)`; everything off the grid reads as dead.
pub open spec fn color_at(fb: Framebuffer, x: int, y: int) -> u8 {
    if in_bounds(x, y) {
        fb@[y]@[x]
    } else {
        BLACK
    }
}

/// Whether the cell at `(x, y)` is alive.
pub open spec fn is_live(fb: Framebuffer, x: int, y: int) -> bool {
    color_at(fb, x, y) == WHITE
}

/// `1` for true, `0` for false.
pub open spec fn one_if(b: bool) -> int {
    if b {
        1
    } else {
        0
    }
}

/// Number of live cells among the eight Moore neighbours of `(x, y)`.
pub open spec fn live_count(fb: Framebuffer, x: int, y: int) -> int {
    one_if(is_live(fb, x - 1, y - 1)) + one_if(is_live(fb, x, y - 1)) + one_if(
        is_live(fb, x + 1, y - 1),
    ) + one_if(is_live(fb, x - 1, y)) + one_if(is_live(fb, x + 1, y)) + one_if(
        is_live(fb, x - 1, y + 1),
    ) + one_if(is_live(fb, x, y + 1)) + one_if(is_live(fb, x + 1, y + 1))
}

/// Number of the eight Moore neighbours of `(x, y)` that lie on the grid.
pub open spec fn neighbors_on_grid(x: int, y: int) -> int {
    one_if(in_bounds(x - 1, y - 1)) + one_if(in_bounds(x, y - 1)) + one_if(
        in_bounds(x + 1, y - 1),
    ) + one_if(in_bounds(x - 1, y)) + one_if(in_bounds(x + 1, y)) + one_if(
        in_bounds(x - 1, y + 1),
    ) + one_if(in_bounds(x, y + 1)) + one_if(in_bounds(x + 1, y + 1))
}

/// The rule: a live cell survives with two or three live neighbours, a dead
/// cell is born with exactly three, every other cell is dead next.
pub open spec fn survives(alive: bool, live: int) -> bool {
    if alive {
        live == 2 || live == 3
    } else {
        live == 3
    }
}

/// The value of `(x, y)` in the generation after `fb`.
pub open spec fn next_color(fb: Framebuffer, x: int, y: int) -> u8 {
    if survives(is_live(fb, x, y), live_count(fb, x, y)) {
        WHITE
    } else {
        BLACK
    }
}

/// `next` is the generation that follows `current`, on every cell of the grid.
pub open spec fn is_next_generation(current: Framebuffer, next: Framebuffer) -> bool {
    forall|x: int, y: int| #![auto] in_bounds(x, y) ==> next@[y]@[x] == next_color(current, x, y)
}

/// Writes `color` at `(x, y)` when that lies on the grid; does nothing otherwise.
pub fn point(x: usize, y: usize, color: u8, framebuffer: &mut Framebuffer)
    ensures
        forall|i: int, j: int|
            #![auto]
            in_bounds(j, i) ==> final(framebuffer)@[i]@[j] == if i == y && j == x {
                color
            } else {
                old(framebuffer)@[i]@[j]
            },
        !in_bounds(x as int, y as int) ==> *final(framebuffer) == *old(framebuffer),
{
    if x < WIDTH && y < HEIGHT {
        framebuffer[y][x] = color;
    }
}

/// The cell at `(x, y)`, or `BLACK` off the grid.
pub fn get_color(x: usize, y: usize, framebuffer: &Framebuffer) -> (r: u8)
    ensures
        r == color_at(*framebuffer, x as int, y as int),
        !in_bounds(x as int, y as int) ==> r == BLACK,
{
    if x < WIDTH && y < HEIGHT {
        framebuffer[y][x]
    } else {
        BLACK
    }
}

/// Contribution of the neighbour at offset `(i - 1, j - 1)` from `(x, y)`,
/// for `i, j` in `0..3`; the centre contributes nothing.
spec fn offset_term(fb: Framebuffer, x: int, y: int, i: int, j: int) -> int {
    if i == 1 && j == 1 {
        0
    } else {
        one_if(is_live(fb, x + i - 1, y + j - 1))
    }
}

/// Sum of the first `n` terms of row `j` of the neighbourhood.
spec fn row_prefix(fb: Framebuffer, x: int, y: int, j: int, n: int) -> int {
    (if n > 0 {
        offset_term(fb, x, y, 0, j)
    } else {
        0
    }) + (if n > 1 {
        offset_term(fb, x, y, 1, j)
    } else {
        0
    }) + (if n > 2 {
        offset_term(fb, x, y, 2, j)
    } else {
        0
    })
}

/// Sum of the first `m` full rows of the neighbourhood.
spec fn rows_prefix(fb: Framebuffer, x: int, y: int, m: int) -> int {
    (if m > 0 {
        row_prefix(fb, x, y, 0, 3)
    } else {
        0
    }) + (if m > 1 {
        row_prefix(fb, x, y, 1, 3)
    } else {
        0
    }) + (if m > 2 {
        row_prefix(fb, x, y, 2, 3)
    } else {
        0
    })
}

/// `c + d - 1` when that lies in `[0, limit)`, for a step `d` in `0..3`.
fn shifted(c: usize, d: usize, limit: usize) -> (r: Option<usize>)
    requires
        d < 3,
    ensures
        r is Some <==> 0 <= c + d - 1 < limit,
        r matches Some(v) ==> v == c + d - 1,
{
    if d == 0 {
        if c >= 1 && c - 1 < limit {
            Some(c - 1)
        } else {
            None
        }
    } else if c < limit && limit - c > d - 1 {
        Some(c + (d - 1))
    } else {
        None
    }
}

/// Counts the live cells among the eight neighbours of `(x, y)`; neighbours
/// off the grid are skipped.
pub fn count_live_neighbors(x: usize, y: usize, fb: &Framebuffer) -> (r: usize)
    ensures
        r == live_count(*fb, x as int, y as int),
        r <= neighbors_on_grid(x as int, y as int) <= 8,
{
    let mut count: usize = 0;
    let mut j: usize = 0;
    while j < 3
        invariant
            j <= 3,
            count == rows_prefix(*fb, x as int, y as int, j as int),
            count <= 3 * j,
        decreases 3 - j,
    {
        let mut i: usize = 0;
        while i < 3
            invariant
                i <= 3,
                j < 3,
                count == rows_prefix(*fb, x as int, y as int, j as int) + row_prefix(
                    *fb,
                    x as int,
                    y as int,
                    j as int,
                    i as int,
                ),
                count <= 3 * j + i,
            decreases 3 - i,
        {
            if !(i == 1 && j == 1) {
                match (shifted(x, i, WIDTH), shifted(y, j, HEIGHT)) {
                    (Some(nx), Some(ny)) => {
                        if get_color(nx, ny, fb) == WHITE {
                            count = count + 1;
                        }
                    },
                    _ => {},
                }
            }
            i = i + 1;
        }
        j = j + 1;
    }
    count
}

/// Applies the rule to a cell of value `cell` with `live_neighbors` live
/// neighbours: `WHITE` if it lives in the next generation, `BLACK` if not.
pub fn next_state(cell: u8, live_neighbors: usize) -> (r: u8)
    ensures
        r == if survives(cell == WHITE, live_neighbors as int) {
            WHITE
        } else {
            BLACK
        },
{
    if cell == WHITE {
        if live_neighbors == 2 || live_neighbors == 3 {
            WHITE
        } else {
            BLACK
        }
    } else if live_neighbors == 3 {
        WHITE
    } else {
        BLACK
    }
}

/// Writes into `next` the generation that follows `current`. Every cell of
/// `next` is overwritten, whatever it held before.
pub fn update_framebuffer(current: &Framebuffer, next: &mut Framebuffer)
    ensures
        is_next_generation(*current, *final(next)),
{
    let mut y: usize = 0;
    while y < HEIGHT
        invariant
            y <= HEIGHT,
            forall|i: int, j: int|
                #![auto]
                0 <= i < y && 0 <= j < WIDTH ==> next@[i]@[j] == next_color(*current, j, i),
        decreases HEIGHT - y,
    {
        let mut x: usize = 0;
        while x < WIDTH
            invariant
                x <= WIDTH,
                y < HEIGHT,
                forall|i: int, j: int|
                    #![auto]
                    0 <= i < y && 0 <= j < WIDTH ==> next@[i]@[j] == next_color(*current, j, i),
                forall|j: int| #![auto] 0 <= j < x ==> next@[y as int]@[j] == next_color(*current, j, y as int),
            decreases WIDTH - x,
        {
            let live_neighbors = count_live_neighbors(x, y, current);
            let cell = get_color(x, y, current);
            let state = next_state(cell, live_neighbors);
            point(x, y, state, next);
            x = x + 1;
        }
        y = y + 1;
    }
}

/// One tick of the simulation: computes the generation after `current` into
/// `next`, then swaps the buffers' roles, so that `current` holds the new
/// generation and `next` the one it was computed from.
pub fn advance(current: &mut Framebuffer, next: &mut Framebuffer)
    ensures
        is_next_generation(*old(current), *final(current)),
        *final(next) == *old(current),
{
    update_framebuffer(current, next);
    core::mem::swap(current, next);
}

/// A generation is determined by its predecessor alone: two buffers that both
/// hold the generation after `current` are equal, so nothing that a buffer
/// held before it was overwritten survives in it.
pub proof fn lemma_next_generation_unique(current: Framebuffer, a: Framebuffer, b: Framebuffer)
    requires
        is_next_generation(current, a),
        is_next_generation(current, b),
    ensures
        a == b,
{
    broadcast use vstd::array::axiom_array_ext_equal;

    assert forall|y: int| 0 <= y < HEIGHT implies a[y] == b[y] by {
        assert forall|x: int| 0 <= x < WIDTH implies a[y][x] == b[y][x] by {
            assert(a@[y]@[x] == next_color(current, x, y));
            assert(b@[y]@[x] == next_color(current, x, y));
        }
        assert(a[y] =~= b[y]);
    }
    assert(a =~= b);
}

} // verus!
