//! Text form of a generation, as printed to a console.

use vstd::prelude::*;
use crate::grid::{Framebuffer, HEIGHT, WIDTH, WHITE};

verus! {

/// Glyph drawn for a live cell.
pub const LIVE_GLYPH: char = '\u{25a0}';

/// Glyph drawn for a dead cell.
pub const DEAD_GLYPH: char = ' ';

/// Glyph for a cell of value `c`.
pub open spec fn glyph(c: u8) -> char {
    if c == WHITE {
        LIVE_GLYPH
    } else {
        DEAD_GLYPH
    }
}

/// Length of one printed line, the newline included.
pub open spec fn line_len() -> int {
    WIDTH + 1
}

/// The text of a generation: `HEIGHT` lines, each of `WIDTH` glyphs followed
/// by a newline.
pub fn render(fb: &Framebuffer) -> (r: Vec<char>)
    ensures
        r@.len() == HEIGHT * line_len(),
        forall|y: int, x: int|
            0 <= y < HEIGHT && 0 <= x < WIDTH ==> #[trigger] r@[y * line_len() + x] == glyph(
                fb@[y]@[x],
            ),
        forall|y: int| 0 <= y < HEIGHT ==> #[trigger] r@[y * line_len() + WIDTH] == '\n',
{
    let mut r: Vec<char> = Vec::new();
    let mut y: usize = 0;
    while y < HEIGHT
        invariant
            y <= HEIGHT,
            r@.len() == y * line_len(),
            forall|i: int, x: int|
                0 <= i < y && 0 <= x < WIDTH ==> #[trigger] r@[i * line_len() + x] == glyph(
                    fb@[i]@[x],
                ),
            forall|i: int| 0 <= i < y ==> #[trigger] r@[i * line_len() + WIDTH] == '\n',
        decreases HEIGHT - y,
    {
        let mut x: usize = 0;
        while x < WIDTH
            invariant
                x <= WIDTH,
                y < HEIGHT,
                r@.len() == y * line_len() + x,
                forall|i: int, j: int|
                    0 <= i < y && 0 <= j < WIDTH ==> #[trigger] r@[i * line_len() + j] == glyph(
                        fb@[i]@[j],
                    ),
                forall|i: int| 0 <= i < y ==> #[trigger] r@[i * line_len() + WIDTH] == '\n',
                forall|j: int| 0 <= j < x ==> #[trigger] r@[y * line_len() + j] == glyph(fb@[y as int]@[j]),
            decreases WIDTH - x,
        {
            let c = if fb[y][x] == WHITE {
                LIVE_GLYPH
            } else {
                DEAD_GLYPH
            };
            r.push(c);
            x = x + 1;
        }
        r.push('\n');
        y = y + 1;
    }
    r
}

} // verus!
