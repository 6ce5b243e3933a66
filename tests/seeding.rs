use game_of_life::grid::{Framebuffer, BLACK, HEIGHT, WHITE, WIDTH};
use game_of_life::patterns::{draw_initial_pattern, initial_patterns, stamp};
use game_of_life::render::{render, DEAD_GLYPH, LIVE_GLYPH};

fn empty() -> Framebuffer {
    [[BLACK; WIDTH]; HEIGHT]
}

fn live_count(fb: &Framebuffer) -> usize {
    fb.iter().map(|row| row.iter().filter(|&&c| c == WHITE).count()).sum()
}

#[test]
fn catalog_has_ten_patterns() {
    let patterns = initial_patterns();
    assert_eq!(patterns.len(), 10);
    assert_eq!(patterns[0].cells, vec![(1, 0), (2, 1), (0, 2), (1, 2), (2, 2)]);
    assert_eq!((patterns[0].dx, patterns[0].dy), (5, 5));
    assert_eq!((patterns[9].dx, patterns[9].dy), (75, 60));
    let total: usize = patterns.iter().map(|p| p.cells.len()).sum();
    assert_eq!(total, 61);
}

#[test]
fn initial_pattern_places_every_cell() {
    let mut fb = empty();
    draw_initial_pattern(&mut fb);
    assert_eq!(live_count(&fb), 61);
    for p in initial_patterns() {
        for (x, y) in p.cells {
            assert_eq!(fb[y + p.dy][x + p.dx], WHITE);
        }
    }
    assert_eq!(fb[5][6], WHITE);
    assert_eq!(fb[5][5], BLACK);
    assert_eq!(fb[0][0], BLACK);
}

#[test]
fn initial_pattern_keeps_other_cells() {
    let mut fb = empty();
    fb[99][99] = 7;
    draw_initial_pattern(&mut fb);
    assert_eq!(fb[99][99], 7);
}

#[test]
fn stamp_clips_at_the_edge() {
    let mut fb = empty();
    stamp(&mut fb, &vec![(0, 0), (1, 0), (2, 0)], WIDTH - 2, 0);
    assert_eq!(live_count(&fb), 2);
    assert_eq!(fb[0][WIDTH - 2], WHITE);
    assert_eq!(fb[0][WIDTH - 1], WHITE);
    stamp(&mut fb, &vec![(1, 1)], usize::MAX, 0);
    assert_eq!(live_count(&fb), 2);
}

#[test]
fn render_lays_out_rows() {
    let mut fb = empty();
    fb[0][0] = WHITE;
    fb[2][5] = WHITE;
    let text = render(&fb);
    assert_eq!(text.len(), HEIGHT * (WIDTH + 1));
    assert_eq!(text[0], LIVE_GLYPH);
    assert_eq!(text[1], DEAD_GLYPH);
    assert_eq!(text[WIDTH], '\n');
    assert_eq!(text[2 * (WIDTH + 1) + 5], LIVE_GLYPH);
    assert_eq!(text.iter().filter(|&&c| c == LIVE_GLYPH).count(), 2);
    assert_eq!(text.iter().filter(|&&c| c == '\n').count(), HEIGHT);
}
