use game_of_life::grid::{
    advance, count_live_neighbors, get_color, next_state, point, update_framebuffer, Framebuffer,
    BLACK, HEIGHT, WHITE, WIDTH,
};
use game_of_life::patterns::stamp;

fn empty() -> Framebuffer {
    [[BLACK; WIDTH]; HEIGHT]
}

fn full() -> Framebuffer {
    [[WHITE; WIDTH]; HEIGHT]
}

fn seeded(cells: &[(usize, usize)], dx: usize, dy: usize) -> Framebuffer {
    let mut fb = empty();
    stamp(&mut fb, &cells.to_vec(), dx, dy);
    fb
}

fn step(fb: &Framebuffer) -> Framebuffer {
    let mut next = empty();
    update_framebuffer(fb, &mut next);
    next
}

fn live_cells(fb: &Framebuffer) -> Vec<(usize, usize)> {
    let mut out = Vec::new();
    for y in 0..HEIGHT {
        for x in 0..WIDTH {
            if fb[y][x] == WHITE {
                out.push((x, y));
            }
        }
    }
    out
}

#[test]
fn rule_table_is_exhaustive() {
    for n in 0..=8usize {
        let alive = next_state(WHITE, n);
        let dead = next_state(BLACK, n);
        assert_eq!(alive, if n == 2 || n == 3 { WHITE } else { BLACK }, "alive, {n}");
        assert_eq!(dead, if n == 3 { WHITE } else { BLACK }, "dead, {n}");
    }
}

#[test]
fn rule_survival_and_birth() {
    assert_eq!(next_state(WHITE, 2), WHITE);
    assert_eq!(next_state(WHITE, 3), WHITE);
    assert_eq!(next_state(WHITE, 1), BLACK);
    assert_eq!(next_state(WHITE, 4), BLACK);
    assert_eq!(next_state(BLACK, 3), WHITE);
    assert_eq!(next_state(BLACK, 2), BLACK);
    assert_eq!(next_state(BLACK, 0), BLACK);
}

#[test]
fn get_color_off_grid_is_black() {
    let fb = full();
    assert_eq!(get_color(WIDTH, 0, &fb), BLACK);
    assert_eq!(get_color(0, HEIGHT, &fb), BLACK);
    assert_eq!(get_color(usize::MAX, usize::MAX, &fb), BLACK);
    assert_eq!(get_color(WIDTH - 1, HEIGHT - 1, &fb), WHITE);
}

#[test]
fn point_off_grid_changes_nothing() {
    let mut fb = empty();
    point(WIDTH, 3, WHITE, &mut fb);
    point(3, HEIGHT, WHITE, &mut fb);
    point(usize::MAX, 0, WHITE, &mut fb);
    assert!(fb == empty());
}

#[test]
fn point_writes_one_cell() {
    let mut fb = empty();
    point(7, 3, WHITE, &mut fb);
    assert_eq!(fb[3][7], WHITE);
    assert_eq!(get_color(7, 3, &fb), WHITE);
    assert_eq!(live_cells(&fb), vec![(7, 3)]);
    point(7, 3, BLACK, &mut fb);
    assert!(fb == empty());
}

#[test]
fn neighbor_count_on_full_grid() {
    let fb = full();
    assert_eq!(count_live_neighbors(0, 0, &fb), 3);
    assert_eq!(count_live_neighbors(WIDTH - 1, 0, &fb), 3);
    assert_eq!(count_live_neighbors(0, HEIGHT - 1, &fb), 3);
    assert_eq!(count_live_neighbors(WIDTH - 1, HEIGHT - 1, &fb), 3);
    assert_eq!(count_live_neighbors(0, 50, &fb), 5);
    assert_eq!(count_live_neighbors(50, HEIGHT - 1, &fb), 5);
    assert_eq!(count_live_neighbors(50, 50, &fb), 8);
}

#[test]
fn neighbor_count_skips_centre() {
    let mut fb = empty();
    point(10, 10, WHITE, &mut fb);
    assert_eq!(count_live_neighbors(10, 10, &fb), 0);
    assert_eq!(count_live_neighbors(11, 11, &fb), 1);
    assert_eq!(count_live_neighbors(12, 12, &fb), 0);
    assert_eq!(count_live_neighbors(5, 5, &empty()), 0);
}

#[test]
fn update_overwrites_every_cell() {
    let current = empty();
    let mut next = full();
    update_framebuffer(&current, &mut next);
    assert!(next == empty());
}

#[test]
fn lone_cell_dies() {
    let mut fb = empty();
    point(0, 0, WHITE, &mut fb);
    assert!(step(&fb) == empty());
}

#[test]
fn full_grid_keeps_only_corners() {
    let next = step(&full());
    assert_eq!(
        live_cells(&next),
        vec![(0, 0), (WIDTH - 1, 0), (0, HEIGHT - 1), (WIDTH - 1, HEIGHT - 1)]
    );
}

#[test]
fn block_is_still() {
    let block = seeded(&[(0, 0), (0, 1), (1, 0), (1, 1)], 40, 10);
    for &(x, y) in &[(40, 10), (41, 10), (40, 11), (41, 11)] {
        assert_eq!(count_live_neighbors(x, y, &block), 3);
    }
    assert!(step(&block) == block);
}

#[test]
fn block_in_corner_is_still() {
    let block = seeded(&[(0, 0), (0, 1), (1, 0), (1, 1)], 0, 0);
    assert!(step(&block) == block);
}

#[test]
fn blinker_has_period_two() {
    let blinker = seeded(&[(0, 1), (1, 1), (2, 1)], 20, 20);
    let once = step(&blinker);
    assert_eq!(live_cells(&once), vec![(21, 20), (21, 21), (21, 22)]);
    let twice = step(&once);
    assert!(twice == blinker);
}

#[test]
fn glider_moves_diagonally() {
    let shape = [(1, 0), (2, 1), (0, 2), (1, 2), (2, 2)];
    let glider = seeded(&shape, 5, 5);
    let mut fb = glider;
    for _ in 0..4 {
        fb = step(&fb);
    }
    assert!(fb == seeded(&shape, 6, 6));
}

#[test]
fn advance_swaps_roles() {
    let blinker = seeded(&[(0, 1), (1, 1), (2, 1)], 20, 20);
    let mut current = blinker;
    let mut next = full();
    advance(&mut current, &mut next);
    assert!(next == blinker);
    assert_eq!(live_cells(&current), vec![(21, 20), (21, 21), (21, 22)]);
    advance(&mut current, &mut next);
    assert!(current == blinker);
}
