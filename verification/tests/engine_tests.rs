use game_of_life::GridError;
use game_of_life::engine::Universe;

/// Read one cell out of the packed word view.
fn cell(u: &Universe, row: u32, col: u32) -> bool {
    let idx = (row * u.width() + col) as usize;
    let words = u.get_cells();
    (words[idx / 32] >> (idx % 32)) & 1 == 1
}

/// A grid of the given size with every cell dead.
fn empty_grid(width: u32, height: u32) -> Universe {
    let mut u = Universe::new();
    u.set_width(width).unwrap();
    u.set_height(height).unwrap();
    u
}

fn live_count(u: &Universe) -> u32 {
    let mut n = 0;
    for r in 0..u.height() {
        for c in 0..u.width() {
            if cell(u, r, c) {
                n += 1;
            }
        }
    }
    n
}

#[test]
fn neighbor_count_single_cell_3x3() {
    let mut u = empty_grid(3, 3);
    u.set_cells(&[(1, 1)]).unwrap();
    for r in 0..3 {
        for c in 0..3 {
            let expected = if (r, c) == (1, 1) { 0 } else { 1 };
            assert_eq!(u.live_neighbor_count(r, c), expected, "at ({r},{c})");
        }
    }
}

#[test]
fn neighbor_count_wraps_around_edges() {
    let mut u = empty_grid(5, 5);
    u.set_cells(&[(0, 0)]).unwrap();
    assert_eq!(u.live_neighbor_count(4, 4), 1);
    assert_eq!(u.live_neighbor_count(0, 4), 1);
    assert_eq!(u.live_neighbor_count(4, 0), 1);
    assert_eq!(u.live_neighbor_count(1, 1), 1);
    assert_eq!(u.live_neighbor_count(2, 2), 0);
    assert_eq!(u.live_neighbor_count(0, 0), 0);
}

#[test]
fn block_is_still_life() {
    let mut u = empty_grid(4, 4);
    u.set_cells(&[(1, 1), (1, 2), (2, 1), (2, 2)]).unwrap();
    u.tick();
    assert_eq!(live_count(&u), 4);
    assert!(cell(&u, 1, 1) && cell(&u, 1, 2) && cell(&u, 2, 1) && cell(&u, 2, 2));
}

#[test]
fn blinker_oscillates_with_period_two() {
    let mut u = empty_grid(5, 5);
    u.set_cells(&[(2, 1), (2, 2), (2, 3)]).unwrap();
    u.tick();
    assert_eq!(live_count(&u), 3);
    assert!(cell(&u, 1, 2) && cell(&u, 2, 2) && cell(&u, 3, 2));
    u.tick();
    assert_eq!(live_count(&u), 3);
    assert!(cell(&u, 2, 1) && cell(&u, 2, 2) && cell(&u, 2, 3));
}

#[test]
fn lonely_cell_dies() {
    let mut u = empty_grid(6, 6);
    u.set_cells(&[(2, 2)]).unwrap();
    u.tick();
    assert_eq!(live_count(&u), 0);
}

#[test]
fn pair_dies_of_underpopulation() {
    let mut u = empty_grid(6, 6);
    u.set_cells(&[(2, 2), (2, 3)]).unwrap();
    u.tick();
    assert_eq!(live_count(&u), 0);
}

#[test]
fn crowded_cell_dies_of_overpopulation() {
    let mut u = empty_grid(6, 6);
    u.set_cells(&[(2, 2), (1, 1), (1, 3), (3, 1), (3, 3)]).unwrap();
    assert_eq!(u.live_neighbor_count(2, 2), 4);
    u.tick();
    assert!(!cell(&u, 2, 2));
}

#[test]
fn dead_cell_with_three_neighbors_is_born() {
    let mut u = empty_grid(6, 6);
    u.set_cells(&[(1, 1), (1, 2), (2, 1)]).unwrap();
    assert!(!cell(&u, 2, 2));
    u.tick();
    assert!(cell(&u, 2, 2));
}

#[test]
fn dead_cell_with_two_neighbors_stays_dead() {
    let mut u = empty_grid(6, 6);
    u.set_cells(&[(1, 1), (1, 3)]).unwrap();
    u.tick();
    assert!(!cell(&u, 1, 2));
    assert_eq!(live_count(&u), 0);
}

#[test]
fn glider_advances_one_step_on_8x8() {
    let mut u = empty_grid(8, 8);
    u.set_cells(&[(0, 1), (1, 2), (2, 0), (2, 1), (2, 2)]).unwrap();
    u.tick();
    assert_eq!(live_count(&u), 5);
    assert!(cell(&u, 1, 0));
    assert!(cell(&u, 1, 2));
    assert!(cell(&u, 2, 1));
    assert!(cell(&u, 2, 2));
    assert!(cell(&u, 3, 1));
}

#[test]
fn resize_clears_state() {
    let mut u = empty_grid(8, 8);
    u.set_cells(&[(0, 0), (3, 4), (7, 7)]).unwrap();
    assert_eq!(live_count(&u), 3);
    u.set_width(8).unwrap();
    assert_eq!(u.width(), 8);
    assert_eq!(u.height(), 8);
    for w in u.get_cells() {
        assert_eq!(*w, 0);
    }
}

#[test]
fn resize_height_clears_state_too() {
    let mut u = empty_grid(8, 8);
    u.set_cells(&[(1, 1), (2, 2)]).unwrap();
    u.set_height(10).unwrap();
    assert_eq!(u.height(), 10);
    assert_eq!(live_count(&u), 0);
}

#[test]
fn toggle_is_self_inverse() {
    let mut u = empty_grid(8, 8);
    u.set_cells(&[(1, 1), (5, 6)]).unwrap();
    let before: Vec<u32> = u.get_cells().to_vec();
    u.toggle_cell(3, 4).unwrap();
    assert!(cell(&u, 3, 4));
    assert!(cell(&u, 1, 1) && cell(&u, 5, 6));
    u.toggle_cell(3, 4).unwrap();
    let after: Vec<u32> = u.get_cells().to_vec();
    assert_eq!(before, after);
}

#[test]
fn toggle_turns_a_live_cell_dead() {
    let mut u = empty_grid(4, 4);
    u.set_cells(&[(2, 2)]).unwrap();
    u.toggle_cell(2, 2).unwrap();
    assert!(!cell(&u, 2, 2));
    assert_eq!(live_count(&u), 0);
}

#[test]
fn new_seeds_default_pattern() {
    let u = Universe::new();
    assert_eq!(u.width(), 128);
    assert_eq!(u.height(), 128);
    for i in 0..(128 * 128) as u32 {
        let expected = i % 2 == 0 || i % 7 == 0;
        assert_eq!(cell(&u, i / 128, i % 128), expected, "at index {i}");
    }
}

#[test]
fn random_copies_the_given_bits() {
    let bits: Vec<bool> = (0..64 * 64).map(|i| i % 3 == 0).collect();
    let u = Universe::random(&bits);
    assert_eq!(u.width(), 64);
    assert_eq!(u.height(), 64);
    for i in 0..64 * 64 as u32 {
        assert_eq!(cell(&u, i / 64, i % 64), i % 3 == 0, "at index {i}");
    }
}

#[test]
fn glider_sets_five_offsets_from_base() {
    let u = Universe::glider(0);
    assert_eq!(u.width(), 64);
    assert_eq!(u.height(), 64);
    assert_eq!(live_count(&u), 5);
    for idx in [1u32, 66, 128, 129, 130] {
        assert!(cell(&u, idx / 64, idx % 64), "at index {idx}");
    }
}

#[test]
fn glider_wraps_around_the_end_of_the_grid() {
    let u = Universe::glider(4095);
    assert_eq!(live_count(&u), 5);
    for idx in [0u32, 65, 127, 128, 129] {
        assert!(cell(&u, idx / 64, idx % 64), "at index {idx}");
    }
}

#[test]
fn middleweight_spaceship_sets_eleven_offsets() {
    let u = Universe::middleweight_spaceship(0);
    assert_eq!(u.width(), 64);
    assert_eq!(u.height(), 64);
    assert_eq!(live_count(&u), 11);
    for idx in [1u32, 2, 3, 4, 5, 64, 69, 133, 192, 196, 258] {
        assert!(cell(&u, idx / 64, idx % 64), "at index {idx}");
    }
}

#[test]
fn zero_width_is_rejected() {
    let mut u = empty_grid(4, 4);
    u.set_cells(&[(1, 1)]).unwrap();
    assert_eq!(u.set_width(0), Err(GridError::InvalidDimensions));
    assert_eq!(u.width(), 4);
    assert!(cell(&u, 1, 1));
}

#[test]
fn zero_height_is_rejected() {
    let mut u = empty_grid(4, 4);
    assert_eq!(u.set_height(0), Err(GridError::InvalidDimensions));
    assert_eq!(u.height(), 4);
}

#[test]
fn toggle_out_of_range_is_rejected() {
    let mut u = empty_grid(4, 4);
    assert_eq!(u.toggle_cell(4, 0), Err(GridError::OutOfRange));
    assert_eq!(u.toggle_cell(0, 4), Err(GridError::OutOfRange));
    assert_eq!(live_count(&u), 0);
}

#[test]
fn set_cells_out_of_range_changes_nothing() {
    let mut u = empty_grid(4, 4);
    assert_eq!(u.set_cells(&[(1, 1), (2, 7)]), Err(GridError::OutOfRange));
    assert_eq!(live_count(&u), 0);
    assert!(!cell(&u, 1, 1));
}

#[test]
fn packed_words_follow_bit_order() {
    let mut u = empty_grid(8, 8);
    u.set_cells(&[(4, 1)]).unwrap();
    let words = u.get_cells();
    assert_eq!(words.len(), 2);
    assert_eq!(words[1], 1 << 1);
    assert_eq!(words[0], 0);
}
