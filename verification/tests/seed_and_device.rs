use gridlife::device::{choose_format, workgroup_count, WORKGROUP_SIZE};
use gridlife::seed::{draw_words, random_cells, seed_cell, seed_cells, DEFAULT_THRESHOLD, DRAW_RANGE};

fn as_fraction(word: u32) -> f32 {
    (word >> 8) as f32 * (1.0 / 16777216.0)
}

#[test]
fn draw_range_is_two_to_the_twenty_fourth() {
    assert_eq!(DRAW_RANGE, 1u32 << 24);
}

#[test]
fn default_threshold_is_six_tenths_in_single_precision() {
    assert_eq!(DEFAULT_THRESHOLD as f32 / DRAW_RANGE as f32, 0.6f32);
    assert_eq!(DEFAULT_THRESHOLD, 10066330);
}

#[test]
fn cell_is_alive_exactly_above_the_threshold() {
    let at: u32 = DEFAULT_THRESHOLD << 8;
    assert_eq!(seed_cell(at, DEFAULT_THRESHOLD), 0);
    assert_eq!(seed_cell(at | 0xff, DEFAULT_THRESHOLD), 0);
    assert_eq!(seed_cell(at + 0x100, DEFAULT_THRESHOLD), 1);
    assert_eq!(seed_cell(at - 1, DEFAULT_THRESHOLD), 0);
    assert_eq!(seed_cell(0, DEFAULT_THRESHOLD), 0);
    assert_eq!(seed_cell(u32::MAX, DEFAULT_THRESHOLD), 1);
}

#[test]
fn seeding_agrees_with_the_draw_as_a_fraction() {
    let at: u32 = DEFAULT_THRESHOLD << 8;
    let words: [u32; 10] = [
        0,
        1,
        at - 0x100,
        at - 1,
        at,
        at + 0xff,
        at + 0x100,
        at + 0x200,
        0x8000_0000,
        u32::MAX,
    ];
    for word in words {
        let alive = as_fraction(word) > 0.6;
        assert_eq!(seed_cell(word, DEFAULT_THRESHOLD) == 1, alive);
    }
}

#[test]
fn threshold_is_a_parameter() {
    assert_eq!(seed_cell(0x100, 0), 1);
    assert_eq!(seed_cell(0xff, 0), 0);
    assert_eq!(seed_cell(u32::MAX, DRAW_RANGE - 1), 0);
    assert_eq!(seed_cell(u32::MAX, DRAW_RANGE - 2), 1);
    assert_eq!(seed_cell(u32::MAX, u32::MAX), 0);
}

#[test]
fn cells_are_seeded_in_order() {
    let words: Vec<u32> = vec![0, u32::MAX, 0x100, 0xff, 0x8000_0000];
    assert_eq!(seed_cells(&words, 0), vec![0, 1, 1, 0, 1]);
    assert_eq!(seed_cells(&words, 1 << 23), vec![0, 1, 0, 0, 0]);
    assert_eq!(seed_cells(&Vec::new(), 0), Vec::<u32>::new());
}

#[test]
fn drawn_words_come_in_the_asked_number() {
    assert_eq!(draw_words(0).len(), 0);
    assert_eq!(draw_words(17).len(), 17);
}

#[test]
fn drawn_words_differ() {
    let words = draw_words(64);
    let first = words[0];
    assert!(words.iter().any(|w| *w != first));
}

#[test]
fn random_cells_are_binary() {
    let cells = random_cells(4096, DEFAULT_THRESHOLD);
    assert_eq!(cells.len(), 4096);
    assert!(cells.iter().all(|c| *c <= 1));
}

#[test]
fn random_cells_hold_both_states() {
    let cells = random_cells(4096, DEFAULT_THRESHOLD);
    let alive = cells.iter().filter(|c| **c == 1).count();
    assert!(alive > 0);
    assert!(alive < 4096);
}

#[test]
fn no_cell_lives_above_the_highest_draw() {
    let cells = random_cells(500, DRAW_RANGE - 1);
    assert_eq!(cells, vec![0; 500]);
    let cells = random_cells(500, u32::MAX);
    assert_eq!(cells, vec![0; 500]);
}

#[test]
fn first_srgb_format_is_chosen() {
    assert_eq!(choose_format(&vec![false, true, true]), 1);
    assert_eq!(choose_format(&vec![true, false]), 0);
    assert_eq!(choose_format(&vec![false, false, false, true]), 3);
}

#[test]
fn first_format_is_chosen_without_srgb() {
    assert_eq!(choose_format(&vec![false]), 0);
    assert_eq!(choose_format(&vec![false, false, false]), 0);
}

#[test]
fn workgroups_cover_the_grid() {
    assert_eq!(WORKGROUP_SIZE, 8);
    assert_eq!(workgroup_count(64), 8);
    assert_eq!(workgroup_count(65), 9);
    assert_eq!(workgroup_count(63), 8);
    assert_eq!(workgroup_count(1), 1);
    assert_eq!(workgroup_count(8), 1);
    assert_eq!(workgroup_count(9), 2);
    assert_eq!(workgroup_count(0), 0);
    assert_eq!(workgroup_count(u32::MAX), 536870912);
}

#[test]
fn workgroups_agree_with_the_rounded_quotient() {
    for extent in 0..200u32 {
        assert_eq!(workgroup_count(extent), (extent as f32 / 8.0).ceil() as u32);
    }
}
