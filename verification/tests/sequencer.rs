use gridlife::present::Frame;
use gridlife::state::{Phase, State, SurfaceError, GRID_SIZE};

fn grid_of(rows: &[&str]) -> Vec<u32> {
    let mut cells: Vec<u32> = Vec::new();
    for row in rows {
        for c in row.chars() {
            cells.push(if c == '#' { 1 } else { 0 });
        }
    }
    cells
}

fn blinker() -> State {
    State::with_cells(4, 4, grid_of(&["....", "###.", "....", "...."]), 800, 600).unwrap()
}

#[test]
fn new_context_starts_at_step_zero() {
    let state = State::new(800, 600);
    assert_eq!(state.step(), 0);
    assert_eq!(state.phase(), Phase::Idle);
    assert_eq!(state.size(), (800, 600));
    assert_eq!(state.dimensions().width, GRID_SIZE);
    assert_eq!(state.dimensions().height, GRID_SIZE);
    assert_eq!(GRID_SIZE, 64);
}

#[test]
fn new_context_fills_both_buffers_alike() {
    let state = State::new(1, 1);
    assert_eq!(state.buffer_cells(0).len(), 64 * 64);
    assert_eq!(state.buffer_cells(0), state.buffer_cells(1));
    assert!(state.buffer_cells(0).iter().all(|c| *c <= 1));
}

#[test]
fn seeded_context_follows_the_threshold() {
    let dead = State::seeded(10, 10, u32::MAX);
    assert_eq!(dead.buffer_cells(0), &vec![0u32; 64 * 64]);
    assert_eq!(dead.buffer_cells(1), &vec![0u32; 64 * 64]);
    let mixed = State::seeded(10, 10, 0);
    assert!(mixed.buffer_cells(0).iter().any(|c| *c == 1));
}

#[test]
fn with_cells_wants_one_value_per_cell() {
    assert!(State::with_cells(4, 4, vec![0; 15], 1, 1).is_none());
    assert!(State::with_cells(4, 4, vec![0; 17], 1, 1).is_none());
    assert!(State::with_cells(0, 4, vec![], 1, 1).is_none());
    assert!(State::with_cells(4, 0, vec![], 1, 1).is_none());
    assert!(State::with_cells(65536, 65536, vec![], 1, 1).is_none());
    let state = State::with_cells(2, 3, vec![1, 0, 0, 1, 1, 0], 7, 9).unwrap();
    assert_eq!(state.buffer_cells(0), &vec![1, 0, 0, 1, 1, 0]);
    assert_eq!(state.buffer_cells(1), &vec![1, 0, 0, 1, 1, 0]);
    assert_eq!(state.step(), 0);
    assert_eq!(state.size(), (7, 9));
    assert_eq!(state.phase(), Phase::Idle);
    assert_eq!(state.dimensions().width, 2);
    assert_eq!(state.dimensions().height, 3);
}

#[test]
fn roles_follow_the_parity_of_the_step() {
    let mut state = blinker();
    assert_eq!(state.roles().source, 0);
    assert_eq!(state.roles().destination, 1);
    state.step_up();
    assert_eq!(state.roles().source, 1);
    assert_eq!(state.roles().destination, 0);
    state.step_up();
    assert_eq!(state.roles().source, 0);
    assert_eq!(state.roles().destination, 1);
}

#[test]
fn destination_of_a_step_is_source_of_the_next() {
    let mut state = blinker();
    for _ in 0..10 {
        let before = state.roles();
        assert_ne!(before.source, before.destination);
        state.render(Ok(())).unwrap();
        let after = state.roles();
        assert_eq!(after.source, before.destination);
        assert_eq!(after.destination, before.source);
    }
}

#[test]
fn step_up_changes_the_counter_alone() {
    let mut state = blinker();
    let first = state.buffer_cells(0).clone();
    let second = state.buffer_cells(1).clone();
    state.step_up();
    assert_eq!(state.step(), 1);
    assert_eq!(state.buffer_cells(0), &first);
    assert_eq!(state.buffer_cells(1), &second);
    assert_eq!(state.size(), (800, 600));
    assert_eq!(state.phase(), Phase::Idle);
}

#[test]
fn resize_to_zero_changes_nothing() {
    let mut state = blinker();
    state.render(Ok(())).unwrap();
    let first = state.buffer_cells(0).clone();
    let second = state.buffer_cells(1).clone();
    assert!(!state.resize(0, 0));
    assert!(!state.resize(0, 300));
    assert!(!state.resize(300, 0));
    assert_eq!(state.size(), (800, 600));
    assert_eq!(state.step(), 1);
    assert_eq!(state.phase(), Phase::Idle);
    assert_eq!(state.buffer_cells(0), &first);
    assert_eq!(state.buffer_cells(1), &second);
}

#[test]
fn resize_sets_the_size_alone() {
    let mut state = blinker();
    state.render(Ok(())).unwrap();
    let first = state.buffer_cells(0).clone();
    let second = state.buffer_cells(1).clone();
    assert!(state.resize(1024, 768));
    assert_eq!(state.size(), (1024, 768));
    assert_eq!(state.step(), 1);
    assert_eq!(state.buffer_cells(0), &first);
    assert_eq!(state.buffer_cells(1), &second);
    assert!(state.resize(1, 1));
    assert_eq!(state.size(), (1, 1));
}

#[test]
fn render_draws_the_buffer_just_written() {
    let mut state = blinker();
    let frame = state.render(Ok(())).unwrap();
    assert_eq!(frame, Frame { buffer: 1, vertices: 6, instances: 16 });
    assert_eq!(state.buffer_cells(1), &grid_of(&[".#..", ".#..", ".#..", "...."]));
    assert_eq!(state.buffer_cells(0), &grid_of(&["....", "###.", "....", "...."]));
    let frame = state.render(Ok(())).unwrap();
    assert_eq!(frame, Frame { buffer: 0, vertices: 6, instances: 16 });
    assert_eq!(state.buffer_cells(0), &grid_of(&["....", "###.", "....", "...."]));
    assert_eq!(state.buffer_cells(1), &grid_of(&[".#..", ".#..", ".#..", "...."]));
}

#[test]
fn render_on_the_full_grid_draws_every_cell() {
    let mut state = State::new(640, 480);
    let frame = state.render(Ok(())).unwrap();
    assert_eq!(frame.vertices, 6);
    assert_eq!(frame.instances, 4096);
    assert_eq!(frame.buffer, 1);
}

#[test]
fn step_goes_up_when_the_frame_is_shown() {
    let mut state = blinker();
    for k in 0..5usize {
        assert_eq!(state.step(), k);
        assert!(state.render(Ok(())).is_ok());
        assert_eq!(state.step(), k + 1);
    }
}

#[test]
fn step_goes_up_when_the_frame_is_dropped() {
    let mut state = blinker();
    assert_eq!(state.render(Err(SurfaceError::Timeout)), Err(SurfaceError::Timeout));
    assert_eq!(state.step(), 1);
    assert_eq!(state.render(Err(SurfaceError::Outdated)), Err(SurfaceError::Outdated));
    assert_eq!(state.step(), 2);
    assert_eq!(state.render(Err(SurfaceError::Lost)), Err(SurfaceError::Lost));
    assert_eq!(state.step(), 3);
    assert_eq!(state.render(Err(SurfaceError::OutOfMemory)), Err(SurfaceError::OutOfMemory));
    assert_eq!(state.step(), 4);
    assert_eq!(state.phase(), Phase::Idle);
}

#[test]
fn generation_advances_when_the_frame_is_dropped() {
    let mut state = blinker();
    assert!(state.render(Err(SurfaceError::Timeout)).is_err());
    assert_eq!(state.buffer_cells(1), &grid_of(&[".#..", ".#..", ".#..", "...."]));
    let frame = state.render(Ok(())).unwrap();
    assert_eq!(frame.buffer, 0);
    assert_eq!(state.buffer_cells(0), &grid_of(&["....", "###.", "....", "...."]));
}

#[test]
fn a_tick_passes_through_the_four_phases() {
    let mut state = blinker();
    assert_eq!(state.phase(), Phase::Idle);
    let roles = state.begin_tick();
    assert_eq!(roles.source, 0);
    assert_eq!(roles.destination, 1);
    assert_eq!(state.phase(), Phase::Evolving);
    assert_eq!(state.buffer_cells(1), &grid_of(&["....", "###.", "....", "...."]));
    state.evolve_stage();
    assert_eq!(state.phase(), Phase::Presenting);
    assert_eq!(state.buffer_cells(1), &grid_of(&[".#..", ".#..", ".#..", "...."]));
    assert_eq!(state.step(), 0);
    let frame = state.present_stage(Ok(())).unwrap();
    assert_eq!(frame, Frame { buffer: 1, vertices: 6, instances: 16 });
    assert_eq!(state.phase(), Phase::Presented);
    assert_eq!(state.step(), 0);
    state.end_tick();
    assert_eq!(state.phase(), Phase::Idle);
    assert_eq!(state.step(), 1);
}

#[test]
fn present_stage_hands_the_failure_on() {
    let mut state = blinker();
    state.begin_tick();
    state.evolve_stage();
    assert_eq!(state.present_stage(Err(SurfaceError::Lost)), Err(SurfaceError::Lost));
    assert_eq!(state.phase(), Phase::Presented);
}

#[test]
fn step_up_before_the_first_tick_swaps_the_roles() {
    let mut state = blinker();
    state.step_up();
    let frame = state.render(Ok(())).unwrap();
    assert_eq!(frame.buffer, 0);
    assert_eq!(state.step(), 2);
    assert_eq!(state.buffer_cells(0), &grid_of(&[".#..", ".#..", ".#..", "...."]));
    assert_eq!(state.buffer_cells(1), &grid_of(&["....", "###.", "....", "...."]));
}

#[test]
fn dead_context_stays_dead() {
    let mut state = State::seeded(1, 1, u32::MAX);
    for _ in 0..3 {
        state.render(Ok(())).unwrap();
        assert_eq!(state.buffer_cells(0), &vec![0u32; 4096]);
        assert_eq!(state.buffer_cells(1), &vec![0u32; 4096]);
    }
}

#[test]
fn only_loss_and_memory_are_fatal() {
    assert!(!SurfaceError::Timeout.is_fatal());
    assert!(!SurfaceError::Outdated.is_fatal());
    assert!(SurfaceError::Lost.is_fatal());
    assert!(SurfaceError::OutOfMemory.is_fatal());
}

#[test]
fn buffer_bytes_are_the_cells_in_memory() {
    let state = State::with_cells(2, 2, vec![1, 0, 0x01020304, 0xfffefdfc], 1, 1).unwrap();
    let bytes = state.buffer_bytes(0);
    assert_eq!(bytes.len(), 16);
    let mut expected: Vec<u8> = Vec::new();
    for cell in [1u32, 0, 0x01020304, 0xfffefdfc] {
        expected.extend_from_slice(&cell.to_ne_bytes());
    }
    assert_eq!(bytes, expected);
    assert_eq!(state.buffer_bytes(1), expected);
}

#[test]
fn buffer_bytes_follow_the_generation() {
    let mut state = blinker();
    state.render(Ok(())).unwrap();
    let bytes = state.buffer_bytes(1);
    assert_eq!(bytes.len(), 64);
    for (i, cell) in grid_of(&[".#..", ".#..", ".#..", "...."]).iter().enumerate() {
        let word = u32::from_ne_bytes([bytes[4 * i], bytes[4 * i + 1], bytes[4 * i + 2], bytes[4 * i + 3]]);
        assert_eq!(word, *cell);
    }
    assert_ne!(state.buffer_bytes(0), bytes);
}
