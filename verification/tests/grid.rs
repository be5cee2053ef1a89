use poc_game::engine::{compute_next_generation, next_state_of_line};
use poc_game::state::CurrentState;

#[test]
fn input_grid_unchanged() {
    let grid = vec![
        vec![false, true, false],
        vec![false, true, false],
        vec![false, true, false],
    ];
    let before = grid.clone();
    let _ = compute_next_generation(&grid);
    assert_eq!(grid, before);
}

#[test]
fn dead_grid_stays_dead() {
    let grid = vec![vec![false; 5]; 4];
    let next = compute_next_generation(&grid);
    assert_eq!(next, vec![vec![false; 5]; 4]);
}

#[test]
fn empty_grid_steps_to_empty() {
    let grid: Vec<Vec<bool>> = vec![];
    let next = compute_next_generation(&grid);
    assert!(next.is_empty());
}

#[test]
fn empty_row_steps_to_empty_row() {
    let grid: Vec<Vec<bool>> = vec![vec![], vec![true]];
    let next = compute_next_generation(&grid);
    assert_eq!(next, vec![vec![], vec![false]]);
}

#[test]
fn lone_cell_dies() {
    let grid = vec![
        vec![false, false, false],
        vec![false, true, false],
        vec![false, false, false],
    ];
    let next = compute_next_generation(&grid);
    assert_eq!(next, vec![vec![false; 3]; 3]);

    let single = vec![vec![true]];
    assert_eq!(compute_next_generation(&single), vec![vec![false]]);
}

#[test]
fn blinker_oscillates_with_period_two() {
    let vertical = vec![
        vec![false, true, false],
        vec![false, true, false],
        vec![false, true, false],
    ];
    let horizontal = vec![
        vec![false, false, false],
        vec![true, true, true],
        vec![false, false, false],
    ];
    let once = compute_next_generation(&vertical);
    assert_eq!(once, horizontal);
    let twice = compute_next_generation(&once);
    assert_eq!(twice, vertical);
}

#[test]
fn three_neighbors_gives_birth() {
    // The dead corner has exactly three live neighbors and is born; every
    // live cell has two live neighbors and survives.
    let grid = vec![vec![true, true], vec![true, false]];
    let next = compute_next_generation(&grid);
    assert_eq!(next, vec![vec![true, true], vec![true, true]]);
}

#[test]
fn four_neighbors_kills_live_cell() {
    // The live center has exactly four live neighbors, one in each corner.
    let grid = vec![
        vec![true, false, true],
        vec![false, true, false],
        vec![true, false, true],
    ];
    let next = compute_next_generation(&grid);
    assert!(!next[1][1]);
}

#[test]
fn four_neighbors_leaves_dead_cell_dead() {
    let grid = vec![
        vec![true, false, true],
        vec![false, false, false],
        vec![true, false, true],
    ];
    let next = compute_next_generation(&grid);
    assert!(!next[1][1]);
}

#[test]
fn ragged_rows_count_out_of_bounds_as_dead() {
    // The second row is shorter than the first: positions beyond its end,
    // like every position outside the grid, count as dead.
    let grid = vec![vec![true, true, true], vec![true]];
    let next = compute_next_generation(&grid);
    assert_eq!(next, vec![vec![true, true, false], vec![true]]);
}

#[test]
fn next_state_of_line_steps_one_row() {
    let vertical = vec![
        vec![false, true, false],
        vec![false, true, false],
        vec![false, true, false],
    ];
    assert_eq!(next_state_of_line(&vertical, 0), vec![false, false, false]);
    assert_eq!(next_state_of_line(&vertical, 1), vec![true, true, true]);
    assert_eq!(next_state_of_line(&vertical, 2), vec![false, false, false]);
}

#[test]
fn step_cells_returns_stepped_text() {
    let mut state = CurrentState::new();
    let blinker = vec![
        vec![false, true, false],
        vec![false, true, false],
        vec![false, true, false],
    ];
    let text = state.refresh_cells(&blinker);
    assert_eq!(text, "   \nooo\n   ");
}

#[test]
fn current_state_does_not_advance() {
    let mut state = CurrentState::new();
    let blinker = vec![
        vec![false, true, false],
        vec![false, true, false],
        vec![false, true, false],
    ];
    let stepped = state.refresh_cells(&blinker);
    assert_eq!(state.current_state(), stepped);
    assert_eq!(state.current_state(), stepped);
}

#[test]
fn next_twice_returns_original_orientation() {
    let mut state = CurrentState {
        states: vec![
            vec![false, true, false],
            vec![false, true, false],
            vec![false, true, false],
        ],
    };
    let original = state.to_string();
    assert_eq!(original, " o \n o \n o ");
    let once = state.next_state();
    assert_eq!(once, "   \nooo\n   ");
    let twice = state.next_state();
    assert_eq!(twice, original);
}

#[test]
fn digit_cells_treat_only_one_as_alive() {
    let mut digit_state = CurrentState::new();
    let digits = vec![vec![0, 1, 2], vec![0, 1, 0], vec![-1, 1, 0]];
    let from_digits = digit_state.refresh_digit_cells(&digits);

    let mut bool_state = CurrentState::new();
    let cells = vec![
        vec![false, true, false],
        vec![false, true, false],
        vec![false, true, false],
    ];
    let from_bools = bool_state.refresh_cells(&cells);
    assert_eq!(from_digits, from_bools);
    assert_eq!(from_digits, "   \nooo\n   ");
}

#[test]
fn empty_state_renders_empty_string() {
    let state = CurrentState::new();
    assert_eq!(state.to_string(), "");
    assert_eq!(state.current_state(), "");
}

#[test]
fn rendering_uses_marker_and_space() {
    let state = CurrentState {
        states: vec![vec![true, false, true]],
    };
    assert_eq!(state.to_string(), "o o");
}
