use sudoku::puzzle::{Cell, CellState, GamePos, Puzzle};

fn a_test_puzzle() -> Puzzle {
    Puzzle::from([
        // NYTimes Medium Jan 2, 2021
        0, 3, 0, 0, 1, 0, 0, 5, 4,
        0, 0, 0, 7, 8, 0, 0, 0, 3,
        7, 0, 2, 0, 0, 0, 0, 6, 0,
        4, 1, 0, 0, 5, 0, 0, 8, 0,
        0, 0, 3, 0, 0, 2, 9, 0, 0,
        0, 0, 0, 0, 0, 3, 0, 4, 6,
        0, 0, 0, 0, 0, 0, 0, 0, 0,
        0, 5, 0, 4, 0, 0, 0, 0, 0,
        9, 0, 0, 0, 0, 0, 0, 3, 0,
    ])
}

fn marks_of(state: CellState) -> [bool; 9] {
    match state {
        CellState::Pencilmarks(flags) => flags,
        _ => panic!("expected a pencil-marks state"),
    }
}

#[test]
fn test_is_error_duplicate_guess_row() {
    let mut puzzle = a_test_puzzle();

    puzzle.set_guess(&GamePos::at(0, 0), 5);

    assert_eq!(true, puzzle.is_error(GamePos::at(0, 0)));
    assert_eq!(true, puzzle.is_error(GamePos::at(0, 7)));
}

#[test]
fn test_index_round_trip() {
    for idx in 0..=80i32 {
        let pos = GamePos::from_index(idx);
        assert_eq!(pos.to_index(), idx as usize);
    }
}

#[test]
fn test_from_index_coordinates() {
    let pos = GamePos::from_index(20);
    assert_eq!(pos.row, 2);
    assert_eq!(pos.col, 2);

    let first = GamePos::from_index(0);
    assert_eq!(first.row, 0);
    assert_eq!(first.col, 0);

    let last = GamePos::from_index(80);
    assert_eq!(last.row, 8);
    assert_eq!(last.col, 8);
}

#[test]
fn test_aligned_with() {
    assert!(GamePos::at(2, 3).aligned_with(GamePos::at(2, 8)));
    assert!(GamePos::at(1, 4).aligned_with(GamePos::at(7, 4)));
    assert!(GamePos::at(5, 5).aligned_with(GamePos::at(5, 5)));
    assert!(!GamePos::at(1, 3).aligned_with(GamePos::at(2, 4)));
}

#[test]
fn test_clue_immutable() {
    // (0, 1) is seeded as Clue(3).
    let clue = GamePos::at(0, 1);

    let mut puzzle = a_test_puzzle();
    puzzle.set_guess(&clue, 9);
    assert!(matches!(puzzle.state_at(&clue), CellState::Clue(3)));

    puzzle.toggle_candidate(&clue, 4);
    assert!(matches!(puzzle.state_at(&clue), CellState::Clue(3)));

    puzzle.clear(&clue);
    assert!(matches!(puzzle.state_at(&clue), CellState::Clue(3)));
}

#[test]
fn test_toggle_on_guess_sets_exactly_one_candidate() {
    let pos = GamePos::at(6, 0);

    let mut puzzle = a_test_puzzle();
    puzzle.set_guess(&pos, 7);
    assert!(matches!(puzzle.state_at(&pos), CellState::Guess(7)));

    puzzle.toggle_candidate(&pos, 2);
    let flags = marks_of(puzzle.state_at(&pos));
    assert_eq!(flags, [false, true, false, false, false, false, false, false, false]);
}

#[test]
fn test_toggle_twice_restores_marks() {
    let pos = GamePos::at(6, 0);

    let mut puzzle = a_test_puzzle();
    puzzle.toggle_candidate(&pos, 5);
    let before = marks_of(puzzle.state_at(&pos));

    puzzle.toggle_candidate(&pos, 3);
    let during = marks_of(puzzle.state_at(&pos));
    assert_ne!(before, during);

    puzzle.toggle_candidate(&pos, 3);
    let after = marks_of(puzzle.state_at(&pos));
    assert_eq!(before, after);
    assert_eq!(after, [false, false, false, false, true, false, false, false, false]);
}

#[test]
fn test_toggle_preserves_other_candidates() {
    let pos = GamePos::at(6, 3);

    let mut puzzle = a_test_puzzle();
    puzzle.toggle_candidate(&pos, 1);
    puzzle.toggle_candidate(&pos, 9);
    let flags = marks_of(puzzle.state_at(&pos));
    assert_eq!(flags, [true, false, false, false, false, false, false, false, true]);
}

#[test]
fn test_conflicts_symmetric() {
    let pairs = [
        (CellState::Clue(5), CellState::Guess(5)),
        (CellState::Clue(4), CellState::Guess(5)),
        (CellState::Guess(2), CellState::Guess(2)),
        (CellState::Clue(1), CellState::Clue(9)),
        (CellState::Pencilmarks([true; 9]), CellState::Clue(1)),
        (CellState::Pencilmarks([false; 9]), CellState::Pencilmarks([true; 9])),
    ];

    for (a, b) in pairs.iter() {
        assert_eq!(a.conflicts_with(*b), b.conflicts_with(*a));
    }

    assert!(CellState::Clue(5).conflicts_with(CellState::Guess(5)));
    assert!(!CellState::Clue(4).conflicts_with(CellState::Guess(5)));
}

#[test]
fn test_pencilmarks_never_conflict() {
    let marks = CellState::Pencilmarks([true; 9]);

    assert!(!marks.conflicts_with(CellState::Clue(3)));
    assert!(!marks.conflicts_with(CellState::Guess(3)));
    assert!(!marks.conflicts_with(CellState::Pencilmarks([true; 9])));
    assert!(!CellState::Clue(3).conflicts_with(marks));
}

#[test]
fn test_duplicate_guess_flags_only_matching_cells() {
    // Row 0 is seeded [0, 3, 0, 0, 1, 0, 0, 5, 4].
    let mut puzzle = a_test_puzzle();

    puzzle.set_guess(&GamePos::at(0, 0), 5);

    assert!(puzzle.is_error(GamePos::at(0, 0)));
    assert!(puzzle.is_error(GamePos::at(0, 7)));
    // Row-0 cells without a 5 stay clean.
    assert!(!puzzle.is_error(GamePos::at(0, 1)));
    assert!(!puzzle.is_error(GamePos::at(0, 4)));
    assert!(!puzzle.is_error(GamePos::at(0, 8)));
    assert!(!puzzle.is_error(GamePos::at(0, 2)));
}

#[test]
fn test_from_seeds_clues_and_blanks() {
    let mut seed = [0u8; 81];
    seed[4] = 1;

    let puzzle = Puzzle::from(seed);

    assert!(matches!(puzzle.state_at(&GamePos::from_index(4)), CellState::Clue(1)));
    let flags = marks_of(puzzle.state_at(&GamePos::from_index(0)));
    assert_eq!(flags, [false; 9]);
}

#[test]
fn test_clear_resets_guess_and_is_idempotent() {
    let pos = GamePos::at(8, 1);

    let mut puzzle = a_test_puzzle();
    puzzle.set_guess(&pos, 7);
    assert!(matches!(puzzle.state_at(&pos), CellState::Guess(7)));

    puzzle.clear(&pos);
    assert_eq!(marks_of(puzzle.state_at(&pos)), [false; 9]);

    puzzle.clear(&pos);
    assert_eq!(marks_of(puzzle.state_at(&pos)), [false; 9]);
}

#[test]
fn test_iter_cells_yields_81_in_order() {
    let puzzle = a_test_puzzle();

    let mut iter = puzzle.iter_cells();
    let mut count: usize = 0;
    let mut last: i32 = -1;
    while let Some(cell) = iter.next() {
        let linear = cell.pos.row * 9 + cell.pos.col;
        assert!(linear > last);
        last = linear;
        count += 1;
    }

    assert_eq!(count, 81);
    assert_eq!(last, 80);

    // A fresh pass re-derives from current state.
    let mut again = puzzle.iter_cells();
    let first = again.next().expect("a fresh pass yields cells");
    assert_eq!(first.pos.row, 0);
    assert_eq!(first.pos.col, 0);
}

#[test]
fn test_iter_cells_reflects_mutation_and_errors() {
    let mut puzzle = a_test_puzzle();
    puzzle.set_guess(&GamePos::at(0, 0), 5);

    let mut iter = puzzle.iter_cells();
    let first = iter.next().expect("cell 0 exists");
    assert!(matches!(first.state, CellState::Guess(5)));
    assert!(first.error);

    let second = iter.next().expect("cell 1 exists");
    assert!(matches!(second.state, CellState::Clue(3)));
    assert!(!second.error);
}

#[test]
fn test_cell_from_index() {
    let cell = Cell::from_index(20, CellState::Guess(4), true);
    assert_eq!(cell.pos.row, 2);
    assert_eq!(cell.pos.col, 2);
    assert!(matches!(cell.state, CellState::Guess(4)));
    assert!(cell.error);
}
