use tictactoe::board::{Board, BoardError, Cell};

#[test]
fn new_board_is_empty() {
    let b = Board::new();
    for i in 0..9 {
        assert_eq!(b.get(i), Ok(Cell::Empty));
    }
    assert_eq!(b.count_empty(), 9);
    assert_eq!(b.empty_indices(), vec![0, 1, 2, 3, 4, 5, 6, 7, 8]);
}

#[test]
fn get_past_last_cell_is_out_of_range() {
    let b = Board::new();
    assert_eq!(b.get(9), Err(BoardError::OutOfRange));
    assert_eq!(b.get(usize::MAX), Err(BoardError::OutOfRange));
}

#[test]
fn set_writes_one_cell() {
    let mut b = Board::new();
    assert_eq!(b.set(4, Cell::X), Ok(()));
    assert_eq!(b.get(4), Ok(Cell::X));
    assert_eq!(b.get(3), Ok(Cell::Empty));
    assert_eq!(b.count_empty(), 8);
    assert_eq!(b.empty_indices(), vec![0, 1, 2, 3, 5, 6, 7, 8]);
    assert_eq!(b.set(4, Cell::O), Ok(()));
    assert_eq!(b.get(4), Ok(Cell::O));
}

#[test]
fn set_past_last_cell_changes_nothing() {
    let mut b = Board::new();
    assert_eq!(b.set(9, Cell::X), Err(BoardError::OutOfRange));
    assert_eq!(b.count_empty(), 9);
}

#[test]
fn reset_empties_every_cell() {
    let mut b = Board::new();
    b.set(0, Cell::X).unwrap();
    b.set(8, Cell::O).unwrap();
    assert_eq!(b.count_empty(), 7);
    b.reset();
    assert_eq!(b.count_empty(), 9);
    for i in 0..9 {
        assert_eq!(b.get(i), Ok(Cell::Empty));
    }
}

#[test]
fn full_board_has_no_empty_index() {
    let mut b = Board::new();
    for i in 0..9 {
        b.set(i, if i % 2 == 0 { Cell::X } else { Cell::O }).unwrap();
    }
    assert_eq!(b.count_empty(), 0);
    assert!(b.empty_indices().is_empty());
}
