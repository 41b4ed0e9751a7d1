use gobblet::board::Board;
use gobblet::game_error::GameError::CannotPutPieceHere;
use gobblet::game_error::GameError::SquareIsEmpty;
use gobblet::piece::Piece;
use gobblet::piece::PieceSize::{Big, Medium, Small};
use gobblet::player::Color::{Blue, Red};

#[test]
fn init_board_test() -> Result<(), String> {
    let board = Board::default();

    for x in 0..3 {
        for y in 0..3 {
            if !board.square_is_empty(x, y) {
                return Err(String::from("Le Plateau n'est pas correctement initialisé"));
            }
        }
    }
    Ok(())
}

#[test]
fn put_a_piece_test() {
    let mut board = Board::default();

    assert!(board.square_is_empty(0, 0));

    board
        .put_piece(0, 0, Piece::new(Big, Red))
        .expect("Impossible de place la pièce");

    assert!(board.square_is_not_empty(0, 0));
}

#[test]
fn get_piece_size_test() {
    let mut board = Board::default();

    assert!(board.get_piece_size(0, 0).is_none());

    board
        .put_piece(0, 0, Piece::new(Big, Red))
        .expect("Impossible de place la pièce");

    assert_eq!(board.get_piece_size(0, 0).unwrap(), Big);
}

#[test]
fn get_piece_color_test() {
    let mut board = Board::default();

    assert!(board.get_piece_size(0, 0).is_none());

    board
        .put_piece(0, 0, Piece::new(Big, Red))
        .expect("Impossible de place la pièce");

    assert_eq!(board.get_piece_color(0, 0).unwrap(), Red);
}

#[test]
fn put_a_piece_above_a_piece_test() {
    let mut board = Board::default();

    assert!(board.get_piece_size(0, 0).is_none());

    board
        .put_piece(0, 0, Piece::new(Small, Red))
        .expect("Impossible de placer la pièce");

    assert_eq!(board.get_piece_size(0, 0).unwrap(), Small);

    board
        .put_piece(0, 0, Piece::new(Medium, Red))
        .expect("Impossible de placer la pièce");

    assert_eq!(board.get_piece_size(0, 0).unwrap(), Medium);
}

#[test]
fn get_piece_size_with_nested_test() {
    let mut board = Board::default();

    assert!(board.get_piece_size(0, 0).is_none());

    board
        .put_piece(0, 0, Piece::new(Small, Red))
        .expect("Impossible de place la pièce");

    assert_eq!(board.get_piece_size(0, 0).unwrap(), Small);

    board
        .put_piece(0, 0, Piece::new(Medium, Red))
        .expect("Impossible de place la pièce");

    assert_eq!(board.get_piece_size(0, 0).unwrap(), Medium);
}

#[test]
fn get_piece_color_with_nested_test() {
    let mut board = Board::default();

    assert!(board.get_piece_size(0, 0).is_none());

    board
        .put_piece(0, 0, Piece::new(Medium, Red))
        .expect("Impossible de place la pièce");

    assert_eq!(board.get_piece_color(0, 0).unwrap(), Red);

    board
        .put_piece(0, 0, Piece::new(Big, Blue))
        .expect("Impossible de place la pièce");

    assert_eq!(board.get_piece_color(0, 0).unwrap(), Blue);
}

#[test]
fn put_a_piece_above_a_too_big_piece_error_test() {
    let mut board = Board::default();

    assert!(board.square_is_empty(0, 0));

    board
        .put_piece(0, 0, Piece::new(Medium, Red))
        .expect("Impossible de placer la pièce");

    assert_eq!(board.get_piece_size(0, 0).unwrap(), Medium);

    assert!(board.put_piece(0, 0, Piece::new(Small, Red)).is_err());
    assert!(board.square_is_not_empty(0, 0));
}

#[test]
fn remove_a_piece_test() {
    let mut board = Board::default();

    board
        .put_piece(0, 0, Piece::new(Medium, Red))
        .expect("Impossible de placer la pièce");

    board
        .remove_piece(0, 0)
        .expect("Impossible de retirer la pièce");

    assert!(board.square_is_empty(0, 0));
}

#[test]
fn remove_a_piece_on_empty_square_error_test() -> Result<(), ()> {
    let mut board = Board::default();

    match board.remove_piece(0, 0) {
        Err(SquareIsEmpty) => Ok(()),
        _ => Err(()),
    }
}

#[test]
fn remove_a_piece_with_nested_piece_test() {
    let mut board = Board::default();

    board
        .put_piece(0, 0, Piece::new(Small, Red))
        .expect("Impossible de placer la pièce");
    board
        .put_piece(0, 0, Piece::new(Medium, Red))
        .expect("Impossible de placer la pièce");
    board
        .remove_piece(0, 0)
        .expect("Impossible de retirer la pièce");

    assert!(board.square_is_not_empty(0, 0));
    assert_eq!(board.get_piece_size(0, 0).unwrap(), Small);
}

#[test]
fn move_a_piece_to_a_empty_square_test() {
    let mut board = Board::default();

    board
        .put_piece(0, 0, Piece::new(Small, Red))
        .expect("Impossible de placer la pièce");

    board
        .move_piece(0, 0, 1, 1)
        .expect("Impossible de déplacer la pièce");

    assert!(board.square_is_empty(0, 0));
    assert!(board.square_is_not_empty(1, 1));
    assert_eq!(board.get_piece_size(1, 1).unwrap(), Small);
}

#[test]
fn move_a_piece_from_empty_square_error_test() -> Result<(), ()> {
    let mut board = Board::default();

    match board.move_piece(0, 0, 1, 1) {
        Err(SquareIsEmpty) => Ok(()),
        _ => Err(()),
    }
}

#[test]
fn move_a_piece_on_a_too_big_piece_error_test() -> Result<(), ()> {
    let mut board = Board::default();

    board
        .put_piece(0, 0, Piece::new(Small, Red))
        .expect("Impossible de placer la pièce");
    board
        .put_piece(1, 1, Piece::new(Medium, Red))
        .expect("Impossible de placer la pièce");

    match board.move_piece(0, 0, 1, 1) {
        Err(CannotPutPieceHere) => Ok(()),
        _ => Err(()),
    }
}

#[test]
fn move_a_piece_on_a_piece_test() {
    let mut board = Board::default();

    board
        .put_piece(0, 0, Piece::new(Medium, Red))
        .expect("Impossible de placer la pièce");
    board
        .put_piece(1, 1, Piece::new(Small, Red))
        .expect("Impossible de placer la pièce");
    board
        .move_piece(0, 0, 1, 1)
        .expect("Impossible de retirer la pièce");

    assert_eq!(board.get_piece_size(1, 1).unwrap(), Medium);
}

#[test]
fn check_row_win_test() {
    let mut board = Board::default();

    assert!(board.check_win().is_none());

    board
        .put_piece(1, 0, Piece::new(Medium, Red))
        .expect("Impossible de placer la pièce");
    board
        .put_piece(1, 1, Piece::new(Medium, Red))
        .expect("Impossible de placer la pièce");

    assert!(board.check_win().is_none());

    board
        .put_piece(1, 2, Piece::new(Medium, Red))
        .expect("Impossible de placer la pièce");

    assert_eq!(board.check_win().unwrap(), Red);
}

#[test]
fn check_row_no_win_test() {
    let mut board = Board::default();

    assert!(board.check_win().is_none());

    board
        .put_piece(1, 0, Piece::new(Medium, Red))
        .expect("Impossible de placer la pièce");
    board
        .put_piece(1, 1, Piece::new(Medium, Blue))
        .expect("Impossible de placer la pièce");

    assert!(board.check_win().is_none());

    board
        .put_piece(1, 2, Piece::new(Medium, Red))
        .expect("Impossible de placer la pièce");

    assert!(board.check_win().is_none());
}

#[test]
fn check_column_win_test() {
    let mut board = Board::default();

    assert!(board.check_win().is_none());

    board
        .put_piece(0, 2, Piece::new(Medium, Red))
        .expect("Impossible de placer la pièce");
    board
        .put_piece(1, 2, Piece::new(Medium, Red))
        .expect("Impossible de placer la pièce");

    assert!(board.check_win().is_none());

    board
        .put_piece(2, 2, Piece::new(Medium, Red))
        .expect("Impossible de placer la pièce");

    assert_eq!(board.check_win().unwrap(), Red);
}

#[test]
fn check_column_no_win_test() {
    let mut board = Board::default();

    assert!(board.check_win().is_none());

    board
        .put_piece(0, 0, Piece::new(Medium, Red))
        .expect("Impossible de placer la pièce");
    board
        .put_piece(1, 0, Piece::new(Medium, Blue))
        .expect("Impossible de placer la pièce");

    assert!(board.check_win().is_none());

    board
        .put_piece(2, 0, Piece::new(Medium, Red))
        .expect("Impossible de placer la pièce");

    assert!(board.check_win().is_none());
}

#[test]
fn check_diagonal_win_test() {
    let mut board = Board::default();

    assert!(board.check_win().is_none());

    board
        .put_piece(0, 0, Piece::new(Medium, Red))
        .expect("Impossible de placer la pièce");
    board
        .put_piece(1, 1, Piece::new(Medium, Red))
        .expect("Impossible de placer la pièce");

    assert!(board.check_win().is_none());

    board
        .put_piece(2, 2, Piece::new(Medium, Red))
        .expect("Impossible de placer la pièce");

    assert_eq!(board.check_win().unwrap(), Red);

    let mut board = Board::default();

    assert!(board.check_win().is_none());

    board
        .put_piece(0, 2, Piece::new(Medium, Red))
        .expect("Impossible de placer la pièce");
    board
        .put_piece(1, 1, Piece::new(Medium, Red))
        .expect("Impossible de placer la pièce");

    assert!(board.check_win().is_none());

    board
        .put_piece(2, 0, Piece::new(Medium, Red))
        .expect("Impossible de placer la pièce");

    assert_eq!(board.check_win().unwrap(), Red);
}

#[test]
fn check_diagonal_no_win_test() {
    let mut board = Board::default();

    assert!(board.check_win().is_none());

    board
        .put_piece(0, 0, Piece::new(Medium, Red))
        .expect("Impossible de placer la pièce");
    board
        .put_piece(1, 1, Piece::new(Medium, Blue))
        .expect("Impossible de placer la pièce");

    assert!(board.check_win().is_none());

    board
        .put_piece(2, 2, Piece::new(Medium, Red))
        .expect("Impossible de placer la pièce");

    assert!(board.check_win().is_none());

    let mut board = Board::default();

    assert!(board.check_win().is_none());

    board
        .put_piece(0, 2, Piece::new(Medium, Red))
        .expect("Impossible de placer la pièce");
    board
        .put_piece(1, 1, Piece::new(Medium, Blue))
        .expect("Impossible de placer la pièce");

    assert!(board.check_win().is_none());

    board
        .put_piece(2, 0, Piece::new(Medium, Red))
        .expect("Impossible de placer la pièce");

    assert!(board.check_win().is_none());
}
