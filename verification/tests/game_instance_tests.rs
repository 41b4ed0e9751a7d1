use gobblet::game_error::GameError::{NotYourPiece, PieceNotAvailable, SquareIsEmpty};
use gobblet::game_instance::GameInstance;
use gobblet::piece::PieceSize::{Big, Medium, Small};
use gobblet::player::Color::{Blue, Red};

#[test]
fn game_instance_new_test() {
    let game_instance = GameInstance::default();
    let game_state = game_instance.to_game_state();
    assert_eq!(game_state.players[0].color, Red);
    assert_eq!(game_state.players[1].color, Blue);
    assert_eq!(game_state.turn, 0);
}

#[test]
fn next_turn_test() {
    let mut game_instance = GameInstance::default();

    assert_eq!(game_instance.to_game_state().turn, 0);

    game_instance.next_turn();

    assert_eq!(game_instance.to_game_state().turn, 1);
}

#[test]
fn get_current_player_test() {
    let mut game_instance = GameInstance::default();

    assert_eq!(game_instance.get_current_player().color, Red);

    game_instance.next_turn();

    assert_eq!(game_instance.get_current_player().color, Blue);
}

#[test]
fn put_piece_player_switch_test() {
    let mut game_instance = GameInstance::default();

    game_instance
        .put_piece(1, 1, Small)
        .expect("Impossible de placer la pièce");

    assert_eq!(game_instance.get_piece_color(1, 1).unwrap(), Red);

    game_instance
        .put_piece(1, 1, Medium)
        .expect("Impossible de placer la pièce");

    assert_eq!(game_instance.get_piece_color(1, 1).unwrap(), Blue);
}

#[test]
fn put_piece_player_switch_with_error_test() {
    let mut game_instance = GameInstance::default();

    game_instance
        .put_piece(1, 1, Medium)
        .expect("Impossible de placer la pièce");

    assert_eq!(game_instance.get_piece_color(1, 1).unwrap(), Red);

    assert!(game_instance.put_piece(1, 1, Medium).is_err());

    game_instance
        .put_piece(1, 1, Big)
        .expect("Impossible de placer la pièce");

    assert_eq!(game_instance.get_piece_color(1, 1).unwrap(), Blue);
}

#[test]
fn move_piece_test() {
    let mut game_instance = GameInstance::default();

    game_instance
        .put_piece(1, 1, Medium)
        .expect("Impossible de placer la pièce");

    game_instance
        .put_piece(2, 2, Small)
        .expect("Impossible de placer la pièce");

    game_instance
        .move_piece(1, 1, 2, 2)
        .expect("Impossible de déplacer la pièce");

    assert_eq!(game_instance.get_piece_size(2, 2).unwrap(), Medium);
    assert_eq!(game_instance.get_piece_color(2, 2).unwrap(), Red);
}

#[test]
fn move_piece_player_switch_test() {
    let mut game_instance = GameInstance::default();

    game_instance
        .put_piece(1, 1, Medium)
        .expect("Impossible de placer la pièce");

    game_instance
        .put_piece(2, 2, Small)
        .expect("Impossible de placer la pièce");

    game_instance
        .move_piece(1, 1, 2, 2)
        .expect("Impossible de déplacer la pièce");

    game_instance
        .put_piece(1, 1, Big)
        .expect("Impossible de placer la pièce");

    assert_eq!(game_instance.get_piece_color(1, 1).unwrap(), Blue);
}

#[test]
fn move_piece_not_your_piece_error_test() -> Result<(), ()> {
    let mut game_instance = GameInstance::default();

    game_instance
        .put_piece(1, 1, Small)
        .expect("Impossible de placer la pièce");

    match game_instance.move_piece(1, 1, 2, 2) {
        Err(NotYourPiece) => Ok(()),
        _ => Err(()),
    }
}

#[test]
fn move_piece_square_is_empty_test() -> Result<(), ()> {
    let mut game_instance = GameInstance::default();

    match game_instance.move_piece(1, 1, 2, 2) {
        Err(SquareIsEmpty) => Ok(()),
        _ => Err(()),
    }
}

#[test]
fn game_instance_remove_piece_error_test() -> Result<(), ()> {
    let mut game_instance = GameInstance::default();

    game_instance
        .put_piece(0, 0, Small)
        .expect("Impossible de placer la pièce");

    game_instance
        .put_piece(0, 0, Medium)
        .expect("Impossible de placer la pièce");

    game_instance
        .put_piece(1, 1, Small)
        .expect("Impossible de placer la pièce");

    game_instance
        .put_piece(1, 1, Medium)
        .expect("Impossible de placer la pièce");

    match game_instance.put_piece(2, 2, Small) {
        Err(PieceNotAvailable) => Ok(()),
        _ => Err(()),
    }
}

#[test]
fn game_instance_to_game_state() {
    let mut game_instance = GameInstance::default();

    game_instance.next_turn();

    let game_state = game_instance.to_game_state();

    assert_eq!(game_state.turn, 1);
}
