use tic_tac_toe::board::WINNER_POSITIONS;
use tic_tac_toe::{Board, Error, Player, PositionError};

#[test]
fn should_mark_position() {
    let mut board = Board::new();

    board.mark_position(1, Player::One).unwrap();
    board.mark_position(2, Player::One).unwrap();
    board.mark_position(3, Player::One).unwrap();
    board.mark_position(4, Player::Two).unwrap();
    board.mark_position(5, Player::Two).unwrap();
    board.mark_position(6, Player::Two).unwrap();

    assert_eq!(*board.get_position_value(1).unwrap(), Player::One);
    assert_eq!(*board.get_position_value(2).unwrap(), Player::One);
    assert_eq!(*board.get_position_value(3).unwrap(), Player::One);
    assert_eq!(*board.get_position_value(4).unwrap(), Player::Two);
    assert_eq!(*board.get_position_value(5).unwrap(), Player::Two);
    assert_eq!(*board.get_position_value(6).unwrap(), Player::Two);

    let position_value_to_bool = |v| match board.get_position_value(v) {
        Some(_) => true,
        _ => false,
    };

    assert_eq!(position_value_to_bool(7), false);
    assert_eq!(position_value_to_bool(8), false);
    assert_eq!(position_value_to_bool(9), false);
}

#[test]
fn should_win_the_match() {
    for positions in WINNER_POSITIONS.iter() {
        let mut board = Board::new();

        board.mark_position(positions.0, Player::One).unwrap();
        board.mark_position(positions.1, Player::One).unwrap();
        board.mark_position(positions.2, Player::One).unwrap();

        assert!(board.player_won(Player::One));
        assert_eq!(board.player_won(Player::Two), false);
    }
}

#[test]
fn should_validate_position() {
    let mut board = Board::new();
    assert!(board.validate_position(10).is_err());
    assert!(board.validate_position(0).is_err());

    board.mark_position(1, Player::One).unwrap();
    assert!(board.validate_position(1).is_err());

    assert!(board.validate_position(2).is_ok());
    board.mark_position(2, Player::One).unwrap();
    assert!(board.validate_position(2).is_err());
}

#[test]
fn winner_positions_are_the_eight_lines() {
    assert_eq!(
        WINNER_POSITIONS,
        [
            (1, 2, 3),
            (4, 5, 6),
            (7, 8, 9),
            (1, 4, 7),
            (2, 5, 8),
            (3, 6, 9),
            (1, 5, 9),
            (3, 5, 7),
        ]
    );
}

#[test]
fn new_board_is_empty() {
    let board = Board::new();
    for position in 0..=255u8 {
        assert_eq!(board.get_position_value(position), None);
        assert_eq!(board.get_position_marker(position), " ");
    }
    assert!(!board.player_won(Player::One));
    assert!(!board.player_won(Player::Two));
}

#[test]
fn position_is_valid_from_one_to_nine() {
    assert!(!Board::position_is_valid(0));
    for position in 1..=9u8 {
        assert!(Board::position_is_valid(position));
    }
    for position in 10..=255u8 {
        assert!(!Board::position_is_valid(position));
    }
}

#[test]
fn positions_off_the_grid_are_invalid() {
    let mut board = Board::new();
    board.mark_position(3, Player::Two).unwrap();
    let before = board.render();
    for position in (0..=255u8).filter(|p| *p < 1 || *p > 9) {
        assert_eq!(
            board.validate_position(position),
            Err(PositionError::PositionInvalid)
        );
        assert_eq!(
            board.mark_position(position, Player::One),
            Err(PositionError::PositionInvalid)
        );
        assert_eq!(board.get_position_value(position), None);
    }
    assert_eq!(board.render(), before);
}

#[test]
fn marking_a_cell_twice_is_rejected() {
    for position in 1..=9u8 {
        for first in [Player::One, Player::Two] {
            for second in [Player::One, Player::Two] {
                let mut board = Board::new();
                assert_eq!(board.validate_position(position), Ok(()));
                assert_eq!(board.mark_position(position, first), Ok(()));
                assert_eq!(
                    board.validate_position(position),
                    Err(PositionError::PositionAlreadyMarked)
                );
                assert_eq!(
                    board.mark_position(position, second),
                    Err(PositionError::PositionAlreadyMarked)
                );
                assert_eq!(board.get_position_value(position), Some(&first));
            }
        }
    }
}

#[test]
fn marking_changes_one_cell_only() {
    let mut board = Board::new();
    board.mark_position(5, Player::One).unwrap();
    for position in 1..=9u8 {
        if position == 5 {
            assert_eq!(board.get_position_value(position), Some(&Player::One));
        } else {
            assert_eq!(board.get_position_value(position), None);
        }
    }
    board.mark_position(9, Player::Two).unwrap();
    assert_eq!(board.get_position_value(5), Some(&Player::One));
    assert_eq!(board.get_position_value(9), Some(&Player::Two));
    assert_eq!(board.get_position_value(1), None);
}

#[test]
fn each_triple_wins_for_either_player() {
    for positions in WINNER_POSITIONS.iter() {
        for player in [Player::One, Player::Two] {
            let other = match player {
                Player::One => Player::Two,
                Player::Two => Player::One,
            };
            let mut board = Board::new();
            board.mark_position(positions.0, player).unwrap();
            assert!(!board.player_won(player));
            board.mark_position(positions.1, player).unwrap();
            assert!(!board.player_won(player));
            board.mark_position(positions.2, player).unwrap();
            assert!(board.player_won(player));
            assert!(!board.player_won(other));
        }
    }
}

#[test]
fn mixed_triple_does_not_win() {
    let mut board = Board::new();
    board.mark_position(1, Player::One).unwrap();
    board.mark_position(2, Player::Two).unwrap();
    board.mark_position(3, Player::One).unwrap();
    board.mark_position(5, Player::One).unwrap();
    board.mark_position(8, Player::Two).unwrap();
    assert!(!board.player_won(Player::One));
    assert!(!board.player_won(Player::Two));
}

#[test]
fn both_players_can_hold_a_triple_on_a_free_board() {
    let mut board = Board::new();
    for position in [4u8, 5, 6] {
        board.mark_position(position, Player::Two).unwrap();
    }
    for position in [1u8, 2, 3] {
        board.mark_position(position, Player::One).unwrap();
    }
    assert!(board.player_won(Player::One));
    assert!(board.player_won(Player::Two));
}

#[test]
fn markers_follow_the_cells() {
    let mut board = Board::new();
    board.mark_position(1, Player::One).unwrap();
    board.mark_position(9, Player::Two).unwrap();
    assert_eq!(board.get_position_marker(1), "X");
    assert_eq!(board.get_position_marker(9), "O");
    assert_eq!(board.get_position_marker(5), " ");
    assert_eq!(board.get_position_marker(0), " ");
    assert_eq!(board.get_position_marker(10), " ");
}

#[test]
fn render_shows_three_rows() {
    let mut board = Board::new();
    assert_eq!(board.render(), "|   |   |   |\n|   |   |   |\n|   |   |   |\n");
    board.mark_position(1, Player::One).unwrap();
    board.mark_position(5, Player::Two).unwrap();
    board.mark_position(6, Player::One).unwrap();
    board.mark_position(7, Player::Two).unwrap();
    assert_eq!(board.render(), "| X |   |   |\n|   | O | X |\n| O |   |   |\n");
}

#[test]
fn position_errors_have_messages() {
    assert_eq!(
        PositionError::PositionInvalid.message(),
        "Position must be between 1 and 9"
    );
    assert_eq!(
        PositionError::PositionAlreadyMarked.message(),
        "The position was already marked"
    );
}
