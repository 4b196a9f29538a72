use tpc_adapter::engine::{GameStatus, RulesEngine};
use tpc_adapter::player::Color;
use tpc_adapter::surface::InteractionSurface;
use tpc_adapter::table::{field_at, TokenTable};
use tpc_adapter::tokens::{Take, TokenGame};

#[test]
fn token_game_starts_with_nine() {
    let game = TokenGame::new_game();
    assert_eq!(game.state_string(), "9a-");
    assert_eq!(game.display_string(), "pile 9 turn a");
    assert_eq!(game.turn(), Color::P0);
    assert_eq!(game.game_status(), GameStatus::Ongoing);
    assert_eq!(game.gen_moves(), vec![Take::One, Take::Two, Take::Three]);
}

#[test]
fn token_game_codes() {
    assert_eq!(TokenGame::decode_move(0), None);
    assert_eq!(TokenGame::decode_move(1), Some(Take::One));
    assert_eq!(TokenGame::decode_move(2), Some(Take::Two));
    assert_eq!(TokenGame::decode_move(3), Some(Take::Three));
    assert_eq!(TokenGame::decode_move(4), None);
    for m in [Take::One, Take::Two, Take::Three] {
        assert_eq!(TokenGame::decode_move(TokenGame::encode_move(m)), Some(m));
        assert_eq!(u64::from(m.count()), TokenGame::encode_move(m));
    }
}

#[test]
fn token_game_notation() {
    let game = TokenGame::new_game();
    assert_eq!(game.move_to_string(Take::Two), "take 2");
    assert_eq!(game.move_from_str("take 3"), Some(Take::Three));
    assert_eq!(game.move_from_str("take 4"), None);
    assert_eq!(game.move_from_str("take"), None);
}

#[test]
fn token_game_ends_in_a_win_or_a_draw() {
    let mut game = TokenGame::from_str("3b-").unwrap();
    assert!(game.is_valid_move(Take::Three));
    game.perform_move(Take::Three);
    assert_eq!(game, TokenGame { pile: 0, turn: Color::P2, status: GameStatus::Win(Color::P1) });
    assert_eq!(game.state_string(), "0cw");
    assert_eq!(game.gen_moves(), Vec::<Take>::new());
    assert!(!game.is_valid_move(Take::One));
    let mut game = TokenGame::from_str("1b-").unwrap();
    assert!(!game.is_valid_move(Take::Two));
    game.perform_move(Take::One);
    assert_eq!(game, TokenGame { pile: 0, turn: Color::P2, status: GameStatus::Draw });
    assert_eq!(game.state_string(), "0cd");
}

#[test]
fn token_game_limits_hold() {
    assert_eq!(TokenGame::max_position_string_size(), 3);
    assert_eq!(TokenGame::max_move_string_size(), 6);
    assert_eq!(TokenGame::max_display_string_size(), 13);
    for pile in 0u8..=9 {
        for turn in [Color::P0, Color::P1, Color::P2] {
            let game = TokenGame { pile, turn, status: GameStatus::Ongoing };
            assert_eq!(game.state_string().len(), 3);
            assert_eq!(game.display_string().len(), 13);
        }
    }
}

#[test]
fn token_game_rejects_what_is_no_position() {
    for text in ["", "9", "9a", "9a-x", "xa-", "9d-", "9a?", "0a-", "9aw", "9ad"] {
        assert_eq!(TokenGame::from_str(text), Err("malformed position".to_string()), "{text}");
    }
}

#[test]
fn table_fields() {
    assert_eq!(field_at(-1), None);
    assert_eq!(field_at(0), Some(Take::One));
    assert_eq!(field_at(99), Some(Take::One));
    assert_eq!(field_at(100), Some(Take::Two));
    assert_eq!(field_at(199), Some(Take::Two));
    assert_eq!(field_at(200), Some(Take::Three));
    assert_eq!(field_at(299), Some(Take::Three));
    assert_eq!(field_at(300), None);
    assert_eq!(field_at(i32::MAX), None);
    assert_eq!(field_at(i32::MIN), None);
}

#[test]
fn table_plays_and_takes_back() {
    let mut table = TokenTable::new();
    table.mouse_moved(120, 5);
    table.mouse_clicked(false);
    assert_eq!(table.picked, Some(Take::Two));
    table.mouse_released(false);
    assert_eq!(table.picked, None);
    assert_eq!(table.history_len(), 1);
    assert_eq!(table.history_code(0), 2);
    assert_eq!(table.board.state_string(), "7b-");
    assert_eq!(table.turn(), Color::P1);
    table.mouse_clicked(true);
    assert_eq!(table.history_len(), 3);
    assert_eq!(table.board.state_string(), "5a-");
    table.undo_move();
    assert_eq!(table.board.state_string(), "6c-");
    table.undo_move();
    table.undo_move();
    assert_eq!(table.board.state_string(), "9a-");
    assert_eq!(table.history_len(), 0);
}

#[test]
fn table_reset_and_set_board() {
    let mut table = TokenTable::new();
    table.mouse_clicked(true);
    table.set_board(TokenGame::from_str("2b-").unwrap());
    assert_eq!(table.history_len(), 2);
    assert_eq!(table.board.state_string(), "2b-");
    table.apply_move(Take::Two);
    assert_eq!(table.history_len(), 2);
    assert_eq!(table.board.state_string(), "0cw");
    table.reset();
    assert_eq!(table.history_len(), 0);
    assert_eq!(table.board, TokenGame::new_game());
}

#[test]
fn a_new_table_is_fresh() {
    let table = TokenTable::new();
    assert_eq!(table.board, TokenGame { pile: 9, turn: Color::P0, status: GameStatus::Ongoing });
    assert!(table.played.is_empty());
    assert_eq!(table.cursor, (0, 0));
    assert_eq!(table.picked, None);
    assert_eq!(table.history_len(), 0);
}
