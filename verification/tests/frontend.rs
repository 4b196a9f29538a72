use tpc_adapter::engine::{GameStatus, RulesEngine};
use tpc_adapter::error::ErrorCode;
use tpc_adapter::frontend::{
    gesture_of, invalid_move, is_game_compatible, proposals_for, strip_nul, strip_nul_checked,
    three_player_chess_frontend, Event, GameInfo, Gesture, MirabelFrontend, MoveEvent,
    PointerEvent, RenderAction, BUTTON_LEFT, BUTTON_RIGHT, FRONTEND_NAME,
};
use tpc_adapter::game::{GameInit, SemVer};
use tpc_adapter::player::Color;
use tpc_adapter::surface::InteractionSurface;
use tpc_adapter::table::TokenTable;
use tpc_adapter::tokens::{Take, TokenGame};

type Frontend = MirabelFrontend<TokenTable>;

fn loaded(state: &str) -> Frontend {
    let mut fe = Frontend::create(None);
    fe.process_event(&Event::GameLoadMethods(GameInit::Standard {
        opts: None,
        legacy: None,
        state: Some(state.to_string()),
    }))
    .unwrap();
    fe
}

fn down(x: i32, button: u8) -> PointerEvent {
    PointerEvent::MouseButtonDown { x, y: 10, button }
}

fn up(x: i32, button: u8) -> PointerEvent {
    PointerEvent::MouseButtonUp { x, y: 10, button }
}

fn info(game: &str, imp: &str, variant: &str) -> GameInfo {
    GameInfo {
        game_name: game.to_string(),
        impl_name: imp.to_string(),
        variant_name: variant.to_string(),
    }
}

#[test]
fn a_new_frontend_is_disabled() {
    let fe = Frontend::create(None);
    assert!(fe.disabled);
    assert!(fe.outbox.is_empty());
    assert_eq!(fe.fe.board, TokenGame::new_game());
    assert_eq!(fe.fe.history_len(), 0);
    assert_eq!(fe.render(), RenderAction::Clear);
}

#[test]
fn load_enables_and_sets_the_board() {
    let mut fe = Frontend::create(None);
    fe.process_event(&Event::GameLoadMethods(GameInit::Default)).unwrap();
    assert!(!fe.disabled);
    assert_eq!(fe.fe.board, TokenGame::new_game());
    assert_eq!(fe.render(), RenderAction::Board);
    let fe = loaded("4c-");
    assert!(!fe.disabled);
    assert_eq!(fe.fe.board, TokenGame { pile: 4, turn: Color::P2, status: GameStatus::Ongoing });
    assert_eq!(fe.fe.history_len(), 0);
}

#[test]
fn load_that_fails_changes_nothing() {
    let mut fe = loaded("4c-");
    let err = fe
        .process_event(&Event::GameLoadMethods(GameInit::Serialized(Vec::new())))
        .err()
        .unwrap();
    assert_eq!(err.code, ErrorCode::FeatureUnsupported);
    assert_eq!(fe.fe.board.pile, 4);
    assert!(!fe.disabled);
    let mut fresh = Frontend::create(None);
    let err = fresh
        .process_event(&Event::GameLoadMethods(GameInit::Standard {
            opts: None,
            legacy: None,
            state: Some("bad".to_string()),
        }))
        .err()
        .unwrap();
    assert_eq!(err.code, ErrorCode::InvalidState);
    assert!(fresh.disabled);
}

#[test]
fn unload_disables_and_input_does_nothing() {
    let mut fe = loaded("5a-");
    fe.process_event(&Event::GameUnload).unwrap();
    assert!(fe.disabled);
    assert_eq!(fe.render(), RenderAction::Clear);
    for event in [down(150, BUTTON_LEFT), up(150, BUTTON_LEFT), down(0, BUTTON_RIGHT)] {
        fe.process_input(&event).unwrap();
        assert!(fe.outbox.is_empty());
        assert_eq!(fe.fe.board.pile, 5);
        assert_eq!(fe.fe.history_len(), 0);
        assert_eq!(fe.fe.cursor, (0, 0));
        assert_eq!(fe.fe.picked, None);
    }
}

#[test]
fn state_event_replaces_the_board() {
    let mut fe = loaded("5a-");
    fe.process_event(&Event::GameUnload).unwrap();
    fe.process_event(&Event::GameState(Some("2b-".to_string()))).unwrap();
    assert!(!fe.disabled);
    assert_eq!(fe.fe.board, TokenGame { pile: 2, turn: Color::P1, status: GameStatus::Ongoing });
}

#[test]
fn state_event_without_text_changes_nothing() {
    let mut fe = loaded("5a-");
    fe.process_event(&Event::GameUnload).unwrap();
    fe.process_event(&Event::GameState(None)).unwrap();
    assert!(fe.disabled);
    assert_eq!(fe.fe.board.pile, 5);
}

#[test]
fn malformed_state_event_is_an_error() {
    let mut fe = loaded("5a-");
    fe.process_event(&Event::GameUnload).unwrap();
    let err = fe.process_event(&Event::GameState(Some("5a".to_string()))).err().unwrap();
    assert_eq!(err.code, ErrorCode::InvalidState);
    assert_eq!(err.message, "malformed position");
    assert!(fe.disabled);
    assert_eq!(fe.fe.board.pile, 5);
}

#[test]
fn confirmed_move_advances_the_board() {
    let mut fe = loaded("5a-");
    fe.process_input(&down(250, BUTTON_LEFT)).unwrap();
    assert_eq!(fe.fe.picked, Some(Take::Three));
    fe.process_event(&Event::GameMove { player: 1, code: 2 }).unwrap();
    assert_eq!(fe.fe.board, TokenGame { pile: 3, turn: Color::P1, status: GameStatus::Ongoing });
    assert_eq!(fe.fe.history_len(), 0);
    assert_eq!(fe.fe.picked, None);
    assert!(fe.outbox.is_empty());
}

#[test]
fn confirmed_move_with_a_bad_code_is_an_error() {
    let mut fe = loaded("5a-");
    let err = fe.process_event(&Event::GameMove { player: 1, code: 0 }).err().unwrap();
    assert_eq!(err.code, ErrorCode::InvalidMove);
    assert_eq!(err.message, "invalid move code");
    assert_eq!(fe.fe.board.pile, 5);
    assert_eq!(invalid_move().code, ErrorCode::InvalidMove);
}

#[test]
fn other_events_are_ignored() {
    let mut fe = loaded("5a-");
    fe.process_event(&Event::Other).unwrap();
    assert!(!fe.disabled);
    assert_eq!(fe.fe.board.pile, 5);
    fe.update().unwrap();
    assert_eq!(fe.fe.board.pile, 5);
}

#[test]
fn a_completed_move_is_proposed_and_taken_back() {
    let mut fe = loaded("5a-");
    fe.process_input(&down(150, BUTTON_LEFT)).unwrap();
    assert!(fe.outbox.is_empty());
    fe.process_input(&up(150, BUTTON_LEFT)).unwrap();
    assert_eq!(fe.outbox, vec![MoveEvent { player: 1, code: 2 }]);
    assert_eq!(fe.fe.board, TokenGame { pile: 5, turn: Color::P0, status: GameStatus::Ongoing });
    assert_eq!(fe.fe.board.state_string(), "5a-");
    assert_eq!(fe.fe.history_len(), 0);
}

#[test]
fn two_completed_moves_are_proposed_for_following_seats() {
    let mut fe = loaded("5a-");
    fe.process_input(&down(0, BUTTON_RIGHT)).unwrap();
    assert_eq!(
        fe.outbox,
        vec![MoveEvent { player: 1, code: 1 }, MoveEvent { player: 2, code: 1 }]
    );
    assert_eq!(fe.fe.board.state_string(), "5a-");
    assert_eq!(fe.fe.history_len(), 0);
}

#[test]
fn movers_wrap_around_the_table() {
    let mut fe = loaded("5c-");
    fe.process_input(&down(0, BUTTON_RIGHT)).unwrap();
    assert_eq!(
        fe.outbox,
        vec![MoveEvent { player: 3, code: 1 }, MoveEvent { player: 1, code: 1 }]
    );
    assert_eq!(fe.fe.board.state_string(), "5c-");
}

#[test]
fn a_gesture_that_ends_the_game_is_taken_back_too() {
    let mut fe = loaded("1b-");
    fe.process_input(&down(0, BUTTON_RIGHT)).unwrap();
    assert_eq!(fe.outbox, vec![MoveEvent { player: 2, code: 1 }]);
    assert_eq!(fe.fe.board.state_string(), "1b-");
    assert_eq!(fe.fe.history_len(), 0);
}

#[test]
fn proposals_add_to_the_outbox_until_drained() {
    let mut fe = loaded("9a-");
    fe.process_input(&down(0, BUTTON_RIGHT)).unwrap();
    fe.process_input(&down(250, BUTTON_LEFT)).unwrap();
    fe.process_input(&up(250, BUTTON_LEFT)).unwrap();
    assert_eq!(
        fe.outbox,
        vec![
            MoveEvent { player: 1, code: 1 },
            MoveEvent { player: 2, code: 1 },
            MoveEvent { player: 1, code: 3 },
        ]
    );
    let drained = fe.drain_outbox();
    assert_eq!(drained.len(), 3);
    assert!(fe.outbox.is_empty());
    assert_eq!(fe.fe.board.state_string(), "9a-");
}

#[test]
fn gestures_that_complete_nothing_propose_nothing() {
    let mut fe = loaded("2a-");
    fe.process_input(&PointerEvent::MouseMotion { x: 50, y: 7 }).unwrap();
    assert_eq!(fe.fe.cursor, (50, 7));
    fe.process_input(&down(250, BUTTON_LEFT)).unwrap();
    fe.process_input(&up(250, BUTTON_LEFT)).unwrap();
    fe.process_input(&down(50, BUTTON_LEFT)).unwrap();
    fe.process_input(&up(150, BUTTON_LEFT)).unwrap();
    fe.process_input(&down(50, 2)).unwrap();
    fe.process_input(&up(50, 2)).unwrap();
    fe.process_input(&up(50, BUTTON_RIGHT)).unwrap();
    fe.process_input(&PointerEvent::Other).unwrap();
    assert!(fe.outbox.is_empty());
    assert_eq!(fe.fe.board.state_string(), "2a-");
    assert_eq!(fe.fe.history_len(), 0);
}

#[test]
fn pointer_events_become_gestures() {
    assert_eq!(gesture_of(&PointerEvent::MouseMotion { x: 1, y: 2 }), Gesture::Move { x: 1, y: 2 });
    assert_eq!(
        gesture_of(&PointerEvent::MouseButtonDown { x: 1, y: 2, button: 1 }),
        Gesture::Press { x: 1, y: 2, secondary: false }
    );
    assert_eq!(
        gesture_of(&PointerEvent::MouseButtonDown { x: 1, y: 2, button: 3 }),
        Gesture::Press { x: 1, y: 2, secondary: true }
    );
    assert_eq!(
        gesture_of(&PointerEvent::MouseButtonDown { x: 1, y: 2, button: 2 }),
        Gesture::Move { x: 1, y: 2 }
    );
    assert_eq!(
        gesture_of(&PointerEvent::MouseButtonUp { x: -1, y: 2, button: 1 }),
        Gesture::Release { x: -1, y: 2, secondary: false }
    );
    assert_eq!(
        gesture_of(&PointerEvent::MouseButtonUp { x: 1, y: 2, button: 3 }),
        Gesture::Release { x: 1, y: 2, secondary: true }
    );
    assert_eq!(
        gesture_of(&PointerEvent::MouseButtonUp { x: 1, y: 2, button: 0 }),
        Gesture::Move { x: 1, y: 2 }
    );
    assert_eq!(gesture_of(&PointerEvent::Other), Gesture::Ignore);
    assert_eq!(BUTTON_LEFT, 1);
    assert_eq!(BUTTON_RIGHT, 3);
}

#[test]
fn proposals_on_plain_values() {
    assert_eq!(proposals_for(Color::P1, &Vec::new()), Vec::<MoveEvent>::new());
    assert_eq!(
        proposals_for(Color::P1, &vec![40, 41, 42, 43]),
        vec![
            MoveEvent { player: 2, code: 40 },
            MoveEvent { player: 3, code: 41 },
            MoveEvent { player: 1, code: 42 },
            MoveEvent { player: 2, code: 43 },
        ]
    );
}

#[test]
fn report_and_rollback_from_the_middle_of_the_history() {
    let mut fe = loaded("9a-");
    assert!(fe.fe.play(Take::Two));
    assert!(fe.fe.play(Take::One));
    assert!(fe.fe.play(Take::Three));
    assert_eq!(fe.codes_since(1), vec![1u64, 3]);
    assert_eq!(fe.codes_since(3), Vec::<u64>::new());
    fe.report_and_rollback(1, Color::P1);
    assert_eq!(
        fe.outbox,
        vec![MoveEvent { player: 2, code: 1 }, MoveEvent { player: 3, code: 3 }]
    );
    assert_eq!(fe.fe.history_len(), 1);
    assert_eq!(fe.fe.board.state_string(), "7b-");
}

#[test]
fn only_this_game_is_compatible() {
    assert_eq!(
        is_game_compatible(&info("ThreePlayerChess", "three_player_chess_cmrs", "Classic")),
        Ok(())
    );
    for other in [
        info("Chess", "three_player_chess_cmrs", "Classic"),
        info("ThreePlayerChess", "other", "Classic"),
        info("ThreePlayerChess", "three_player_chess_cmrs", "Blitz"),
        info("ThreePlayerChess\0", "three_player_chess_cmrs\0", "Classic\0"),
        info("", "", ""),
    ] {
        assert_eq!(is_game_compatible(&other), Err(ErrorCode::FeatureUnsupported));
    }
}

#[test]
fn strip_nul_drops_the_terminator() {
    assert_eq!(strip_nul("abc\0"), "abc");
    assert_eq!(strip_nul("\0"), "");
    assert_eq!(strip_nul("a\0\0"), "a\0");
    assert_eq!(strip_nul("gr\u{fc}n\0"), "gr\u{fc}n");
    assert_eq!(strip_nul_checked("abc\0"), Some("abc"));
    assert_eq!(strip_nul_checked("abc"), None);
    assert_eq!(strip_nul_checked(""), None);
}

#[test]
fn the_frontend_describes_itself() {
    let meta = three_player_chess_frontend();
    assert_eq!(meta.frontend_name, "three_player_chess_frontend");
    assert_eq!(meta.frontend_name, strip_nul(FRONTEND_NAME));
    assert_eq!(meta.version, SemVer { major: 0, minor: 1, patch: 0 });
}
