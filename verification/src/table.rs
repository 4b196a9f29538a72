//! A pointer surface for the game of tokens, which meets the contract of
//! [`InteractionSurface`].
//!
//! The table shows three fields side by side, each a hundred units wide:
//! one for taking one token, one for two and one for three. Pressing the
//! primary button on a field picks it; releasing the button on the same
//! field plays the move if it is legal. Pressing the secondary button
//! takes one token for the seat to move and one for the next seat, as far
//! as that is legal.

use vstd::prelude::*;
use crate::engine::RulesEngine;
use crate::player::Color;
use crate::surface::{gesture_step, lemma_gesture_step_trans, InteractionSurface, Played};
use crate::tokens::{Take, TokenGame};

verus! {

/// Width of a field.
pub const FIELD_WIDTH: i32 = 100;

/// The table: the working board, what was played on it, where the pointer
/// is, and the field that is picked.
pub struct TokenTable {
    pub board: TokenGame,
    pub played: Vec<(Take, TokenGame)>,
    pub cursor: (i32, i32),
    pub picked: Option<Take>,
}

/// The state of a table, as the contracts speak of it.
pub struct TableState {
    pub board: TokenGame,
    pub played: Seq<(Take, TokenGame)>,
    pub cursor: (i32, i32),
    pub picked: Option<Take>,
}

/// The history that a list of moves and positions stands for.
pub open spec fn played_history(played: Seq<(Take, TokenGame)>) -> Seq<Played<TokenGame>> {
    Seq::new(played.len(), |i: int| Played { code: played[i].0.code(), before: played[i].1 })
}

/// The field at the place `x`, if there is one.
pub open spec fn spec_field_at(x: i32) -> Option<Take> {
    if 0 <= x < 100 {
        Some(Take::One)
    } else if 100 <= x < 200 {
        Some(Take::Two)
    } else if 200 <= x < 300 {
        Some(Take::Three)
    } else {
        None
    }
}

/// The field at the place `x`, if there is one.
pub fn field_at(x: i32) -> (r: Option<Take>)
    ensures
        r == spec_field_at(x),
{
    if x < 0 {
        None
    } else if x < FIELD_WIDTH {
        Some(Take::One)
    } else if x < 2 * FIELD_WIDTH {
        Some(Take::Two)
    } else if x < 3 * FIELD_WIDTH {
        Some(Take::Three)
    } else {
        None
    }
}

/// The state of a fresh table: the game at its start, nothing played, the
/// pointer at the origin and no field picked.
pub open spec fn fresh_table() -> TableState {
    TableState {
        board: TokenGame::start(),
        played: Seq::empty(),
        cursor: (0, 0),
        picked: None,
    }
}

/// The state after `m` was offered to the table: played and recorded if
/// it is legal, nothing otherwise.
pub open spec fn table_play(state: TableState, m: Take) -> TableState {
    if TokenGame::legal_codes(state.board).contains(m.code()) {
        TableState {
            board: TokenGame::after(state.board, m.code()),
            played: state.played.push((m, state.board)),
            ..state
        }
    } else {
        state
    }
}

/// The state after a button went down. The primary button picks the field
/// under the pointer. The secondary button picks nothing and takes one
/// token, and if that was legal, one more.
pub open spec fn table_clicked(state: TableState, secondary: bool) -> TableState {
    if secondary {
        let cleared = TableState { picked: None, ..state };
        if TokenGame::legal_codes(cleared.board).contains(Take::One.code()) {
            table_play(table_play(cleared, Take::One), Take::One)
        } else {
            cleared
        }
    } else {
        TableState { picked: spec_field_at(state.cursor.0), ..state }
    }
}

/// The state after a button went up. The primary button plays the picked
/// field if the pointer is still on it, and picks nothing. The secondary
/// button does nothing.
pub open spec fn table_released(state: TableState, secondary: bool) -> TableState {
    if secondary {
        state
    } else {
        let cleared = TableState { picked: None, ..state };
        match (state.picked, spec_field_at(state.cursor.0)) {
            (Some(a), Some(b)) => if a == b {
                table_play(cleared, a)
            } else {
                cleared
            },
            _ => cleared,
        }
    }
}

impl TokenTable {
    /// Plays `m` on the working board and records it, if it is legal.
    /// Returns whether it was played.
    pub fn play(&mut self, m: Take) -> (r: bool)
        ensures
            r == TokenGame::legal_codes(old(self).board).contains(m.code()),
            final(self).state() == table_play(old(self).state(), m),
            gesture_step::<TokenGame>(
                Self::position_of(old(self).state()),
                Self::history_of(old(self).state()),
                Self::position_of(final(self).state()),
                Self::history_of(final(self).state()),
            ),
    {
        let ghost before = Self::history_of(self.state());
        assert(before.take(before.len() as int) =~= before);
        if self.board.is_valid_move(m) {
            self.played.push((m, self.board));
            self.board.perform_move(m);
            assert(Self::history_of(self.state()).take(before.len() as int) =~= before);
            true
        } else {
            false
        }
    }
}

impl InteractionSurface for TokenTable {
    type Engine = TokenGame;

    type State = TableState;

    open spec fn state(&self) -> TableState {
        TableState {
            board: self.board,
            played: self.played@,
            cursor: self.cursor,
            picked: self.picked,
        }
    }

    open spec fn position_of(state: TableState) -> TokenGame {
        state.board
    }

    open spec fn history_of(state: TableState) -> Seq<Played<TokenGame>> {
        played_history(state.played)
    }

    open spec fn effects_of(state: TableState) -> bool {
        state.picked.is_some()
    }

    open spec fn moved(state: TableState, x: i32, y: i32) -> TableState {
        TableState { cursor: (x, y), ..state }
    }

    open spec fn clicked(state: TableState, secondary: bool) -> TableState {
        table_clicked(state, secondary)
    }

    open spec fn released(state: TableState, secondary: bool) -> TableState {
        table_released(state, secondary)
    }

    /// A fresh table: the game at its start, nothing played, the pointer
    /// at the origin and no field picked.
    fn new() -> (r: TokenTable)
        ensures
            r.state() == fresh_table(),
    {
        TokenTable {
            board: TokenGame::new_game(),
            played: Vec::new(),
            cursor: (0, 0),
            picked: None,
        }
    }

    fn reset(&mut self) {
        self.board = TokenGame::new_game();
        self.played = Vec::new();
        self.cursor = (0, 0);
        self.picked = None;
    }

    fn set_board(&mut self, board: TokenGame) {
        self.board = board;
    }

    fn turn(&self) -> (r: Color) {
        self.board.turn
    }

    fn apply_move(&mut self, m: Take) {
        self.board.perform_move(m);
    }

    fn reset_effects(&mut self) {
        self.picked = None;
    }

    fn mouse_moved(&mut self, x: i32, y: i32) {
        self.cursor = (x, y);
        let ghost kept = Self::history_of(self.state());
        assert(kept.take(kept.len() as int) =~= kept);
    }

    fn mouse_clicked(&mut self, secondary: bool) {
        let ghost pos_a = Self::position_of(self.state());
        let ghost hist_a = Self::history_of(self.state());
        assert(hist_a.take(hist_a.len() as int) =~= hist_a);
        if secondary {
            self.picked = None;
            if self.play(Take::One) {
                let ghost pos_b = Self::position_of(self.state());
                let ghost hist_b = Self::history_of(self.state());
                self.play(Take::One);
                proof {
                    lemma_gesture_step_trans::<TokenGame>(
                        pos_a,
                        hist_a,
                        pos_b,
                        hist_b,
                        Self::position_of(self.state()),
                        Self::history_of(self.state()),
                    );
                }
            }
        } else {
            self.picked = field_at(self.cursor.0);
        }
    }

    fn mouse_released(&mut self, secondary: bool) {
        let ghost hist_a = Self::history_of(self.state());
        assert(hist_a.take(hist_a.len() as int) =~= hist_a);
        if !secondary {
            let picked = self.picked;
            self.picked = None;
            match (picked, field_at(self.cursor.0)) {
                (Some(a), Some(b)) => {
                    if a == b {
                        self.play(a);
                    }
                },
                _ => {},
            }
        }
    }

    fn history_len(&self) -> (r: usize) {
        self.played.len()
    }

    fn history_code(&self, i: usize) -> (r: u64) {
        TokenGame::encode_move(self.played[i].0)
    }

    fn undo_move(&mut self) {
        let ghost before = Self::history_of(self.state());
        let last = self.played.pop();
        match last {
            Some((_, board)) => {
                self.board = board;
            },
            None => {},
        }
        assert(Self::history_of(self.state()) =~= before.drop_last());
    }
}

} // verus!
