//! The capability that the adapters need from a rules engine.
//!
//! The adapters never look at chess rules. They read whose turn it is and
//! how the game stands, and they hand moves and position texts to the
//! engine. What they rely on is written down here as the contract of
//! [`RulesEngine`].

use vstd::prelude::*;
use crate::player::Color;

verus! {

/// Code by which the host names a move.
pub type MoveCode = u64;

/// The most moves an engine may offer in one position.
pub const MAX_MOVES: u32 = 1024;

/// How a game stands. Why a game ended is the engine's business: nothing
/// here depends on it, and it is not kept.
#[derive(Clone, Copy, Debug, PartialEq, Eq, Structural)]
pub enum GameStatus {
    /// The game goes on.
    Ongoing,
    /// The game is over and this seat has won.
    Win(Color),
    /// The game is over and nobody has won.
    Draw,
}

/// A rules engine: one value is one position.
///
/// The contracts speak of an engine value by its position. Two values with
/// the same position are interchangeable. The spec functions say what the
/// engine's operations compute; the proof functions are the laws that an
/// engine has to prove of them before the adapters accept it.
pub trait RulesEngine: Sized {
    /// The engine's own form of a move.
    type Move: Copy;

    /// A position, as the contracts speak of it.
    type Position;

    /// The position that an engine value holds.
    spec fn position(&self) -> Self::Position;

    /// The seat to move in `pos`.
    spec fn turn_of(pos: Self::Position) -> Color;

    /// How the game stands in `pos`.
    spec fn status_of(pos: Self::Position) -> GameStatus;

    /// The standard starting position.
    spec fn start() -> Self::Position;

    /// Positions that play can arrive at or that a position text describes.
    spec fn reachable(pos: Self::Position) -> bool;

    /// What the decoder makes of a position text: the position, or the
    /// engine's diagnostic.
    spec fn parse_state(text: Seq<char>) -> Result<Self::Position, Seq<char>>;

    /// The position text of `pos`.
    spec fn state_text(pos: Self::Position) -> Seq<char>;

    /// The printed board of `pos`.
    spec fn display_text(pos: Self::Position) -> Seq<char>;

    /// The code of a move.
    spec fn code_of(m: Self::Move) -> MoveCode;

    /// Whether `code` is the code of some move.
    spec fn decodable(code: MoveCode) -> bool;

    /// The codes of the moves that are legal in `pos`, in the order in
    /// which the engine generates them.
    spec fn legal_codes(pos: Self::Position) -> Seq<MoveCode>;

    /// The position after the move with code `code` was made in `pos`.
    spec fn after(pos: Self::Position, code: MoveCode) -> Self::Position;

    /// What the notation parser makes of `text` in `pos`: the code of the
    /// move it names, if it names one.
    spec fn parse_move(pos: Self::Position, text: Seq<char>) -> Option<MoveCode>;

    /// The notation of the move with code `code` in `pos`.
    spec fn move_text(pos: Self::Position, code: MoveCode) -> Seq<char>;

    /// Longest position text, in characters.
    spec fn state_text_limit() -> nat;

    /// Longest move notation, in characters.
    spec fn move_text_limit() -> nat;

    /// Longest printed board, in characters.
    spec fn display_text_limit() -> nat;

    /// The starting position is reachable.
    proof fn start_is_reachable()
        ensures
            Self::reachable(Self::start()),
    ;

    /// Every position that the decoder accepts is reachable.
    proof fn parsed_is_reachable(text: Seq<char>)
        requires
            Self::parse_state(text) is Ok,
        ensures
            Self::reachable(Self::parse_state(text)->Ok_0),
    ;

    /// A legal move leads from a reachable position to a reachable one.
    proof fn legal_move_keeps_reachable(pos: Self::Position, code: MoveCode)
        requires
            Self::reachable(pos),
            Self::legal_codes(pos).contains(code),
        ensures
            Self::reachable(Self::after(pos, code)),
    ;

    /// The position text of a reachable position decodes to that position.
    proof fn state_text_round_trip(pos: Self::Position)
        requires
            Self::reachable(pos),
        ensures
            Self::parse_state(Self::state_text(pos)) == Ok::<Self::Position, Seq<char>>(pos),
    ;

    /// Every legal move has a code that decodes.
    proof fn legal_codes_are_decodable(pos: Self::Position, code: MoveCode)
        requires
            Self::legal_codes(pos).contains(code),
        ensures
            Self::decodable(code),
    ;

    /// The notation of a legal move parses back to that move.
    proof fn move_text_round_trip(pos: Self::Position, code: MoveCode)
        requires
            Self::reachable(pos),
            Self::legal_codes(pos).contains(code),
        ensures
            Self::parse_move(pos, Self::move_text(pos, code)) == Some(code),
    ;

    /// In a reachable position the texts and the number of legal moves
    /// stay within the limits.
    proof fn reachable_within_limits(pos: Self::Position)
        requires
            Self::reachable(pos),
        ensures
            Self::state_text(pos).len() <= Self::state_text_limit(),
            Self::display_text(pos).len() <= Self::display_text_limit(),
            Self::legal_codes(pos).len() <= MAX_MOVES,
            forall|c: MoveCode| #[trigger]
                Self::legal_codes(pos).contains(c) ==> Self::move_text(pos, c).len()
                    <= Self::move_text_limit(),
    ;

    /// Each limit leaves room for a terminator in a machine word.
    proof fn limits_fit()
        ensures
            Self::state_text_limit() < usize::MAX,
            Self::move_text_limit() < usize::MAX,
            Self::display_text_limit() < usize::MAX,
    ;

    /// After a legal move the seat that made it is not the one to move.
    proof fn legal_move_passes_turn(pos: Self::Position, code: MoveCode)
        requires
            Self::reachable(pos),
            Self::legal_codes(pos).contains(code),
        ensures
            Self::turn_of(Self::after(pos, code)) != Self::turn_of(pos),
    ;

    /// The standard starting position.
    fn new_game() -> (r: Self)
        ensures
            r.position() == Self::start(),
    ;

    /// Decodes a position text.
    fn from_str(text: &str) -> (r: Result<Self, String>)
        ensures
            match r {
                Ok(b) => Self::parse_state(text@) == Ok::<Self::Position, Seq<char>>(b.position()),
                Err(e) => Self::parse_state(text@) == Err::<Self::Position, Seq<char>>(e@),
            },
    ;

    /// A copy of the position.
    fn duplicate(&self) -> (r: Self)
        ensures
            r.position() == self.position(),
    ;

    /// The seat to move.
    fn turn(&self) -> (r: Color)
        ensures
            r == Self::turn_of(self.position()),
    ;

    /// How the game stands.
    fn game_status(&self) -> (r: GameStatus)
        ensures
            r == Self::status_of(self.position()),
    ;

    /// The position text.
    fn state_string(&self) -> (r: String)
        ensures
            r@ == Self::state_text(self.position()),
    ;

    /// The printed board.
    fn display_string(&self) -> (r: String)
        ensures
            r@ == Self::display_text(self.position()),
    ;

    /// The legal moves, in the engine's order.
    fn gen_moves(&self) -> (r: Vec<Self::Move>)
        ensures
            r@.len() == Self::legal_codes(self.position()).len(),
            forall|i: int|
                0 <= i < r@.len() ==> Self::code_of(#[trigger] r@[i]) == Self::legal_codes(
                    self.position(),
                )[i],
    ;

    /// Whether `m` is legal in this position.
    fn is_valid_move(&self, m: Self::Move) -> (r: bool)
        ensures
            r == Self::legal_codes(self.position()).contains(Self::code_of(m)),
    ;

    /// Makes the move `m`.
    fn perform_move(&mut self, m: Self::Move)
        ensures
            final(self).position() == Self::after(old(self).position(), Self::code_of(m)),
    ;

    /// The move that `code` stands for, if it stands for one.
    fn decode_move(code: MoveCode) -> (r: Option<Self::Move>)
        ensures
            r.is_some() == Self::decodable(code),
            r matches Some(m) ==> Self::code_of(m) == code,
    ;

    /// The code of `m`.
    fn encode_move(m: Self::Move) -> (r: MoveCode)
        ensures
            r == Self::code_of(m),
    ;

    /// Reads a move in notation.
    fn move_from_str(&self, text: &str) -> (r: Option<Self::Move>)
        ensures
            match r {
                Some(m) => Self::parse_move(self.position(), text@) == Some(Self::code_of(m)),
                None => Self::parse_move(self.position(), text@).is_none(),
            },
    ;

    /// Writes a move in notation.
    fn move_to_string(&self, m: Self::Move) -> (r: String)
        ensures
            r@ == Self::move_text(self.position(), Self::code_of(m)),
    ;

    /// Longest position text, in characters.
    fn max_position_string_size() -> (r: usize)
        ensures
            r == Self::state_text_limit(),
    ;

    /// Longest move notation, in characters.
    fn max_move_string_size() -> (r: usize)
        ensures
            r == Self::move_text_limit(),
    ;

    /// Longest printed board, in characters.
    fn max_display_string_size() -> (r: usize)
        ensures
            r == Self::display_text_limit(),
    ;
}

} // verus!
