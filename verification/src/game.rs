//! The game adapter: one game of the rules engine behind the host's
//! per-game methods.

use vstd::prelude::*;
use vstd::string::*;
use crate::engine::{GameStatus, MoveCode, RulesEngine, MAX_MOVES};
use crate::error::{Error, ErrorCode};
use crate::player::{
    player_from_id, player_to_id, spec_player_from_id, spec_player_to_id, valid_player_id, Color,
    PlayerId, PLAYER_COUNT,
};

verus! {

pub const GAME_NAME: &'static str = "ThreePlayerChess\0";

pub const VARIANT_NAME: &'static str = "Classic\0";

pub const IMPL_NAME: &'static str = "three_player_chess_cmrs\0";

/// Options of a game. There are none yet.
#[derive(Clone, Copy, Debug, PartialEq, Eq, Structural)]
pub struct GameOptions {}

/// Upper bounds that a game declares when it is created. Text bounds count
/// the characters and one terminator.
#[derive(Clone, Copy, Debug, PartialEq, Eq, Structural)]
pub struct BufSizer {
    pub options_str: usize,
    pub state_str: usize,
    pub player_count: u8,
    pub max_players_to_move: u8,
    pub max_moves: u32,
    pub max_results: u8,
    pub move_str: usize,
    pub print_str: usize,
}

/// What a game is created from.
#[derive(Debug)]
pub enum GameInit {
    /// The standard game.
    Default,
    /// Options, a legacy text and a position text, each of which may be absent.
    Standard { opts: Option<String>, legacy: Option<String>, state: Option<String> },
    /// A serialized game.
    Serialized(Vec<u8>),
}

/// A version number.
#[derive(Clone, Copy, Debug, PartialEq, Eq, Structural)]
pub struct SemVer {
    pub major: u32,
    pub minor: u32,
    pub patch: u32,
}

/// What the game tells the host about itself when it registers.
#[derive(Clone, Copy, Debug)]
pub struct Metadata {
    pub game_name: &'static str,
    pub variant_name: &'static str,
    pub impl_name: &'static str,
    pub version: SemVer,
    /// Whether the game takes options.
    pub options: bool,
    /// Whether the game can print its board.
    pub print: bool,
}

/// The game's description of itself: its three names without their
/// terminators, version 0.1.0, with options and printing.
pub fn three_player_chess() -> (r: Metadata)
    ensures
        r.game_name@ == "ThreePlayerChess"@,
        r.variant_name@ == "Classic"@,
        r.impl_name@ == "three_player_chess_cmrs"@,
        r.version == (SemVer { major: 0, minor: 1, patch: 0 }),
        r.options,
        r.print,
{
    Metadata {
        game_name: "ThreePlayerChess",
        variant_name: "Classic",
        impl_name: "three_player_chess_cmrs",
        version: SemVer { major: 0, minor: 1, patch: 0 },
        options: true,
        print: true,
    }
}

/// The bounds declared for texts of at most `state_limit`, `move_limit`
/// and `print_limit` characters.
pub open spec fn spec_bounds(state_limit: nat, move_limit: nat, print_limit: nat) -> BufSizer {
    BufSizer {
        options_str: 1,
        state_str: (state_limit + 1) as usize,
        player_count: 3,
        max_players_to_move: 1,
        max_moves: 1024,
        max_results: 1,
        move_str: (move_limit + 1) as usize,
        print_str: (print_limit + 1) as usize,
    }
}

/// The bounds that a game over the engine `E` declares.
pub open spec fn spec_sizer<E: RulesEngine>() -> BufSizer {
    spec_bounds(E::state_text_limit(), E::move_text_limit(), E::display_text_limit())
}

/// The error for which `init` is refused before any position is looked
/// at: a serialized game is not supported, and neither is a legacy text.
pub open spec fn spec_refusal(init: GameInit) -> Option<(ErrorCode, Seq<char>)> {
    match init {
        GameInit::Default => None,
        GameInit::Serialized(_) => Some(
            (ErrorCode::FeatureUnsupported, "serialized init info unsupported"@),
        ),
        GameInit::Standard { opts, legacy, state } => if legacy.is_some() {
            Some((ErrorCode::InvalidLegacy, "unexpected legacy"@))
        } else {
            None
        },
    }
}

/// The position text that `init` carries, if it carries one.
pub open spec fn spec_init_state(init: GameInit) -> Option<Seq<char>> {
    match init {
        GameInit::Standard { opts, legacy, state: Some(text) } => Some(text@),
        _ => None,
    }
}

/// What `create` makes of `init` over the engine `E`: the position of the
/// new game, or the kind and message of the error.
pub open spec fn spec_create<E: RulesEngine>(init: GameInit) -> Result<
    E::Position,
    (ErrorCode, Seq<char>),
> {
    match spec_refusal(init) {
        Some(refusal) => Err(refusal),
        None => match spec_init_state(init) {
            None => Ok(E::start()),
            Some(text) => match E::parse_state(text) {
                Ok(pos) => Ok(pos),
                Err(diagnostic) => Err((ErrorCode::InvalidState, diagnostic)),
            },
        },
    }
}

impl GameOptions {
    /// Reads options from their text. Every text is accepted.
    pub fn new(_options: &str) -> (r: Result<GameOptions, Error>)
        ensures
            r == Ok::<GameOptions, Error>(GameOptions {  }),
    {
        Ok(GameOptions {  })
    }

    /// The bounds that a game with these options declares, given the most
    /// characters that a position text, a move text and a printed board
    /// can have. One is added to each for the terminator.
    pub fn bounds(&self, state_limit: usize, move_limit: usize, print_limit: usize) -> (r:
        BufSizer)
        requires
            state_limit < usize::MAX,
            move_limit < usize::MAX,
            print_limit < usize::MAX,
        ensures
            r == spec_bounds(state_limit as nat, move_limit as nat, print_limit as nat),
            r.state_str == state_limit + 1,
            r.move_str == move_limit + 1,
            r.print_str == print_limit + 1,
    {
        BufSizer {
            options_str: 1,
            state_str: state_limit + 1,
            player_count: PLAYER_COUNT,
            max_players_to_move: 1,
            max_moves: MAX_MOVES,
            max_results: 1,
            move_str: move_limit + 1,
            print_str: print_limit + 1,
        }
    }

    /// The bounds that a game with these options declares over the engine `E`.
    pub fn sizer<E: RulesEngine>(&self) -> (r: BufSizer)
        ensures
            r == spec_sizer::<E>(),
            r.state_str == E::state_text_limit() + 1,
            r.move_str == E::move_text_limit() + 1,
            r.print_str == E::display_text_limit() + 1,
    {
        proof {
            E::limits_fit();
        }
        self.bounds(
            E::max_position_string_size(),
            E::max_move_string_size(),
            E::max_display_string_size(),
        )
    }
}

impl Default for GameOptions {
    fn default() -> (r: GameOptions)
        ensures
            r == (GameOptions {  }),
    {
        GameOptions {  }
    }
}

/// Reads from `init` what a game is to be made of: its options and, if
/// one is given, its position text. A serialized game and a legacy text
/// are refused.
pub fn resolve_init(init: &GameInit) -> (r: Result<(GameOptions, Option<&String>), Error>)
    ensures
        match r {
            Ok((options, state)) => {
                &&& spec_refusal(*init).is_none()
                &&& options == GameOptions {  }
                &&& match state {
                    Some(text) => spec_init_state(*init) == Some(text@),
                    None => spec_init_state(*init).is_none(),
                }
            },
            Err(e) => spec_refusal(*init) == Some((e.code, e.message@)),
        },
{
    let (options, state): (Option<&String>, Option<&String>) = match init {
        GameInit::Default => (None, None),
        GameInit::Standard { opts, legacy, state } => {
            if legacy.is_some() {
                return Err(Error::new(ErrorCode::InvalidLegacy, "unexpected legacy"));
            }
            (opts.as_ref(), state.as_ref())
        },
        GameInit::Serialized(_) => {
            return Err(
                Error::new(ErrorCode::FeatureUnsupported, "serialized init info unsupported"),
            );
        },
    };
    let options = match options {
        Some(text) => match GameOptions::new(text.as_str()) {
            Ok(o) => o,
            Err(e) => {
                return Err(e);
            },
        },
        None => GameOptions::default(),
    };
    Ok((options, state))
}

/// The error for a position text that the engine does not accept, with
/// the engine's diagnostic as its message.
pub fn state_failure(diagnostic: String) -> (r: Error)
    ensures
        r.says(ErrorCode::InvalidState, diagnostic@),
{
    Error::new_dynamic(ErrorCode::InvalidState, diagnostic)
}

/// The players to move when the game stands at `status` and it is the
/// turn of `turn`: that seat while the game goes on, nobody once it is over.
pub open spec fn spec_movers(status: GameStatus, turn: Color) -> Seq<PlayerId> {
    if status == GameStatus::Ongoing {
        seq![spec_player_to_id(turn)]
    } else {
        Seq::empty()
    }
}

/// The players to move when the game stands at `status` and it is the
/// turn of `turn`.
pub fn movers(status: GameStatus, turn: Color) -> (r: Vec<PlayerId>)
    ensures
        r@ == spec_movers(status, turn),
        r@.len() <= 1,
{
    let mut players: Vec<PlayerId> = Vec::new();
    match status {
        GameStatus::Ongoing => {
            players.push(player_to_id(turn));
        },
        _ => {},
    }
    assert(players@ =~= spec_movers(status, turn));
    players
}

/// The players that the result names when the game stands at `status`:
/// the winner of a won game, nobody while the game goes on or after a draw.
pub open spec fn spec_winners(status: GameStatus) -> Seq<PlayerId> {
    match status {
        GameStatus::Ongoing => Seq::empty(),
        GameStatus::Win(winner) => seq![spec_player_to_id(winner)],
        GameStatus::Draw => Seq::empty(),
    }
}

/// The players that the result names when the game stands at `status`.
pub fn winners(status: GameStatus) -> (r: Vec<PlayerId>)
    ensures
        r@ == spec_winners(status),
        r@.len() <= 1,
{
    let mut players: Vec<PlayerId> = Vec::new();
    match status {
        GameStatus::Ongoing => {},
        GameStatus::Win(winner) => {
            players.push(player_to_id(winner));
        },
        GameStatus::Draw => {},
    }
    assert(players@ =~= spec_winners(status));
    players
}

/// Whether moves are offered to `player` when it is the turn of `turn`.
pub fn has_turn(turn: Color, player: PlayerId) -> (r: bool)
    requires
        valid_player_id(player),
    ensures
        r == (spec_player_from_id(player) == turn),
{
    player_from_id(player) == turn
}

/// The message for a player who asks out of turn.
pub open spec fn not_your_turn() -> Seq<char> {
    "it is not currently this player's turn"@
}

/// The message for a move code that cannot be used.
pub open spec fn unusable_code() -> Seq<char> {
    "failed to parse move code"@
}

/// Judges a move that `player` wants to make when it is the turn of
/// `turn`. `found` tells what the engine made of the code: nothing if
/// the code stands for no move, else whether the move is legal.
///
/// The move passes if it is the player's turn and the move is legal. A
/// player out of turn is told so; any other failure is reported as a code
/// that cannot be used.
pub fn judge_move(turn: Color, player: PlayerId, found: Option<bool>) -> (r: Result<(), Error>)
    requires
        valid_player_id(player),
    ensures
        r is Ok <==> spec_player_from_id(player) == turn && found == Some(true),
        r matches Err(e) ==> e.says(
            ErrorCode::InvalidInput,
            if spec_player_from_id(player) != turn {
                not_your_turn()
            } else {
                unusable_code()
            },
        ),
{
    if turn != player_from_id(player) {
        return Err(Error::new(ErrorCode::InvalidInput, "it is not currently this player's turn"));
    }
    match found {
        Some(true) => Ok(()),
        _ => Err(Error::new(ErrorCode::InvalidInput, "failed to parse move code")),
    }
}

/// The message of the error for a move text that does not parse.
pub open spec fn parse_failure_message(text: Seq<char>) -> Seq<char> {
    "failed to parse move '"@ + text + "'"@
}

/// The error for a move text that does not parse, which names the text.
pub fn parse_failure(text: &str) -> (r: Error)
    ensures
        r.says(ErrorCode::InvalidInput, parse_failure_message(text@)),
{
    let mut message = String::from_str("failed to parse move '");
    message.append(text);
    message.append("'");
    Error::new_dynamic(ErrorCode::InvalidInput, message)
}

/// One game: its options and its position.
pub struct ThreePlayerChessGame<E: RulesEngine> {
    pub options: GameOptions,
    pub board: E,
}

impl<E: RulesEngine> ThreePlayerChessGame<E> {
    /// A game is well formed when its position is one that play can arrive at.
    pub open spec fn wf(&self) -> bool {
        E::reachable(self.board.position())
    }

    /// Creates a game and the bounds it declares.
    ///
    /// A serialized game and a legacy text are refused. Without a position
    /// text the game starts from the standard position; with one, the engine
    /// decodes it, and its diagnostic comes back when it does not decode.
    pub fn create(init: &GameInit) -> (r: Result<(Self, BufSizer), Error>)
        ensures
            match r {
                Ok((game, sizer)) => {
                    &&& spec_create::<E>(*init) == Ok::<E::Position, (ErrorCode, Seq<char>)>(
                        game.board.position(),
                    )
                    &&& game.options == GameOptions {  }
                    &&& sizer == spec_sizer::<E>()
                    &&& game.wf()
                },
                Err(e) => spec_create::<E>(*init) == Err::<E::Position, (ErrorCode, Seq<char>)>(
                    (e.code, e.message@),
                ),
            },
    {
        let (options, state) = match resolve_init(init) {
            Ok(pair) => pair,
            Err(e) => {
                return Err(e);
            },
        };
        let sizer = options.sizer::<E>();
        let board = match state {
            Some(text) => match E::from_str(text.as_str()) {
                Ok(b) => {
                    proof {
                        E::parsed_is_reachable(text@);
                    }
                    b
                },
                Err(diagnostic) => {
                    return Err(state_failure(diagnostic));
                },
            },
            None => {
                proof {
                    E::start_is_reachable();
                }
                E::new_game()
            },
        };
        Ok((ThreePlayerChessGame { options, board }, sizer))
    }
}

/// The players to move in `pos`: the seat whose turn it is while the game
/// goes on, nobody once it is over.
pub open spec fn spec_players_to_move<E: RulesEngine>(pos: E::Position) -> Seq<PlayerId> {
    spec_movers(E::status_of(pos), E::turn_of(pos))
}

/// The codes offered to `player` in `pos`: the legal moves for the seat
/// whose turn it is, nothing for the others.
pub open spec fn spec_concrete_moves<E: RulesEngine>(pos: E::Position, player: PlayerId) -> Seq<
    MoveCode,
> {
    if spec_player_from_id(player) == E::turn_of(pos) {
        E::legal_codes(pos)
    } else {
        Seq::empty()
    }
}

/// Whether `player` may make the move with code `code` in `pos`.
pub open spec fn spec_is_legal<E: RulesEngine>(
    pos: E::Position,
    player: PlayerId,
    code: MoveCode,
) -> bool {
    spec_player_from_id(player) == E::turn_of(pos) && E::legal_codes(pos).contains(code)
}

/// The players reported as the result of `pos`: the winner of a won game,
/// nobody while the game goes on or after a draw.
pub open spec fn spec_results<E: RulesEngine>(pos: E::Position) -> Seq<PlayerId> {
    spec_winners(E::status_of(pos))
}

impl<E: RulesEngine> ThreePlayerChessGame<E> {
    /// The options as text: empty, since there are none.
    pub fn export_options(&self) -> (r: String)
        ensures
            r@.len() == 0,
            r@.len() < spec_sizer::<E>().options_str,
    {
        String::new()
    }

    /// Takes over the position of `other`, a game with the same options.
    pub fn copy_from(&mut self, other: &Self)
        requires
            old(self).options == other.options,
        ensures
            final(self).board.position() == other.board.position(),
            final(self).options == old(self).options,
            other.wf() ==> final(self).wf(),
    {
        self.board = other.board.duplicate();
    }

    /// Replaces the position: by the standard start when `state` is absent,
    /// else by what the engine decodes from it. A text that does not decode
    /// leaves the game as it was and returns the engine's diagnostic.
    pub fn import_state(&mut self, state: Option<&str>) -> (r: Result<(), Error>)
        ensures
            final(self).options == old(self).options,
            match state {
                None => r.is_ok() && final(self).board.position() == E::start(),
                Some(text) => match E::parse_state(text@) {
                    Ok(pos) => r.is_ok() && final(self).board.position() == pos,
                    Err(diagnostic) => {
                        &&& r matches Err(e) && e.says(ErrorCode::InvalidState, diagnostic)
                        &&& *final(self) == *old(self)
                    },
                },
            },
            r.is_ok() ==> final(self).wf(),
    {
        match state {
            Some(text) => match E::from_str(text) {
                Ok(b) => {
                    proof {
                        E::parsed_is_reachable(text@);
                    }
                    self.board = b;
                    Ok(())
                },
                Err(diagnostic) => Err(state_failure(diagnostic)),
            },
            None => {
                proof {
                    E::start_is_reachable();
                }
                self.board = E::new_game();
                Ok(())
            },
        }
    }

    /// The position as text, within the declared bound.
    pub fn export_state(&self) -> (r: String)
        requires
            self.wf(),
        ensures
            r@ == E::state_text(self.board.position()),
            r@.len() < spec_sizer::<E>().state_str,
    {
        proof {
            E::limits_fit();
            E::reachable_within_limits(self.board.position());
        }
        self.board.state_string()
    }

    /// The players to move: the seat whose turn it is, or nobody when the
    /// game is over.
    pub fn players_to_move(&self) -> (r: Vec<PlayerId>)
        ensures
            r@ == spec_players_to_move::<E>(self.board.position()),
            r@.len() <= spec_sizer::<E>().max_players_to_move,
    {
        movers(self.board.game_status(), self.board.turn())
    }

    /// The codes of the moves that `player` may make: all legal moves when
    /// it is that player's turn, none otherwise.
    pub fn get_concrete_moves(&self, player: PlayerId) -> (r: Vec<MoveCode>)
        requires
            self.wf(),
            valid_player_id(player),
        ensures
            r@ == spec_concrete_moves::<E>(self.board.position(), player),
            r@.len() <= spec_sizer::<E>().max_moves,
    {
        let mut codes: Vec<MoveCode> = Vec::new();
        proof {
            E::reachable_within_limits(self.board.position());
        }
        if has_turn(self.board.turn(), player) {
            let moves = self.board.gen_moves();
            let mut i: usize = 0;
            while i < moves.len()
                invariant
                    i <= moves@.len(),
                    moves@.len() == E::legal_codes(self.board.position()).len(),
                    forall|j: int|
                        0 <= j < moves@.len() ==> E::code_of(#[trigger] moves@[j])
                            == E::legal_codes(self.board.position())[j],
                    codes@ == E::legal_codes(self.board.position()).take(i as int),
                decreases moves@.len() - i,
            {
                codes.push(E::encode_move(moves[i]));
                i = i + 1;
                assert(codes@ =~= E::legal_codes(self.board.position()).take(i as int));
            }
            assert(codes@ =~= E::legal_codes(self.board.position()));
        }
        codes
    }

    /// The code of the move that `string` names in the current position.
    /// The notation does not depend on who asks.
    pub fn get_move_code(&self, _player: PlayerId, string: &str) -> (r: Result<MoveCode, Error>)
        ensures
            match E::parse_move(self.board.position(), string@) {
                Some(code) => r == Ok::<MoveCode, Error>(code),
                None => r matches Err(e) && e.says(
                    ErrorCode::InvalidInput,
                    parse_failure_message(string@),
                ),
            },
    {
        match self.board.move_from_str(string) {
            Some(m) => Ok(E::encode_move(m)),
            None => Err(parse_failure(string)),
        }
    }

    /// The notation of the move with code `mov` in the current position.
    /// The code has to stand for a move.
    pub fn get_move_str(&self, _player: PlayerId, mov: MoveCode) -> (r: String)
        requires
            E::decodable(mov),
        ensures
            r@ == E::move_text(self.board.position(), mov),
            self.wf() && E::legal_codes(self.board.position()).contains(mov) ==> r@.len()
                < spec_sizer::<E>().move_str,
    {
        proof {
            E::limits_fit();
            if self.wf() {
                E::reachable_within_limits(self.board.position());
            }
        }
        match E::decode_move(mov) {
            Some(m) => self.board.move_to_string(m),
            // The code stands for a move, so this is never reached.
            None => String::new(),
        }
    }

    /// The notation of the move with code `mov` in the current position,
    /// or nothing if the code stands for no move.
    pub fn get_move_str_checked(&self, _player: PlayerId, mov: MoveCode) -> (r: Option<String>)
        ensures
            match r {
                Some(text) => E::decodable(mov) && text@ == E::move_text(
                    self.board.position(),
                    mov,
                ),
                None => !E::decodable(mov),
            },
    {
        match E::decode_move(mov) {
            Some(m) => Some(self.board.move_to_string(m)),
            None => None,
        }
    }

    /// Makes a move for the player whose turn it is. The move has to be
    /// legal: ask `is_legal_move` first.
    pub fn make_move(&mut self, player: PlayerId, mov: MoveCode)
        requires
            old(self).wf(),
            valid_player_id(player),
            spec_is_legal::<E>(old(self).board.position(), player, mov),
        ensures
            final(self).board.position() == E::after(old(self).board.position(), mov),
            final(self).options == old(self).options,
            final(self).wf(),
            E::turn_of(final(self).board.position()) != spec_player_from_id(player),
            !spec_players_to_move::<E>(final(self).board.position()).contains(player),
    {
        proof {
            E::legal_codes_are_decodable(self.board.position(), mov);
            E::legal_move_keeps_reachable(self.board.position(), mov);
            E::legal_move_passes_turn(self.board.position(), mov);
        }
        match E::decode_move(mov) {
            Some(m) => {
                self.board.perform_move(m);
            },
            // A legal move has a code that decodes, so this is never reached.
            None => {},
        }
    }

    /// The players that the result names: the winner, if there is one.
    pub fn get_results(&self) -> (r: Vec<PlayerId>)
        ensures
            r@ == spec_results::<E>(self.board.position()),
            r@.len() <= spec_sizer::<E>().max_results,
    {
        winners(self.board.game_status())
    }

    /// Whether `player` may make the move with code `mov` now. Refused are
    /// a player whose turn it is not, a code that stands for no move, and a
    /// move that is not legal in the position.
    pub fn is_legal_move(&self, player: PlayerId, mov: MoveCode) -> (r: Result<(), Error>)
        requires
            valid_player_id(player),
        ensures
            r is Ok <==> spec_is_legal::<E>(self.board.position(), player, mov),
            r is Ok ==> E::decodable(mov),
            r matches Err(e) ==> e.says(
                ErrorCode::InvalidInput,
                if spec_player_from_id(player) != E::turn_of(self.board.position()) {
                    not_your_turn()
                } else {
                    unusable_code()
                },
            ),
    {
        let turn = self.board.turn();
        let found = if has_turn(turn, player) {
            match E::decode_move(mov) {
                Some(m) => Some(self.board.is_valid_move(m)),
                None => {
                    proof {
                        if E::legal_codes(self.board.position()).contains(mov) {
                            E::legal_codes_are_decodable(self.board.position(), mov);
                        }
                    }
                    None
                },
            }
        } else {
            None
        };
        judge_move(turn, player, found)
    }

    /// The printed board, within the declared bound.
    pub fn print(&self) -> (r: String)
        requires
            self.wf(),
        ensures
            r@ == E::display_text(self.board.position()),
            r@.len() < spec_sizer::<E>().print_str,
    {
        proof {
            E::limits_fit();
            E::reachable_within_limits(self.board.position());
        }
        self.board.display_string()
    }
}

/// Exporting the position of a well-formed game and importing the text
/// again gives the same position: the text decodes, and to the position it
/// was written from.
pub proof fn lemma_state_round_trip<E: RulesEngine>(game: ThreePlayerChessGame<E>)
    requires
        game.wf(),
    ensures
        E::parse_state(E::state_text(game.board.position())) == Ok::<E::Position, Seq<char>>(
            game.board.position(),
        ),
{
    E::state_text_round_trip(game.board.position());
}

/// The notation written for a legal move reads back as the same move: in a
/// well-formed game, the text that `get_move_str` gives for a legal code is
/// one for which `get_move_code` gives that code.
pub proof fn lemma_move_round_trip<E: RulesEngine>(game: ThreePlayerChessGame<E>, code: MoveCode)
    requires
        game.wf(),
        E::legal_codes(game.board.position()).contains(code),
    ensures
        E::parse_move(game.board.position(), E::move_text(game.board.position(), code)) == Some(
            code,
        ),
{
    E::move_text_round_trip(game.board.position(), code);
}

/// A move is legal for a player exactly when its code is among the codes
/// offered to that player.
pub proof fn lemma_legal_iff_offered<E: RulesEngine>(
    game: ThreePlayerChessGame<E>,
    player: PlayerId,
    code: MoveCode,
)
    requires
        valid_player_id(player),
    ensures
        spec_is_legal::<E>(game.board.position(), player, code) <==> spec_concrete_moves::<E>(
            game.board.position(),
            player,
        ).contains(code),
{
}

/// After a legal move the players to move are the new mover alone, or
/// nobody when the game has ended; the player who moved is never among them.
pub proof fn lemma_turn_passes<E: RulesEngine>(
    game: ThreePlayerChessGame<E>,
    player: PlayerId,
    code: MoveCode,
)
    requires
        game.wf(),
        valid_player_id(player),
        spec_is_legal::<E>(game.board.position(), player, code),
    ensures
        ({
            let next = E::after(game.board.position(), code);
            &&& spec_players_to_move::<E>(next) == (if E::status_of(next) == GameStatus::Ongoing {
                seq![spec_player_to_id(E::turn_of(next))]
            } else {
                Seq::empty()
            })
            &&& !spec_players_to_move::<E>(next).contains(player)
        }),
{
    E::legal_move_passes_turn(game.board.position(), code);
}

} // verus!
