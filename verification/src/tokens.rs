//! A game of tokens for three: a small rules engine that meets the
//! contract of [`RulesEngine`]. It shows that the contract can be met, and
//! with it the adapters can be run without a chess engine.
//!
//! Nine tokens lie in a pile. The seats take one, two or three of them in
//! turn. Whoever takes the last token together with another wins; if the
//! last token is taken alone, the game is drawn.

use vstd::prelude::*;
use vstd::string::*;
use crate::engine::{GameStatus, MoveCode, RulesEngine};
use crate::player::Color;

verus! {

/// Tokens in the pile at the start.
pub const PILE: u8 = 9;

/// A position: the pile, the seat to move, and how the game stands.
#[derive(Clone, Copy, Debug, PartialEq, Eq, Structural)]
pub struct TokenGame {
    pub pile: u8,
    pub turn: Color,
    pub status: GameStatus,
}

/// A move: how many tokens are taken.
#[derive(Clone, Copy, Debug, PartialEq, Eq, Structural)]
pub enum Take {
    One,
    Two,
    Three,
}

/// The character for a number of tokens.
pub open spec fn digit(n: int) -> char {
    if n == 0 {
        '0'
    } else if n == 1 {
        '1'
    } else if n == 2 {
        '2'
    } else if n == 3 {
        '3'
    } else if n == 4 {
        '4'
    } else if n == 5 {
        '5'
    } else if n == 6 {
        '6'
    } else if n == 7 {
        '7'
    } else if n == 8 {
        '8'
    } else {
        '9'
    }
}

/// The letter for a seat.
pub open spec fn seat_letter(seat: Color) -> char {
    match seat {
        Color::P0 => 'a',
        Color::P1 => 'b',
        Color::P2 => 'c',
    }
}

/// The mark for how the game stands.
pub open spec fn status_mark(status: GameStatus) -> char {
    match status {
        GameStatus::Ongoing => '-',
        GameStatus::Win(_) => 'w',
        GameStatus::Draw => 'd',
    }
}

/// The seat that moved before `seat`.
pub open spec fn previous(seat: Color) -> Color {
    match seat {
        Color::P0 => Color::P2,
        Color::P1 => Color::P0,
        Color::P2 => Color::P1,
    }
}

/// The diagnostic for a position text that does not decode.
pub open spec fn malformed() -> Seq<char> {
    "malformed position"@
}

/// Positions of the game: at most nine tokens, the game over exactly when
/// none is left, and a winner who moved last.
pub open spec fn token_reachable(pos: TokenGame) -> bool {
    &&& pos.pile <= 9
    &&& match pos.status {
        GameStatus::Ongoing => pos.pile > 0,
        GameStatus::Win(winner) => pos.pile == 0 && winner == previous(pos.turn),
        GameStatus::Draw => pos.pile == 0,
    }
}

/// The position text: the number of tokens, the letter of the seat to
/// move, and the mark for how the game stands.
pub open spec fn token_state_text(pos: TokenGame) -> Seq<char> {
    seq![digit(pos.pile as int), seat_letter(pos.turn), status_mark(pos.status)]
}

/// What a position text decodes to.
pub open spec fn token_parse_state(text: Seq<char>) -> Result<TokenGame, Seq<char>> {
    if exists|pos: TokenGame| token_reachable(pos) && #[trigger] token_state_text(pos) == text {
        Ok(choose|pos: TokenGame| token_reachable(pos) && #[trigger] token_state_text(pos) == text)
    } else {
        Err(malformed())
    }
}

/// The number of tokens that a code takes.
pub open spec fn take_of(pos: TokenGame, code: MoveCode) -> int {
    if code <= pos.pile {
        code as int
    } else {
        pos.pile as int
    }
}

/// The position after a move.
pub open spec fn token_after(pos: TokenGame, code: MoveCode) -> TokenGame {
    let pile = (pos.pile - take_of(pos, code)) as u8;
    TokenGame {
        pile,
        turn: pos.turn.spec_next(),
        status: if pile > 0 {
            GameStatus::Ongoing
        } else if code == 1 {
            GameStatus::Draw
        } else {
            GameStatus::Win(pos.turn)
        },
    }
}

/// The codes of the legal moves: one to three tokens, as far as the pile
/// goes, while the game is going on.
pub open spec fn token_legal_codes(pos: TokenGame) -> Seq<MoveCode> {
    if pos.status == GameStatus::Ongoing {
        Seq::new(
            if pos.pile < 3 {
                pos.pile as nat
            } else {
                3
            },
            |i: int| (i + 1) as u64,
        )
    } else {
        Seq::empty()
    }
}

/// The notation of a move.
pub open spec fn token_move_text(code: MoveCode) -> Seq<char> {
    if code == 1 {
        "take 1"@
    } else if code == 2 {
        "take 2"@
    } else {
        "take 3"@
    }
}

/// What a move text names.
pub open spec fn token_parse_move(text: Seq<char>) -> Option<MoveCode> {
    if text == "take 1"@ {
        Some(1u64)
    } else if text == "take 2"@ {
        Some(2u64)
    } else if text == "take 3"@ {
        Some(3u64)
    } else {
        None
    }
}

/// The printed board.
pub open spec fn token_display_text(pos: TokenGame) -> Seq<char> {
    "pile "@ + seq![digit(pos.pile as int)] + " turn "@ + seq![seat_letter(pos.turn)]
}

impl Take {
    /// The code of the move.
    pub open spec fn code(self) -> MoveCode {
        match self {
            Take::One => 1,
            Take::Two => 2,
            Take::Three => 3,
        }
    }
}

/// The number that a character stands for, if it is a digit.
fn digit_of(c: char) -> (r: Option<u8>)
    ensures
        match r {
            Some(n) => n <= 9 && digit(n as int) == c,
            None => forall|n: int| digit(n) != c,
        },
{
    if c == '0' {
        Some(0)
    } else if c == '1' {
        Some(1)
    } else if c == '2' {
        Some(2)
    } else if c == '3' {
        Some(3)
    } else if c == '4' {
        Some(4)
    } else if c == '5' {
        Some(5)
    } else if c == '6' {
        Some(6)
    } else if c == '7' {
        Some(7)
    } else if c == '8' {
        Some(8)
    } else if c == '9' {
        Some(9)
    } else {
        None
    }
}

/// The seat that a letter stands for, if it stands for one.
fn seat_of(c: char) -> (r: Option<Color>)
    ensures
        match r {
            Some(seat) => seat_letter(seat) == c,
            None => forall|seat: Color| seat_letter(seat) != c,
        },
{
    if c == 'a' {
        Some(Color::P0)
    } else if c == 'b' {
        Some(Color::P1)
    } else if c == 'c' {
        Some(Color::P2)
    } else {
        None
    }
}

/// The seat that moved before `seat`.
fn seat_before(seat: Color) -> (r: Color)
    ensures
        r == previous(seat),
{
    match seat {
        Color::P0 => Color::P2,
        Color::P1 => Color::P0,
        Color::P2 => Color::P1,
    }
}

/// A number of tokens as text.
fn digit_str(n: u8) -> (r: &'static str)
    requires
        n <= 9,
    ensures
        r@ == seq![digit(n as int)],
{
    proof {
        reveal_strlit("0");
        reveal_strlit("1");
        reveal_strlit("2");
        reveal_strlit("3");
        reveal_strlit("4");
        reveal_strlit("5");
        reveal_strlit("6");
        reveal_strlit("7");
        reveal_strlit("8");
        reveal_strlit("9");
    }
    let r = if n == 0 {
        "0"
    } else if n == 1 {
        "1"
    } else if n == 2 {
        "2"
    } else if n == 3 {
        "3"
    } else if n == 4 {
        "4"
    } else if n == 5 {
        "5"
    } else if n == 6 {
        "6"
    } else if n == 7 {
        "7"
    } else if n == 8 {
        "8"
    } else {
        "9"
    };
    assert(r@ =~= seq![digit(n as int)]);
    r
}

/// A seat as text.
fn seat_str(seat: Color) -> (r: &'static str)
    ensures
        r@ == seq![seat_letter(seat)],
{
    proof {
        reveal_strlit("a");
        reveal_strlit("b");
        reveal_strlit("c");
    }
    let r = match seat {
        Color::P0 => "a",
        Color::P1 => "b",
        Color::P2 => "c",
    };
    assert(r@ =~= seq![seat_letter(seat)]);
    r
}

/// The mark of a status as text.
fn mark_str(status: GameStatus) -> (r: &'static str)
    ensures
        r@ == seq![status_mark(status)],
{
    proof {
        reveal_strlit("-");
        reveal_strlit("w");
        reveal_strlit("d");
    }
    let r = match status {
        GameStatus::Ongoing => "-",
        GameStatus::Win(_) => "w",
        GameStatus::Draw => "d",
    };
    assert(r@ =~= seq![status_mark(status)]);
    r
}

/// Two reachable positions with the same text are the same position.
pub proof fn lemma_state_text_injective(a: TokenGame, b: TokenGame)
    requires
        token_reachable(a),
        token_reachable(b),
        token_state_text(a) == token_state_text(b),
    ensures
        a == b,
{
    assert(token_state_text(a)[0] == token_state_text(b)[0]);
    assert(token_state_text(a)[1] == token_state_text(b)[1]);
    assert(token_state_text(a)[2] == token_state_text(b)[2]);
}

/// The text of a reachable position decodes to that position.
pub proof fn lemma_parse_of_text(pos: TokenGame)
    requires
        token_reachable(pos),
    ensures
        token_parse_state(token_state_text(pos)) == Ok::<TokenGame, Seq<char>>(pos),
{
    let text = token_state_text(pos);
    let found = choose|p: TokenGame| token_reachable(p) && #[trigger] token_state_text(p) == text;
    lemma_state_text_injective(found, pos);
}

/// The three move texts differ from each other.
pub proof fn lemma_move_texts_differ()
    ensures
        "take 1"@ != "take 2"@,
        "take 1"@ != "take 3"@,
        "take 2"@ != "take 3"@,
        "take 1"@.len() == 6,
        "take 2"@.len() == 6,
        "take 3"@.len() == 6,
{
    reveal_strlit("take 1");
    reveal_strlit("take 2");
    reveal_strlit("take 3");
    assert("take 1"@[5] == '1');
    assert("take 2"@[5] == '2');
    assert("take 3"@[5] == '3');
}

impl TokenGame {
    /// Whether the position is one of the game.
    fn is_reachable(&self) -> (r: bool)
        ensures
            r == token_reachable(*self),
    {
        self.pile <= 9 && match self.status {
            GameStatus::Ongoing => self.pile > 0,
            GameStatus::Win(winner) => self.pile == 0 && winner == seat_before(self.turn),
            GameStatus::Draw => self.pile == 0,
        }
    }
}

impl Take {
    /// How many tokens the move takes.
    pub fn count(self) -> (r: u8)
        ensures
            r == self.code(),
            1 <= r <= 3,
    {
        match self {
            Take::One => 1,
            Take::Two => 2,
            Take::Three => 3,
        }
    }
}

/// Decodes a position text: three characters that give a position of the
/// game, or nothing.
fn parse_position(text: &str) -> (r: Option<TokenGame>)
    ensures
        match r {
            Some(pos) => token_parse_state(text@) == Ok::<TokenGame, Seq<char>>(pos),
            None => token_parse_state(text@) == Err::<TokenGame, Seq<char>>(malformed()),
        },
{
    if text.unicode_len() != 3 {
        return None;
    }
    let pile = match digit_of(text.get_char(0)) {
        Some(n) => n,
        None => {
            return None;
        },
    };
    let turn = match seat_of(text.get_char(1)) {
        Some(seat) => seat,
        None => {
            return None;
        },
    };
    let mark = text.get_char(2);
    let status = if mark == '-' {
        GameStatus::Ongoing
    } else if mark == 'w' {
        GameStatus::Win(seat_before(turn))
    } else if mark == 'd' {
        GameStatus::Draw
    } else {
        assert forall|pos: TokenGame| token_state_text(pos) != text@ by {
            if token_state_text(pos) == text@ {
                assert(token_state_text(pos)[2] == text@[2]);
            }
        }
        return None;
    };
    let pos = TokenGame { pile, turn, status };
    if pos.is_reachable() {
        assert(token_state_text(pos) =~= text@);
        proof {
            lemma_parse_of_text(pos);
        }
        Some(pos)
    } else {
        assert forall|other: TokenGame| token_reachable(other) implies token_state_text(other)
            != text@ by {
            if token_state_text(other) == text@ {
                assert(token_state_text(other)[0] == text@[0]);
                assert(token_state_text(other)[1] == text@[1]);
                assert(token_state_text(other)[2] == text@[2]);
            }
        }
        None
    }
}

impl RulesEngine for TokenGame {
    type Move = Take;

    type Position = TokenGame;

    open spec fn position(&self) -> TokenGame {
        *self
    }

    open spec fn turn_of(pos: TokenGame) -> Color {
        pos.turn
    }

    open spec fn status_of(pos: TokenGame) -> GameStatus {
        pos.status
    }

    open spec fn start() -> TokenGame {
        TokenGame { pile: 9, turn: Color::P0, status: GameStatus::Ongoing }
    }

    open spec fn reachable(pos: TokenGame) -> bool {
        token_reachable(pos)
    }

    open spec fn parse_state(text: Seq<char>) -> Result<TokenGame, Seq<char>> {
        token_parse_state(text)
    }

    open spec fn state_text(pos: TokenGame) -> Seq<char> {
        token_state_text(pos)
    }

    open spec fn display_text(pos: TokenGame) -> Seq<char> {
        token_display_text(pos)
    }

    open spec fn code_of(m: Take) -> MoveCode {
        m.code()
    }

    open spec fn decodable(code: MoveCode) -> bool {
        1 <= code <= 3
    }

    open spec fn legal_codes(pos: TokenGame) -> Seq<MoveCode> {
        token_legal_codes(pos)
    }

    open spec fn after(pos: TokenGame, code: MoveCode) -> TokenGame {
        token_after(pos, code)
    }

    open spec fn parse_move(pos: TokenGame, text: Seq<char>) -> Option<MoveCode> {
        token_parse_move(text)
    }

    open spec fn move_text(pos: TokenGame, code: MoveCode) -> Seq<char> {
        token_move_text(code)
    }

    open spec fn state_text_limit() -> nat {
        3
    }

    open spec fn move_text_limit() -> nat {
        6
    }

    open spec fn display_text_limit() -> nat {
        13
    }

    proof fn start_is_reachable() {
    }

    proof fn parsed_is_reachable(text: Seq<char>) {
    }

    proof fn legal_move_keeps_reachable(pos: TokenGame, code: MoveCode) {
        let i = choose|i: int|
            0 <= i < token_legal_codes(pos).len() && token_legal_codes(pos)[i] == code;
        assert(code == i + 1);
    }

    proof fn state_text_round_trip(pos: TokenGame) {
        lemma_parse_of_text(pos);
    }

    proof fn legal_codes_are_decodable(pos: TokenGame, code: MoveCode) {
        let i = choose|i: int|
            0 <= i < token_legal_codes(pos).len() && token_legal_codes(pos)[i] == code;
        assert(code == i + 1);
    }

    proof fn move_text_round_trip(pos: TokenGame, code: MoveCode) {
        let i = choose|i: int|
            0 <= i < token_legal_codes(pos).len() && token_legal_codes(pos)[i] == code;
        assert(code == i + 1);
        lemma_move_texts_differ();
    }

    proof fn reachable_within_limits(pos: TokenGame) {
        reveal_strlit("pile ");
        reveal_strlit(" turn ");
        lemma_move_texts_differ();
    }

    proof fn limits_fit() {
    }

    proof fn legal_move_passes_turn(pos: TokenGame, code: MoveCode) {
    }

    fn new_game() -> (r: TokenGame) {
        TokenGame { pile: PILE, turn: Color::P0, status: GameStatus::Ongoing }
    }

    fn from_str(text: &str) -> (r: Result<TokenGame, String>) {
        let found = parse_position(text);
        match found {
            Some(pos) => Ok(pos),
            None => Err(String::from_str("malformed position")),
        }
    }

    fn duplicate(&self) -> (r: TokenGame) {
        *self
    }

    fn turn(&self) -> (r: Color) {
        self.turn
    }

    fn game_status(&self) -> (r: GameStatus) {
        self.status
    }

    fn state_string(&self) -> (r: String) {
        let mut text = String::from_str(digit_str(if self.pile <= 9 {
            self.pile
        } else {
            9
        }));
        text.append(seat_str(self.turn));
        text.append(mark_str(self.status));
        assert(text@ =~= token_state_text(*self));
        text
    }

    fn display_string(&self) -> (r: String) {
        let mut text = String::from_str("pile ");
        text.append(digit_str(if self.pile <= 9 {
            self.pile
        } else {
            9
        }));
        text.append(" turn ");
        text.append(seat_str(self.turn));
        text
    }

    fn gen_moves(&self) -> (r: Vec<Take>) {
        let mut moves: Vec<Take> = Vec::new();
        if self.status == GameStatus::Ongoing {
            if self.pile >= 1 {
                moves.push(Take::One);
            }
            if self.pile >= 2 {
                moves.push(Take::Two);
            }
            if self.pile >= 3 {
                moves.push(Take::Three);
            }
        }
        moves
    }

    fn is_valid_move(&self, m: Take) -> (r: bool) {
        let count: u8 = m.count();
        let r = self.status == GameStatus::Ongoing && count <= self.pile;
        proof {
            let codes = token_legal_codes(*self);
            if r {
                assert(codes[count - 1] == m.code());
            } else if codes.contains(m.code()) {
                let i = choose|i: int| 0 <= i < codes.len() && codes[i] == m.code();
                assert(m.code() == i + 1);
            }
        }
        r
    }

    fn perform_move(&mut self, m: Take) {
        let count: u8 = m.count();
        let taken: u8 = if count <= self.pile {
            count
        } else {
            self.pile
        };
        let mover = self.turn;
        self.pile = self.pile - taken;
        self.turn = mover.next();
        self.status = if self.pile > 0 {
            GameStatus::Ongoing
        } else if count == 1 {
            GameStatus::Draw
        } else {
            GameStatus::Win(mover)
        };
    }

    fn decode_move(code: MoveCode) -> (r: Option<Take>) {
        if code == 1 {
            Some(Take::One)
        } else if code == 2 {
            Some(Take::Two)
        } else if code == 3 {
            Some(Take::Three)
        } else {
            None
        }
    }

    fn encode_move(m: Take) -> (r: MoveCode) {
        match m {
            Take::One => 1,
            Take::Two => 2,
            Take::Three => 3,
        }
    }

    fn move_from_str(&self, text: &str) -> (r: Option<Take>) {
        let given = String::from_str(text);
        if given == String::from_str("take 1") {
            Some(Take::One)
        } else if given == String::from_str("take 2") {
            Some(Take::Two)
        } else if given == String::from_str("take 3") {
            Some(Take::Three)
        } else {
            None
        }
    }

    fn move_to_string(&self, m: Take) -> (r: String) {
        match m {
            Take::One => String::from_str("take 1"),
            Take::Two => String::from_str("take 2"),
            Take::Three => String::from_str("take 3"),
        }
    }

    fn max_position_string_size() -> (r: usize) {
        3
    }

    fn max_move_string_size() -> (r: usize) {
        6
    }

    fn max_display_string_size() -> (r: usize) {
        13
    }
}

} // verus!
