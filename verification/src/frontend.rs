//! The interaction adapter: a working copy of the board on which a user
//! plays moves by pointer, and which advances for good only when the host
//! confirms a move.

use vstd::prelude::*;
use vstd::string::*;
use crate::engine::{MoveCode, RulesEngine};
use crate::error::{Error, ErrorCode};
use crate::game::{
    spec_create, state_failure, GameInit, SemVer, ThreePlayerChessGame, GAME_NAME, IMPL_NAME,
    VARIANT_NAME,
};
use crate::player::{player_to_id, spec_player_from_id, spec_player_to_id, Color, PlayerId};
use crate::surface::{gesture_step, lemma_gesture_step_trans, InteractionSurface, Played};

verus! {

pub const FRONTEND_NAME: &'static str = "three_player_chess_frontend\0";

/// Index of the primary pointer button.
pub const BUTTON_LEFT: u8 = 1;

/// Index of the secondary pointer button.
pub const BUTTON_RIGHT: u8 = 3;

/// A move that the adapter proposes to the host: who made it, and its code.
#[derive(Clone, Copy, Debug, PartialEq, Eq, Structural)]
pub struct MoveEvent {
    pub player: PlayerId,
    pub code: MoveCode,
}

/// What the host tells the adapter.
#[derive(Debug)]
pub enum Event {
    /// A game was loaded, created from this.
    GameLoadMethods(GameInit),
    /// The game was unloaded.
    GameUnload,
    /// The position was set anew; without a text nothing changes.
    GameState(Option<String>),
    /// The host confirmed a move.
    GameMove { player: PlayerId, code: MoveCode },
    /// Any other event.
    Other,
}

/// What the pointer did.
#[derive(Clone, Copy, Debug, PartialEq, Eq, Structural)]
pub enum PointerEvent {
    MouseMotion { x: i32, y: i32 },
    MouseButtonDown { x: i32, y: i32, button: u8 },
    MouseButtonUp { x: i32, y: i32, button: u8 },
    Other,
}

/// What there is to draw.
#[derive(Clone, Copy, Debug, PartialEq, Eq, Structural)]
pub enum RenderAction {
    /// Only the cleared background.
    Clear,
    /// The board.
    Board,
}

/// What a pointer event asks of the surface.
#[derive(Clone, Copy, Debug, PartialEq, Eq, Structural)]
pub enum Gesture {
    /// Nothing.
    Ignore,
    /// The pointer went to a place.
    Move { x: i32, y: i32 },
    /// The pointer went to a place and a button went down there.
    Press { x: i32, y: i32, secondary: bool },
    /// The pointer went to a place and a button went up there.
    Release { x: i32, y: i32, secondary: bool },
}

/// What the frontend tells the host about itself when it registers.
#[derive(Clone, Copy, Debug)]
pub struct FrontendMetadata {
    pub frontend_name: &'static str,
    pub version: SemVer,
}

/// The game that a frontend is asked about.
#[derive(Debug)]
pub struct GameInfo {
    pub game_name: String,
    pub impl_name: String,
    pub variant_name: String,
}

/// The interaction adapter's state.
pub struct MirabelFrontend<S: InteractionSurface> {
    /// The engine's pointer surface with the working board.
    pub fe: S,
    /// Set while no game is loaded.
    pub disabled: bool,
    /// Moves proposed to the host and not yet collected by it.
    pub outbox: Vec<MoveEvent>,
}

/// The proposals for moves with the codes `codes`, made one after another
/// from the turn of `turn` on: the mover of each is the seat reached after
/// as many turns as moves came before it.
pub open spec fn proposals(turn: Color, codes: Seq<MoveCode>) -> Seq<MoveEvent> {
    Seq::new(
        codes.len(),
        |i: int| MoveEvent { player: spec_player_to_id(turn.advance(i as nat)), code: codes[i] },
    )
}

/// What `event` asks of the surface. A motion moves the pointer. A
/// button event moves the pointer and, for the primary or the secondary
/// button, presses or releases it; for any other button it only moves the
/// pointer. Every other event asks nothing.
pub open spec fn spec_gesture_of(event: PointerEvent) -> Gesture {
    match event {
        PointerEvent::MouseMotion { x, y } => Gesture::Move { x, y },
        PointerEvent::MouseButtonDown { x, y, button } => if button == BUTTON_LEFT {
            Gesture::Press { x, y, secondary: false }
        } else if button == BUTTON_RIGHT {
            Gesture::Press { x, y, secondary: true }
        } else {
            Gesture::Move { x, y }
        },
        PointerEvent::MouseButtonUp { x, y, button } => if button == BUTTON_LEFT {
            Gesture::Release { x, y, secondary: false }
        } else if button == BUTTON_RIGHT {
            Gesture::Release { x, y, secondary: true }
        } else {
            Gesture::Move { x, y }
        },
        PointerEvent::Other => Gesture::Ignore,
    }
}

/// What `event` asks of the surface.
pub fn gesture_of(event: &PointerEvent) -> (r: Gesture)
    ensures
        r == spec_gesture_of(*event),
{
    match *event {
        PointerEvent::MouseMotion { x, y } => Gesture::Move { x, y },
        PointerEvent::MouseButtonDown { x, y, button } => {
            if button == BUTTON_LEFT {
                Gesture::Press { x, y, secondary: false }
            } else if button == BUTTON_RIGHT {
                Gesture::Press { x, y, secondary: true }
            } else {
                Gesture::Move { x, y }
            }
        },
        PointerEvent::MouseButtonUp { x, y, button } => {
            if button == BUTTON_LEFT {
                Gesture::Release { x, y, secondary: false }
            } else if button == BUTTON_RIGHT {
                Gesture::Release { x, y, secondary: true }
            } else {
                Gesture::Move { x, y }
            }
        },
        PointerEvent::Other => Gesture::Ignore,
    }
}

/// The proposals for moves with the codes `codes`, made one after another
/// from the turn of `turn` on.
pub fn proposals_for(turn: Color, codes: &Vec<MoveCode>) -> (r: Vec<MoveEvent>)
    ensures
        r@ == proposals(turn, codes@),
{
    let mut events: Vec<MoveEvent> = Vec::new();
    let mut current_turn: Color = turn;
    let mut i: usize = 0;
    while i < codes.len()
        invariant
            i <= codes@.len(),
            current_turn == turn.advance(i as nat),
            events@ == proposals(turn, codes@.take(i as int)),
        decreases codes@.len() - i,
    {
        events.push(MoveEvent { player: player_to_id(current_turn), code: codes[i] });
        i = i + 1;
        current_turn = current_turn.next();
        assert(events@ =~= proposals(turn, codes@.take(i as int)));
    }
    assert(codes@.take(i as int) =~= codes@);
    events
}

/// What there is to draw: only the background while the frontend is
/// disabled, else the board.
pub fn render_action(disabled: bool) -> (r: RenderAction)
    ensures
        r == (if disabled {
            RenderAction::Clear
        } else {
            RenderAction::Board
        }),
{
    if disabled {
        RenderAction::Clear
    } else {
        RenderAction::Board
    }
}

/// The error for a confirmed move whose code stands for no move.
pub fn invalid_move() -> (r: Error)
    ensures
        r.says(ErrorCode::InvalidMove, "invalid move code"@),
{
    Error::new(ErrorCode::InvalidMove, "invalid move code")
}

/// The frontend's description of itself: its name without the
/// terminator, and version 0.1.0.
pub fn three_player_chess_frontend() -> (r: FrontendMetadata)
    ensures
        r.frontend_name@ == "three_player_chess_frontend"@,
        r.version == (SemVer { major: 0, minor: 1, patch: 0 }),
{
    FrontendMetadata {
        frontend_name: "three_player_chess_frontend",
        version: SemVer { major: 0, minor: 1, patch: 0 },
    }
}

/// Neighbouring proposals are for neighbouring seats: each is made for
/// the seat that follows the one before, and the first for `turn`.
pub proof fn lemma_proposals_alternate(turn: Color, codes: Seq<MoveCode>, i: int)
    requires
        0 <= i < codes.len(),
    ensures
        proposals(turn, codes).len() == codes.len(),
        proposals(turn, codes)[i].code == codes[i],
        proposals(turn, codes)[i].player == spec_player_to_id(turn.advance(i as nat)),
        i == 0 ==> proposals(turn, codes)[i].player == spec_player_to_id(turn),
        i > 0 ==> proposals(turn, codes)[i].player == spec_player_to_id(
            spec_player_from_id(proposals(turn, codes)[i - 1].player).spec_next(),
        ),
{
}

/// The state of a surface after the gesture `gesture` was handed to it:
/// the pointer goes to its place first, then the button is pressed or
/// released.
pub open spec fn spec_forward<S: InteractionSurface>(
    state: S::State,
    gesture: Gesture,
) -> S::State {
    match gesture {
        Gesture::Ignore => state,
        Gesture::Move { x, y } => S::moved(state, x, y),
        Gesture::Press { x, y, secondary } => S::clicked(S::moved(state, x, y), secondary),
        Gesture::Release { x, y, secondary } => S::released(S::moved(state, x, y), secondary),
    }
}

/// The codes of the moves that the gesture `gesture` completes on a
/// surface in the state `state`: those of the entries that the history
/// gains, in order.
pub open spec fn spec_completed<S: InteractionSurface>(state: S::State, gesture: Gesture) -> Seq<
    MoveCode,
> {
    codes_from(
        S::history_of(spec_forward::<S>(state, gesture)),
        S::history_of(state).len() as int,
    )
}

/// The codes of the entries of `history` from index `from` on.
pub open spec fn codes_from<P>(history: Seq<Played<P>>, from: int) -> Seq<MoveCode> {
    Seq::new((history.len() - from) as nat, |i: int| history[from + i].code)
}

/// A text without its final NUL.
pub open spec fn spec_strip_nul(s: Seq<char>) -> Seq<char> {
    s.drop_last()
}

/// Strips the final NUL from `s`, which has to end in one.
pub fn strip_nul(s: &str) -> (r: &str)
    requires
        s@.len() > 0,
        s@.last() == '\0',
    ensures
        r@ == spec_strip_nul(s@),
        s@ == r@.push('\0'),
{
    let n: usize = s.unicode_len();
    let r = s.substring_char(0, n - 1);
    assert(s@ =~= r@.push('\0'));
    r
}

/// Strips the final NUL from `s` if it ends in one.
pub fn strip_nul_checked(s: &str) -> (r: Option<&str>)
    ensures
        match r {
            Some(t) => s@ == t@.push('\0'),
            None => s@.len() == 0 || s@.last() != '\0',
        },
{
    let n: usize = s.unicode_len();
    if n > 0 && s.get_char(n - 1) == '\0' {
        Some(strip_nul(s))
    } else {
        None
    }
}

/// Whether `a` and `b` are the same text.
fn same_text(a: &str, b: &str) -> (r: bool)
    ensures
        r == (a@ == b@),
{
    String::from_str(a) == String::from_str(b)
}

/// Whether `game` is the game that this frontend is made for: its name,
/// its implementation and its variant are the ones this crate declares.
pub open spec fn spec_compatible(game: GameInfo) -> bool {
    &&& game.game_name@ == "ThreePlayerChess"@
    &&& game.impl_name@ == "three_player_chess_cmrs"@
    &&& game.variant_name@ == "Classic"@
}

/// Accepts the game that this frontend is made for and refuses every other
/// as unsupported.
pub fn is_game_compatible(game: &GameInfo) -> (r: Result<(), ErrorCode>)
    ensures
        r == (if spec_compatible(*game) {
            Ok::<(), ErrorCode>(())
        } else {
            Err::<(), ErrorCode>(ErrorCode::FeatureUnsupported)
        }),
{
    proof {
        reveal_strlit("ThreePlayerChess\0");
        reveal_strlit("ThreePlayerChess");
        reveal_strlit("three_player_chess_cmrs\0");
        reveal_strlit("three_player_chess_cmrs");
        reveal_strlit("Classic\0");
        reveal_strlit("Classic");
    }
    let game_name = strip_nul(GAME_NAME);
    let impl_name = strip_nul(IMPL_NAME);
    let variant_name = strip_nul(VARIANT_NAME);
    assert(game_name@ =~= "ThreePlayerChess"@);
    assert(impl_name@ =~= "three_player_chess_cmrs"@);
    assert(variant_name@ =~= "Classic"@);
    if same_text(game.game_name.as_str(), game_name) && same_text(
        game.impl_name.as_str(),
        impl_name,
    ) && same_text(game.variant_name.as_str(), variant_name) {
        Ok(())
    } else {
        Err(ErrorCode::FeatureUnsupported)
    }
}

impl<S: InteractionSurface> MirabelFrontend<S> {
    /// The position on the working board.
    pub open spec fn position(&self) -> <S::Engine as RulesEngine>::Position {
        S::position_of(self.fe.state())
    }

    /// The moves that gestures played on the working board and that were
    /// not taken back, oldest first.
    pub open spec fn history(&self) -> Seq<Played<<S::Engine as RulesEngine>::Position>> {
        S::history_of(self.fe.state())
    }

    /// Whether the surface shows anything for a move in progress.
    pub open spec fn has_effects(&self) -> bool {
        S::effects_of(self.fe.state())
    }

    /// A frontend with no game loaded: disabled, with a fresh surface and
    /// nothing proposed. There are no options to take.
    pub fn create(_options: Option<&()>) -> (r: Self)
        ensures
            r.disabled,
            r.outbox@.len() == 0,
            r.history().len() == 0,
            !r.has_effects(),
    {
        MirabelFrontend { fe: S::new(), disabled: true, outbox: Vec::new() }
    }

    /// Takes in what the host tells.
    ///
    /// A loaded game puts its position on a fresh surface and enables the
    /// frontend. An unload disables it. A new position text replaces the
    /// position and enables the frontend. A confirmed move is made on the
    /// working board. Anything else changes nothing. When an error is
    /// returned, nothing has changed.
    pub fn process_event(&mut self, event: &Event) -> (r: Result<(), Error>)
        ensures
            final(self).outbox@ == old(self).outbox@,
            r is Err ==> *final(self) == *old(self),
            match *event {
                Event::GameLoadMethods(init) => match spec_create::<S::Engine>(init) {
                    Ok(pos) => {
                        &&& r is Ok
                        &&& final(self).position() == pos
                        &&& final(self).history().len() == 0
                        &&& !final(self).has_effects()
                        &&& !final(self).disabled
                    },
                    Err((code, message)) => r matches Err(e) && e.says(code, message),
                },
                Event::GameUnload => {
                    &&& r is Ok
                    &&& final(self).disabled
                    &&& final(self).fe == old(self).fe
                },
                Event::GameState(None) => r is Ok && *final(self) == *old(self),
                Event::GameState(Some(text)) => match S::Engine::parse_state(text@) {
                    Ok(pos) => {
                        &&& r is Ok
                        &&& final(self).position() == pos
                        &&& final(self).history() == old(self).history()
                        &&& !final(self).disabled
                    },
                    Err(diagnostic) => r matches Err(e) && e.says(
                        ErrorCode::InvalidState,
                        diagnostic,
                    ),
                },
                Event::GameMove { player, code } => if S::Engine::decodable(code) {
                    &&& r is Ok
                    &&& final(self).position() == S::Engine::after(old(self).position(), code)
                    &&& final(self).history() == old(self).history()
                    &&& !final(self).has_effects()
                    &&& final(self).disabled == old(self).disabled
                } else {
                    r matches Err(e) && e.says(ErrorCode::InvalidMove, "invalid move code"@)
                },
                Event::Other => r is Ok && *final(self) == *old(self),
            },
    {
        match event {
            Event::GameLoadMethods(init) => {
                let game = match ThreePlayerChessGame::<S::Engine>::create(init) {
                    Ok((game, _)) => game,
                    Err(e) => {
                        return Err(e);
                    },
                };
                self.fe.reset();
                self.fe.set_board(game.board);
                self.disabled = false;
            },
            Event::GameUnload => {
                self.disabled = true;
            },
            Event::GameState(state) => {
                if let Some(text) = state {
                    match S::Engine::from_str(text.as_str()) {
                        Ok(board) => {
                            self.fe.set_board(board);
                            self.disabled = false;
                        },
                        Err(diagnostic) => {
                            return Err(state_failure(diagnostic));
                        },
                    }
                }
            },
            Event::GameMove { player: _, code } => {
                match S::Engine::decode_move(*code) {
                    Some(m) => {
                        self.fe.apply_move(m);
                        self.fe.reset_effects();
                    },
                    None => {
                        return Err(invalid_move());
                    },
                }
            },
            Event::Other => {},
        }
        Ok(())
    }

    /// Hands a pointer event to the surface: the pointer's place first,
    /// then, for the primary or secondary button, the press or release.
    /// Other events are not handed on.
    pub fn forward(&mut self, event: &PointerEvent)
        ensures
            final(self).disabled == old(self).disabled,
            final(self).outbox@ == old(self).outbox@,
            final(self).fe.state() == spec_forward::<S>(
                old(self).fe.state(),
                spec_gesture_of(*event),
            ),
            gesture_step::<S::Engine>(
                old(self).position(),
                old(self).history(),
                final(self).position(),
                final(self).history(),
            ),
            spec_gesture_of(*event) == Gesture::Ignore ==> final(self).fe == old(self).fe,
    {
        let ghost pos_a = self.position();
        let ghost hist_a = self.history();
        assert(hist_a.take(hist_a.len() as int) =~= hist_a);
        match gesture_of(event) {
            Gesture::Ignore => {},
            Gesture::Move { x, y } => {
                self.fe.mouse_moved(x, y);
            },
            Gesture::Press { x, y, secondary } => {
                self.fe.mouse_moved(x, y);
                let ghost pos_b = self.position();
                let ghost hist_b = self.history();
                self.fe.mouse_clicked(secondary);
                proof {
                    lemma_gesture_step_trans::<S::Engine>(
                        pos_a,
                        hist_a,
                        pos_b,
                        hist_b,
                        self.position(),
                        self.history(),
                    );
                }
            },
            Gesture::Release { x, y, secondary } => {
                self.fe.mouse_moved(x, y);
                let ghost pos_b = self.position();
                let ghost hist_b = self.history();
                self.fe.mouse_released(secondary);
                proof {
                    lemma_gesture_step_trans::<S::Engine>(
                        pos_a,
                        hist_a,
                        pos_b,
                        hist_b,
                        self.position(),
                        self.history(),
                    );
                }
            },
        }
    }

    /// The codes of the moves that the history holds from entry
    /// `history_len` on, in order.
    pub fn codes_since(&self, history_len: usize) -> (r: Vec<MoveCode>)
        requires
            history_len <= self.history().len(),
        ensures
            r@ == codes_from(self.history(), history_len as int),
    {
        let ghost all = codes_from(self.history(), history_len as int);
        let end: usize = self.fe.history_len();
        let mut codes: Vec<MoveCode> = Vec::new();
        let mut history_idx: usize = history_len;
        while history_idx < end
            invariant
                history_len <= history_idx <= end,
                end == self.history().len(),
                all == codes_from(self.history(), history_len as int),
                codes@ == all.take(history_idx - history_len),
            decreases end - history_idx,
        {
            codes.push(self.fe.history_code(history_idx));
            history_idx = history_idx + 1;
            assert(codes@ =~= all.take(history_idx - history_len));
        }
        assert(all.take(end - history_len) =~= all);
        codes
    }

    /// Proposes to the host every move that the history holds from entry
    /// `history_len` on, in order, the first for `turn` and each further
    /// one for the next seat, and takes all of them back.
    pub fn report_and_rollback(&mut self, history_len: usize, turn: Color)
        requires
            history_len <= old(self).history().len(),
        ensures
            final(self).disabled == old(self).disabled,
            final(self).outbox@ == old(self).outbox@ + proposals(
                turn,
                codes_from(old(self).history(), history_len as int),
            ),
            final(self).history() == old(self).history().take(history_len as int),
            final(self).position() == (if history_len < old(self).history().len() {
                old(self).history()[history_len as int].before
            } else {
                old(self).position()
            }),
    {
        let ghost history = self.history();
        let codes = self.codes_since(history_len);
        let mut events = proposals_for(turn, &codes);
        self.outbox.append(&mut events);
        let mut left: usize = codes.len();
        assert(history.take(history.len() as int) =~= history);
        while left > 0
            invariant
                history_len + left <= history.len(),
                history == old(self).history(),
                self.disabled == old(self).disabled,
                self.outbox@ == old(self).outbox@ + proposals(
                    turn,
                    codes_from(history, history_len as int),
                ),
                self.history() == history.take(history_len + left),
                self.position() == (if history_len + left < history.len() {
                    history[history_len + left].before
                } else {
                    old(self).position()
                }),
            decreases left,
        {
            self.fe.undo_move();
            left = left - 1;
            assert(history.take(history_len + left + 1).drop_last() =~= history.take(
                history_len + left,
            ));
        }
    }

    /// Takes in a pointer event. While the frontend is disabled nothing
    /// happens. Otherwise the event goes to the surface; every move that
    /// this completed is proposed to the host, the first for the seat whose
    /// turn it was before and each further one for the next seat; and all
    /// of them are taken back, so that board and history are as before.
    pub fn process_input(&mut self, event: &PointerEvent) -> (r: Result<(), Error>)
        ensures
            r is Ok,
            final(self).disabled == old(self).disabled,
            final(self).position() == old(self).position(),
            final(self).history() == old(self).history(),
            old(self).disabled ==> *final(self) == *old(self),
            !old(self).disabled ==> final(self).outbox@ == old(self).outbox@ + proposals(
                S::Engine::turn_of(old(self).position()),
                spec_completed::<S>(old(self).fe.state(), spec_gesture_of(*event)),
            ),
            spec_gesture_of(*event) == Gesture::Ignore ==> final(self).outbox@ == old(self).outbox@,
    {
        if self.disabled {
            return Ok(());
        }
        let history_len: usize = self.fe.history_len();
        let current_turn: Color = self.fe.turn();
        self.forward(event);
        let ghost grown = self.history();
        self.report_and_rollback(history_len, current_turn);
        proof {
            assert(self.history() =~= old(self).history());
            if spec_gesture_of(*event) == Gesture::Ignore {
                assert(codes_from(grown, history_len as int) =~= Seq::<MoveCode>::empty());
                assert(self.outbox@ =~= old(self).outbox@);
            }
        }
        Ok(())
    }

    /// Nothing to do between frames.
    pub fn update(&mut self) -> (r: Result<(), Error>)
        ensures
            r is Ok,
            *final(self) == *old(self),
    {
        Ok(())
    }

    /// What there is to draw: only the background while disabled, else the
    /// board.
    pub fn render(&self) -> (r: RenderAction)
        ensures
            r == (if self.disabled {
                RenderAction::Clear
            } else {
                RenderAction::Board
            }),
    {
        render_action(self.disabled)
    }

    /// Hands the collected proposals to the host and empties the outbox.
    pub fn drain_outbox(&mut self) -> (r: Vec<MoveEvent>)
        ensures
            r@ == old(self).outbox@,
            final(self).outbox@.len() == 0,
            final(self).fe == old(self).fe,
            final(self).disabled == old(self).disabled,
    {
        let mut taken: Vec<MoveEvent> = Vec::new();
        std::mem::swap(&mut taken, &mut self.outbox);
        taken
    }
}

} // verus!
