//! The capability that the interaction adapter needs from the engine's
//! pointer surface: a working board that gestures play moves on, and a
//! history from which they can be taken back.

use vstd::prelude::*;
use crate::engine::{MoveCode, RulesEngine};
use crate::player::Color;

verus! {

/// One entry of the local history: a move and the position it was made in.
pub struct Played<P> {
    pub code: MoveCode,
    pub before: P,
}

/// Whether the entries of `history` from index `from` on were played one
/// after another, the first of them in `start`, with `end` the position
/// after the last. With no such entry, `end` is `start`.
pub open spec fn played_from<E: RulesEngine>(
    history: Seq<Played<E::Position>>,
    from: int,
    start: E::Position,
    end: E::Position,
) -> bool {
    &&& 0 <= from <= history.len()
    &&& forall|i: int|
        from <= i < history.len() ==> (#[trigger] history[i]).before == (if i == from {
            start
        } else {
            E::after(history[i - 1].before, history[i - 1].code)
        })
    &&& end == (if from == history.len() {
        start
    } else {
        E::after(history.last().before, history.last().code)
    })
}

/// Whether a gesture led from the surface state `(position, history)` to
/// `(position2, history2)`: the history kept what it had, and what it
/// gained was played from `position` and ended in `position2`.
pub open spec fn gesture_step<E: RulesEngine>(
    position: E::Position,
    history: Seq<Played<E::Position>>,
    position2: E::Position,
    history2: Seq<Played<E::Position>>,
) -> bool {
    &&& history.len() <= history2.len()
    &&& history2.take(history.len() as int) == history
    &&& played_from::<E>(history2, history.len() as int, position, position2)
}

/// Two gestures one after the other are a gesture.
pub proof fn lemma_gesture_step_trans<E: RulesEngine>(
    pos_a: E::Position,
    hist_a: Seq<Played<E::Position>>,
    pos_b: E::Position,
    hist_b: Seq<Played<E::Position>>,
    pos_c: E::Position,
    hist_c: Seq<Played<E::Position>>,
)
    requires
        gesture_step::<E>(pos_a, hist_a, pos_b, hist_b),
        gesture_step::<E>(pos_b, hist_b, pos_c, hist_c),
    ensures
        gesture_step::<E>(pos_a, hist_a, pos_c, hist_c),
{
    assert(hist_c.take(hist_a.len() as int) =~= hist_a) by {
        assert forall|i: int| 0 <= i < hist_a.len() implies hist_c[i] == hist_a[i] by {
            assert(hist_c.take(hist_b.len() as int)[i] == hist_b[i]);
            assert(hist_b.take(hist_a.len() as int)[i] == hist_a[i]);
        }
    }
    assert forall|i: int| hist_a.len() <= i < hist_c.len() implies (#[trigger] hist_c[i]).before
        == (if i == hist_a.len() {
        pos_a
    } else {
        E::after(hist_c[i - 1].before, hist_c[i - 1].code)
    }) by {
        if i < hist_b.len() {
            assert(hist_c.take(hist_b.len() as int)[i] == hist_b[i]);
            if i > hist_a.len() {
                assert(hist_c.take(hist_b.len() as int)[i - 1] == hist_b[i - 1]);
            }
        } else if i == hist_b.len() {
            if hist_b.len() > hist_a.len() {
                assert(hist_c.take(hist_b.len() as int)[i - 1] == hist_b[i - 1]);
            }
        }
    }
    if hist_c.len() > hist_a.len() && hist_c.len() == hist_b.len() {
        assert(hist_c.take(hist_b.len() as int)[hist_b.len() - 1] == hist_b[hist_b.len() - 1]);
    }
}

/// The engine's pointer surface.
///
/// The contracts speak of a surface by its state. What a gesture makes of
/// a state is the surface's own business and has a name here; the
/// contract only asks that a gesture keeps the history it found and plays
/// what it adds from the position it found.
pub trait InteractionSurface: Sized {
    /// The rules engine whose positions the surface shows.
    type Engine: RulesEngine;

    /// All that a surface holds, as the contracts speak of it.
    type State;

    /// The state of the surface.
    spec fn state(&self) -> Self::State;

    /// The position on the working board.
    spec fn position_of(state: Self::State) -> <Self::Engine as RulesEngine>::Position;

    /// The moves played on the working board by gestures and not taken
    /// back, oldest first.
    spec fn history_of(state: Self::State) -> Seq<Played<<Self::Engine as RulesEngine>::Position>>;

    /// Whether the surface shows anything for a move in progress, such as
    /// a picked piece.
    spec fn effects_of(state: Self::State) -> bool;

    /// The state after the pointer went to `(x, y)`.
    spec fn moved(state: Self::State, x: i32, y: i32) -> Self::State;

    /// The state after a button went down.
    spec fn clicked(state: Self::State, secondary: bool) -> Self::State;

    /// The state after a button went up.
    spec fn released(state: Self::State, secondary: bool) -> Self::State;

    /// A fresh surface: no history and no move in progress.
    fn new() -> (r: Self)
        ensures
            Self::history_of(r.state()).len() == 0,
            !Self::effects_of(r.state()),
    ;

    /// Forgets the history and the move in progress.
    fn reset(&mut self)
        ensures
            Self::history_of(final(self).state()).len() == 0,
            !Self::effects_of(final(self).state()),
    ;

    /// Puts `board` on the working board. The history stays, and so does
    /// what is shown for a move in progress.
    fn set_board(&mut self, board: Self::Engine)
        ensures
            Self::position_of(final(self).state()) == board.position(),
            Self::history_of(final(self).state()) == Self::history_of(old(self).state()),
            Self::effects_of(final(self).state()) == Self::effects_of(old(self).state()),
    ;

    /// The seat to move on the working board.
    fn turn(&self) -> (r: Color)
        ensures
            r == Self::Engine::turn_of(Self::position_of(self.state())),
    ;

    /// Makes a move on the working board without recording it.
    fn apply_move(&mut self, m: <Self::Engine as RulesEngine>::Move)
        ensures
            Self::position_of(final(self).state()) == Self::Engine::after(
                Self::position_of(old(self).state()),
                Self::Engine::code_of(m),
            ),
            Self::history_of(final(self).state()) == Self::history_of(old(self).state()),
    ;

    /// Drops what is shown for the move in progress. Board and history stay.
    fn reset_effects(&mut self)
        ensures
            Self::position_of(final(self).state()) == Self::position_of(old(self).state()),
            Self::history_of(final(self).state()) == Self::history_of(old(self).state()),
            !Self::effects_of(final(self).state()),
    ;

    /// The pointer went to `(x, y)`.
    fn mouse_moved(&mut self, x: i32, y: i32)
        ensures
            final(self).state() == Self::moved(old(self).state(), x, y),
            gesture_step::<Self::Engine>(
                Self::position_of(old(self).state()),
                Self::history_of(old(self).state()),
                Self::position_of(final(self).state()),
                Self::history_of(final(self).state()),
            ),
    ;

    /// A button went down: the secondary one if `secondary`, else the primary.
    fn mouse_clicked(&mut self, secondary: bool)
        ensures
            final(self).state() == Self::clicked(old(self).state(), secondary),
            gesture_step::<Self::Engine>(
                Self::position_of(old(self).state()),
                Self::history_of(old(self).state()),
                Self::position_of(final(self).state()),
                Self::history_of(final(self).state()),
            ),
    ;

    /// A button went up: the secondary one if `secondary`, else the primary.
    fn mouse_released(&mut self, secondary: bool)
        ensures
            final(self).state() == Self::released(old(self).state(), secondary),
            gesture_step::<Self::Engine>(
                Self::position_of(old(self).state()),
                Self::history_of(old(self).state()),
                Self::position_of(final(self).state()),
                Self::history_of(final(self).state()),
            ),
    ;

    /// The number of entries in the history.
    fn history_len(&self) -> (r: usize)
        ensures
            r == Self::history_of(self.state()).len(),
    ;

    /// The code of the move in entry `i` of the history.
    fn history_code(&self, i: usize) -> (r: MoveCode)
        requires
            i < Self::history_of(self.state()).len(),
        ensures
            r == Self::history_of(self.state())[i as int].code,
    ;

    /// Takes back the last move of the history.
    fn undo_move(&mut self)
        requires
            Self::history_of(old(self).state()).len() > 0,
        ensures
            Self::history_of(final(self).state()) == Self::history_of(
                old(self).state(),
            ).drop_last(),
            Self::position_of(final(self).state()) == Self::history_of(
                old(self).state(),
            ).last().before,
    ;
}

} // verus!
