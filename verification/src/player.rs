//! Seats at the board and the identifiers the host uses for them.

use vstd::prelude::*;

verus! {

/// Identifier the host uses for a player: 1, 2 or 3.
pub type PlayerId = u8;

/// Number of seats at the board.
pub const PLAYER_COUNT: u8 = 3;

/// A seat at the board, in turn order.
#[derive(Clone, Copy, Debug, PartialEq, Eq, Structural)]
pub enum Color {
    P0,
    P1,
    P2,
}

impl Color {
    /// Position of the seat in turn order: 0, 1 or 2.
    pub open spec fn index(self) -> int {
        match self {
            Color::P0 => 0,
            Color::P1 => 1,
            Color::P2 => 2,
        }
    }

    /// The seat at a position in turn order, counted cyclically.
    pub open spec fn at(i: int) -> Color {
        let r = i % 3;
        if r == 0 {
            Color::P0
        } else if r == 1 {
            Color::P1
        } else {
            Color::P2
        }
    }

    /// The seat that moves after this one.
    pub open spec fn spec_next(self) -> Color {
        Color::at(self.index() + 1)
    }

    /// The seat reached after `n` turns have passed.
    pub open spec fn advance(self, n: nat) -> Color {
        Color::at(self.index() + n)
    }

    /// The seat that moves after this one: P0, P1, P2, then P0 again.
    #[verifier::when_used_as_spec(spec_next)]
    pub fn next(self) -> (r: Color)
        ensures
            r == self.spec_next(),
            r != self,
    {
        match self {
            Color::P0 => Color::P1,
            Color::P1 => Color::P2,
            Color::P2 => Color::P0,
        }
    }
}

/// Whether `id` names a player.
pub open spec fn valid_player_id(id: PlayerId) -> bool {
    1 <= id <= 3
}

/// The seat that the identifier `id` stands for.
pub open spec fn spec_player_from_id(id: PlayerId) -> Color {
    Color::at(id - 1)
}

/// The identifier of a seat.
pub open spec fn spec_player_to_id(player: Color) -> PlayerId {
    (player.index() + 1) as u8
}

/// Turns a host identifier into a seat. Identifiers other than 1, 2 and 3
/// name nobody and are not accepted.
#[verifier::when_used_as_spec(spec_player_from_id)]
pub fn player_from_id(player: PlayerId) -> (r: Color)
    requires
        valid_player_id(player),
    ensures
        r == spec_player_from_id(player),
        r.index() == player - 1,
{
    if player == 1 {
        Color::P0
    } else if player == 2 {
        Color::P1
    } else {
        Color::P2
    }
}

/// Turns a host identifier into a seat, or `None` when it names nobody.
pub fn player_from_id_checked(player: PlayerId) -> (r: Option<Color>)
    ensures
        valid_player_id(player) ==> r == Some(spec_player_from_id(player)),
        !valid_player_id(player) ==> r.is_none(),
{
    if 1 <= player && player <= 3 {
        Some(player_from_id(player))
    } else {
        None
    }
}

/// Turns a seat into the identifier the host knows it by.
#[verifier::when_used_as_spec(spec_player_to_id)]
pub fn player_to_id(player: Color) -> (r: PlayerId)
    ensures
        r == spec_player_to_id(player),
        r == player.index() + 1,
        valid_player_id(r),
{
    match player {
        Color::P0 => 1,
        Color::P1 => 2,
        Color::P2 => 3,
    }
}

/// Identifiers and seats correspond one to one: converting a valid
/// identifier to its seat and back gives the identifier again.
pub proof fn lemma_id_round_trip(id: PlayerId)
    requires
        valid_player_id(id),
    ensures
        spec_player_to_id(spec_player_from_id(id)) == id,
{
}

/// Converting a seat to its identifier and back gives the seat again, and
/// the identifier is always valid.
pub proof fn lemma_seat_round_trip(player: Color)
    ensures
        valid_player_id(spec_player_to_id(player)),
        spec_player_from_id(spec_player_to_id(player)) == player,
{
}

} // verus!
