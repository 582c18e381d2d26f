use vstd::prelude::*;
use crate::identity::Identity;

verus! {

/// A game account was set up by its creator.
#[derive(Clone, Copy, Debug, PartialEq, Eq)]
pub struct GameCreated {
    pub game: Identity,
    pub player_x: Identity,
    pub wager: u64,
    pub created_at: i64,
}

/// The second player took seat O.
#[derive(Clone, Copy, Debug, PartialEq, Eq)]
pub struct GameJoined {
    pub game: Identity,
    pub player_o: Identity,
    pub joined_at: i64,
}

/// A marker was placed at row `x`, column `y`.
#[derive(Clone, Copy, Debug, PartialEq, Eq)]
pub struct MoveMade {
    pub game: Identity,
    pub player: Identity,
    pub x: u8,
    pub y: u8,
    pub made_at: i64,
}

/// A won game was settled.
#[derive(Clone, Copy, Debug, PartialEq, Eq)]
pub struct GameFinalized {
    pub game: Identity,
    pub winner: Identity,
    pub finalized_at: i64,
}

/// The winner was paid the pot less the fee.
#[derive(Clone, Copy, Debug, PartialEq, Eq)]
pub struct WinningsDistributed {
    pub game: Identity,
    pub winner: Identity,
    pub amount: u64,
    pub distributed_at: i64,
}

/// The protocol fee was kept back from the pot.
#[derive(Clone, Copy, Debug, PartialEq, Eq)]
pub struct FeeCollected {
    pub game: Identity,
    pub fee: u64,
    pub collected_at: i64,
}

} // verus!
