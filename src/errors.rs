use vstd::prelude::*;

verus! {

/// Why a transition of a game was rejected. A rejected transition changes nothing.
#[derive(Clone, Copy, Debug, PartialEq, Eq, Structural)]
pub enum CustomError {
    /// The game is not open for joining.
    GameNotOpen,
    /// The game already has a second player.
    SeatTaken,
    /// The game is not in progress, so no move can be made.
    GameCompleted,
    /// The game has no winner to pay out.
    GameNotCompleted,
    /// The caller does not hold the seat that the transition needs.
    PlayerNotMatched,
    /// The coordinates fall outside the 3×3 grid.
    InvalidPosition,
    /// The target cell already holds a marker.
    CellOccupied,
    /// The payer cannot cover the stake.
    InsufficientFunds,
    /// Two stakes of this size would not fit in the pot.
    WagerTooLarge,
}

impl CustomError {
    /// A human-readable description of the error.
    pub fn message(&self) -> (r: &'static str) {
        match self {
            CustomError::GameNotOpen => "The game is not open for joining.",
            CustomError::SeatTaken => "The game already has a player O.",
            CustomError::GameCompleted => "The game has already been completed.",
            CustomError::GameNotCompleted => "The game has not been completed.",
            CustomError::PlayerNotMatched => "The player is not matched to this game.",
            CustomError::InvalidPosition => "The position is outside the board.",
            CustomError::CellOccupied => "The cell is already occupied.",
            CustomError::InsufficientFunds => "The payer cannot cover the wager.",
            CustomError::WagerTooLarge => "The wager is too large.",
        }
    }
}

} // verus!
