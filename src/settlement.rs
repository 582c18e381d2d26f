use vstd::prelude::*;
use crate::constants::FEE_DIVISOR;
use crate::identity::Identity;

verus! {

/// A movement of value that the caller must carry out, atomically with the new game state.
#[derive(Clone, Copy, Debug, PartialEq, Eq)]
pub struct Transfer {
    pub from: Identity,
    pub to: Identity,
    pub amount: u64,
}

/// The fee kept from a pot.
pub open spec fn fee_of(pot: u64) -> u64 {
    (pot / 20) as u64
}

/// What the winner receives from a pot.
pub open spec fn payout_of(pot: u64) -> u64 {
    (pot - fee_of(pot)) as u64
}

/// Splits `pot` into the protocol fee, one twentieth rounded down, and the winner's payout.
pub fn split_pot(pot: u64) -> (r: (u64, u64))
    ensures
        r.0 == fee_of(pot),
        r.1 == payout_of(pot),
        r.0 + r.1 == pot,
{
    let fee = pot / FEE_DIVISOR;
    (fee, pot - fee)
}

} // verus!
