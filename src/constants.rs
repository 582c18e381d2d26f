use vstd::prelude::*;

verus! {

/// Bytes taken by the account discriminator at the start of a stored record.
pub const DISCRIMINATOR_LENGTH: usize = 8;

/// Longest display name, in bytes.
pub const MAX_NAME_LENGTH: usize = 32;

/// Longest ticker symbol, in bytes.
pub const MAX_SYMBOL_LENGTH: usize = 10;

/// Longest metadata URI, in bytes.
pub const MAX_URI_LENGTH: usize = 200;

/// Seconds allowed per move in a newly created game.
pub const MOVE_TIMEOUT_SECONDS: u64 = 120;

/// Largest accepted wager: both stakes together must fit in a `u64` pot.
pub const MAX_WAGER: u64 = 0x7fff_ffff_ffff_ffff;

/// The protocol keeps one part in this many of the pot as its fee (5%).
pub const FEE_DIVISOR: u64 = 20;

/// Bytes of a stored game record: the discriminator, two 32-byte keys, the wager, nine cells,
/// the turn and status bytes, the pot, two timestamps, the timeout and the address bump.
pub const GAME_ACCOUNT_LEN: usize = DISCRIMINATOR_LENGTH + 32 + 32 + 8 + 9 + 1 + 1 + 8 + 8 + 8 + 8 + 1;

} // verus!
