use vstd::prelude::*;
use crate::board::Role;
use crate::errors::CustomError;
use crate::events::{FeeCollected, GameFinalized, WinningsDistributed};
use crate::game::{Game, GameStatus};
use crate::identity::Identity;
use crate::settlement::{Transfer, fee_of, payout_of, split_pot};

verus! {

/// What finalizing sees: the caller, the address of the game, and the time.
#[derive(Clone, Copy, Debug)]
pub struct FinalizeGame {
    pub player: Identity,
    pub game: Identity,
    pub now: i64,
}

/// Everything a payout produces: the transfer to carry out and the events to publish.
#[derive(Clone, Copy, Debug, PartialEq, Eq)]
pub struct Settlement {
    pub payout: Transfer,
    pub fee: FeeCollected,
    pub winnings: WinningsDistributed,
    pub finalized: GameFinalized,
}

/// The first check that rejects `player` finalizing `g`, in the order they are made.
pub open spec fn finalize_error(g: Game, player: Identity) -> Option<CustomError> {
    if g.status != GameStatus::WonX && g.status != GameStatus::WonO {
        Some(CustomError::GameNotCompleted)
    } else if !g.is_player(player) {
        Some(CustomError::PlayerNotMatched)
    } else {
        None
    }
}

/// The identity that the status of a won game pays.
pub open spec fn winner_of(g: Game) -> Identity {
    if g.status == GameStatus::WonX {
        g.player_x
    } else {
        g.player_o->Some_0
    }
}

/// The game once its payout is made: finalized, with nothing left in custody for the players.
pub open spec fn finalized(g: Game) -> Game {
    Game { status: GameStatus::Finalized, total_pot: 0, ..g }
}

/// Pays out a won game once: the winner gets the pot less a fee of one twentieth, rounded
/// down, which stays in custody; the game is then marked finalized with nothing left owed.
/// Either player may call it; the recipient follows from the status, not from the caller.
/// A drawn game has no payout and is rejected like an unfinished one.
pub fn finalize_game(ctx: &FinalizeGame, game: &mut Game) -> (r: Result<Settlement, CustomError>)
    requires
        old(game).wf(),
    ensures
        final(game).wf(),
        r is Ok <==> finalize_error(*old(game), ctx.player) is None,
        r matches Err(e) ==> finalize_error(*old(game), ctx.player) == Some(e) && *final(game)
            == *old(game),
        r matches Ok(s) ==> {
            let pot = old(game).total_pot;
            let winner = winner_of(*old(game));
            &&& *final(game) == finalized(*old(game))
            &&& s.payout == (Transfer { from: ctx.game, to: winner, amount: payout_of(pot) })
            &&& s.fee == (FeeCollected { game: ctx.game, fee: fee_of(pot), collected_at: ctx.now })
            &&& s.winnings == (WinningsDistributed {
                game: ctx.game,
                winner,
                amount: payout_of(pot),
                distributed_at: ctx.now,
            })
            &&& s.finalized == (GameFinalized { game: ctx.game, winner, finalized_at: ctx.now })
        },
{
    if game.status != GameStatus::WonX && game.status != GameStatus::WonO {
        return Err(CustomError::GameNotCompleted);
    }
    let is_player_x = game.holds_seat(Role::X, &ctx.player);
    let is_player_o = game.holds_seat(Role::O, &ctx.player);
    if !is_player_x && !is_player_o {
        return Err(CustomError::PlayerNotMatched);
    }
    let winner = match (game.status, game.player_o) {
        (GameStatus::WonO, Some(o)) => o,
        _ => game.player_x,
    };
    let (fee, amount) = split_pot(game.total_pot);
    game.status = GameStatus::Finalized;
    game.total_pot = 0;
    Ok(Settlement {
        payout: Transfer { from: ctx.game, to: winner, amount },
        fee: FeeCollected { game: ctx.game, fee, collected_at: ctx.now },
        winnings: WinningsDistributed { game: ctx.game, winner, amount, distributed_at: ctx.now },
        finalized: GameFinalized { game: ctx.game, winner, finalized_at: ctx.now },
    })
}

} // verus!
