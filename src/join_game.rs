use vstd::prelude::*;
use crate::board::{has_uniform, is_full, lemma_filled_bounds, uniform};
use crate::errors::CustomError;
use crate::events::GameJoined;
use crate::game::{Game, GameStatus};
use crate::identity::Identity;
use crate::settlement::Transfer;

verus! {

/// What joining sees: the joiner, the value it holds, the address of the game, and the time.
#[derive(Clone, Copy, Debug)]
pub struct JoinGame {
    pub player_o: Identity,
    pub player_o_balance: u64,
    pub game: Identity,
    pub now: i64,
}

/// The first check that rejects `ctx` joining `g`, in the order they are made.
pub open spec fn join_error(g: Game, ctx: JoinGame) -> Option<CustomError> {
    if g.status != GameStatus::Open {
        Some(CustomError::GameNotOpen)
    } else if g.player_o is Some {
        Some(CustomError::SeatTaken)
    } else if ctx.player_o_balance < g.wager {
        Some(CustomError::InsufficientFunds)
    } else {
        None
    }
}

/// The game once `ctx` has joined `g`: O is seated, play starts, and the joiner's stake is
/// added to the creator's, so the pot holds both.
pub open spec fn joined(g: Game, ctx: JoinGame) -> Game {
    Game {
        player_o: Some(ctx.player_o),
        status: GameStatus::InProgress,
        total_pot: (g.total_pot + g.wager) as u64,
        ..g
    }
}

/// Seats the caller as O and takes its stake into custody; X moves first.
/// On success the returned transfer moves the stake from the joiner to the game.
pub fn handler(ctx: &JoinGame, game: &mut Game) -> (r: Result<(Transfer, GameJoined), CustomError>)
    requires
        old(game).wf(),
    ensures
        final(game).wf(),
        r is Ok <==> join_error(*old(game), *ctx) is None,
        r matches Err(e) ==> join_error(*old(game), *ctx) == Some(e) && *final(game) == *old(game),
        r matches Ok(out) ==> {
            &&& *final(game) == joined(*old(game), *ctx)
            &&& out.0 == (Transfer { from: ctx.player_o, to: ctx.game, amount: old(game).wager })
            &&& out.1 == (GameJoined { game: ctx.game, player_o: ctx.player_o, joined_at: ctx.now })
        },
{
    if game.status != GameStatus::Open {
        return Err(CustomError::GameNotOpen);
    }
    if game.player_o.is_some() {
        return Err(CustomError::SeatTaken);
    }
    if ctx.player_o_balance < game.wager {
        return Err(CustomError::InsufficientFunds);
    }
    proof {
        lemma_filled_bounds(game.board@);
        assert(!is_full(game.board@));
        assert(!has_uniform(game.board@)) by {
            assert forall|k: int| 0 <= k < 8 implies !#[trigger] uniform(game.board@, k) by {}
        }
    }
    game.player_o = Some(ctx.player_o);
    game.status = GameStatus::InProgress;
    game.total_pot = game.total_pot + game.wager;
    let stake = Transfer { from: ctx.player_o, to: ctx.game, amount: game.wager };
    let event = GameJoined { game: ctx.game, player_o: ctx.player_o, joined_at: ctx.now };
    Ok((stake, event))
}

} // verus!
