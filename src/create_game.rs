use vstd::prelude::*;
use crate::board::{Cell, Role, lemma_filled_bounds};
use crate::constants::{MAX_WAGER, MOVE_TIMEOUT_SECONDS};
use crate::errors::CustomError;
use crate::events::GameCreated;
use crate::game::{Game, GameStatus};
use crate::identity::Identity;
use crate::settlement::Transfer;

verus! {

/// What creating a game sees: the creator, the value it holds, the address of the new game,
/// and the time.
#[derive(Clone, Copy, Debug)]
pub struct CreateGame {
    pub creator: Identity,
    pub creator_balance: u64,
    pub game: Identity,
    pub now: i64,
}

/// The first check that rejects creating a game with stake `wager`, in the order they are
/// made.
pub open spec fn create_error(ctx: CreateGame, wager: u64) -> Option<CustomError> {
    if wager > MAX_WAGER {
        Some(CustomError::WagerTooLarge)
    } else if ctx.creator_balance < wager {
        Some(CustomError::InsufficientFunds)
    } else {
        None
    }
}

/// Opens a game with stake `wager`: the creator plays X and moves first, the board is empty,
/// and the creator's stake goes into custody. On success the returned transfer moves that
/// stake from the creator to the game.
pub fn handler(ctx: &CreateGame, wager: u64) -> (r: Result<(Game, Transfer, GameCreated), CustomError>)
    ensures
        r is Ok <==> create_error(*ctx, wager) is None,
        r matches Err(e) ==> create_error(*ctx, wager) == Some(e),
        r matches Ok(out) ==> {
            let g = out.0;
            &&& g.wf()
            &&& g.player_x == ctx.creator
            &&& g.player_o is None
            &&& g.wager == wager
            &&& forall|i: int| 0 <= i < 9 ==> #[trigger] g.board@[i] == Cell::Empty
            &&& g.turn == Role::X
            &&& g.status == GameStatus::Open
            &&& g.total_pot == wager
            &&& g.created_at == ctx.now
            &&& g.last_move_ts == ctx.now
            &&& g.timeout_seconds == MOVE_TIMEOUT_SECONDS
            &&& out.1 == (Transfer { from: ctx.creator, to: ctx.game, amount: wager })
            &&& out.2 == (GameCreated {
                game: ctx.game,
                player_x: ctx.creator,
                wager,
                created_at: ctx.now,
            })
        },
{
    if wager > MAX_WAGER {
        return Err(CustomError::WagerTooLarge);
    }
    if ctx.creator_balance < wager {
        return Err(CustomError::InsufficientFunds);
    }
    let game = Game {
        player_x: ctx.creator,
        player_o: None,
        wager,
        board: [Cell::Empty; 9],
        turn: Role::X,
        status: GameStatus::Open,
        total_pot: wager,
        created_at: ctx.now,
        last_move_ts: ctx.now,
        timeout_seconds: MOVE_TIMEOUT_SECONDS,
    };
    proof {
        lemma_filled_bounds(game.board@);
    }
    let stake = Transfer { from: ctx.creator, to: ctx.game, amount: wager };
    let event = GameCreated { game: ctx.game, player_x: ctx.creator, wager, created_at: ctx.now };
    Ok((game, stake, event))
}

} // verus!
