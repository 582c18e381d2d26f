use vstd::prelude::*;
use crate::board::{
    Cell,
    Role,
    board_is_full,
    detect_winner,
    filled,
    first_uniform,
    has_uniform,
    lemma_filled_update,
    lemma_first_uniform,
    line,
    mark,
    mark_of,
    other,
    other_role,
    uniform,
};
use crate::errors::CustomError;
use crate::events::MoveMade;
use crate::game::{Game, GameStatus, status_after};
use crate::identity::Identity;

verus! {

/// What a move sees: who signs it, which game it is for, and when it is made.
#[derive(Clone, Copy, Debug)]
pub struct MakeMove {
    pub player: Identity,
    pub game: Identity,
    pub now: i64,
}

/// Index of the cell at row `x`, column `y`.
pub open spec fn cell_index(x: u8, y: u8) -> int {
    x as int * 3 + y as int
}

/// The first check that rejects a move by `player` at (`x`, `y`), in the order they are made.
pub open spec fn move_error(g: Game, player: Identity, x: u8, y: u8) -> Option<CustomError> {
    if g.status != GameStatus::InProgress {
        Some(CustomError::GameCompleted)
    } else if !g.is_player(player) {
        Some(CustomError::PlayerNotMatched)
    } else if !g.seated(g.turn, player) {
        Some(CustomError::PlayerNotMatched)
    } else if x >= 3 || y >= 3 {
        Some(CustomError::InvalidPosition)
    } else if g.board@[cell_index(x, y)] != Cell::Empty {
        Some(CustomError::CellOccupied)
    } else {
        None
    }
}

/// `after` is `before` once `player` has legally placed the marker of the side to move at
/// (`x`, `y`) at time `now`.
pub open spec fn applied_move(before: Game, player: Identity, x: u8, y: u8, now: i64, after: Game) -> bool {
    &&& move_error(before, player, x, y) is None
    &&& after.board@ == before.board@.update(cell_index(x, y), mark_of(before.turn))
    &&& after.status == status_after(after.board@)
    &&& after.turn == if after.status == GameStatus::InProgress {
        other_role(before.turn)
    } else {
        before.turn
    }
    &&& after.last_move_ts == now
    &&& after.player_x == before.player_x
    &&& after.player_o == before.player_o
    &&& after.wager == before.wager
    &&& after.total_pot == before.total_pot
    &&& after.created_at == before.created_at
    &&& after.timeout_seconds == before.timeout_seconds
}

/// The status reached from the board of a legal move, with the facts that show it keeps the
/// game record well formed.
pub proof fn lemma_status_after(before: Game, idx: int, after: Seq<Cell>)
    requires
        before.wf(),
        before.status == GameStatus::InProgress,
        0 <= idx < 9,
        before.board@[idx] == Cell::Empty,
        after == before.board@.update(idx, mark_of(before.turn)),
    ensures
        forall|k: int| 0 <= k < 8 && #[trigger] uniform(after, k) ==> after[line(k).0] == mark_of(before.turn),
        filled(after) == filled(before.board@) + 1,
        first_uniform(after) is None <==> !has_uniform(after),
        first_uniform(after) matches Some(k) ==> 0 <= k < 8 && uniform(after, k),
{
    lemma_filled_update(before.board@, idx, mark_of(before.turn));
    lemma_first_uniform(after);
    assert forall|k: int| 0 <= k < 8 && #[trigger] uniform(after, k) implies after[line(k).0]
        == mark_of(before.turn) by {
        if !(line(k).0 == idx || line(k).1 == idx || line(k).2 == idx) {
            assert(uniform(before.board@, k));
        }
    }
}

/// Places the marker of the side to move at row `x`, column `y`, then settles the status:
/// a win for the mover if a line is completed, a draw if the grid is full, otherwise the turn
/// passes. A rejected move leaves the game as it was.
pub fn make_move(ctx: &MakeMove, game: &mut Game, x: u8, y: u8) -> (r: Result<MoveMade, CustomError>)
    requires
        old(game).wf(),
    ensures
        final(game).wf(),
        r is Ok <==> move_error(*old(game), ctx.player, x, y) is None,
        r matches Err(e) ==> move_error(*old(game), ctx.player, x, y) == Some(e) && *final(game)
            == *old(game),
        r matches Ok(ev) ==> applied_move(*old(game), ctx.player, x, y, ctx.now, *final(game))
            && ev == (MoveMade { game: ctx.game, player: ctx.player, x, y, made_at: ctx.now }),
{
    if game.status != GameStatus::InProgress {
        return Err(CustomError::GameCompleted);
    }
    let is_player_x = game.holds_seat(Role::X, &ctx.player);
    let is_player_o = game.holds_seat(Role::O, &ctx.player);
    if !is_player_x && !is_player_o {
        return Err(CustomError::PlayerNotMatched);
    }
    if !game.holds_seat(game.turn, &ctx.player) {
        return Err(CustomError::PlayerNotMatched);
    }
    if x >= 3 || y >= 3 {
        return Err(CustomError::InvalidPosition);
    }
    let idx = (x * 3 + y) as usize;
    if game.board[idx] != Cell::Empty {
        return Err(CustomError::CellOccupied);
    }
    let ghost before = *game;
    game.board[idx] = mark(game.turn);
    proof {
        assert(game.board@ =~= before.board@.update(idx as int, mark_of(before.turn)));
        lemma_status_after(before, idx as int, game.board@);
    }
    match detect_winner(&game.board) {
        Some(Cell::X) => {
            game.status = GameStatus::WonX;
        },
        Some(_) => {
            game.status = GameStatus::WonO;
        },
        None => {
            if board_is_full(&game.board) {
                game.status = GameStatus::Draw;
            } else {
                game.turn = other(game.turn);
            }
        },
    }
    game.last_move_ts = ctx.now;
    Ok(MoveMade { game: ctx.game, player: ctx.player, x, y, made_at: ctx.now })
}

} // verus!
