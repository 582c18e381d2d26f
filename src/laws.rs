use vstd::prelude::*;
use crate::board::{
    Cell,
    Role,
    count_of,
    filled,
    first_uniform,
    has_uniform,
    is_full,
    lemma_count_empty,
    lemma_count_update,
    lemma_filled_bounds,
    lemma_filled_update,
    line,
    mark_of,
    other_role,
    uniform,
    winner,
};
use crate::errors::CustomError;
use crate::game::{Game, GameStatus};
use crate::identity::Identity;
use crate::finalize_game::{finalize_error, finalized};
use crate::join_game::{JoinGame, join_error, joined};
use crate::make_move::{MakeMove, applied_move, cell_index, lemma_status_after, move_error};
use crate::settlement::{fee_of, payout_of};

verus! {

/// `states` is a game played through `plays` in order, every move accepted:
/// each play is the move context and the row and column it names.
pub open spec fn legal_run(states: Seq<Game>, plays: Seq<(MakeMove, u8, u8)>) -> bool {
    &&& states.len() == plays.len() + 1
    &&& forall|i: int|
        0 <= i < plays.len() ==> #[trigger] applied_move(
            states[i],
            plays[i].0.player,
            plays[i].1,
            plays[i].2,
            plays[i].0.now,
            states[i + 1],
        )
}

/// The side whose turn it is after `n` accepted moves from the start: X after an even number.
pub open spec fn side_after(n: int) -> Role {
    if n % 2 == 0 {
        Role::X
    } else {
        Role::O
    }
}

/// Starting from an empty board, after any run of `n` accepted moves the board holds exactly
/// `n` markers, of which `(n + 1) / 2` are X and `n / 2` are O; while the game goes on it is
/// X's turn after an even number of moves and O's after an odd one; and after each move the
/// turn passes to the other side unless that move ended the game.
pub proof fn law_moves_fill_cells(states: Seq<Game>, plays: Seq<(MakeMove, u8, u8)>)
    requires
        legal_run(states, plays),
        forall|i: int| 0 <= i < 9 ==> #[trigger] states[0].board@[i] == Cell::Empty,
        states[0].wf(),
    ensures
        forall|n: int| 0 <= n <= plays.len() ==> filled(#[trigger] states[n].board@) == n,
        forall|n: int|
            0 <= n <= plays.len() ==> count_of(#[trigger] states[n].board@, Cell::X) == (n + 1)
                / 2 && count_of(states[n].board@, Cell::O) == n / 2,
        forall|n: int|
            0 <= n <= plays.len() && (#[trigger] states[n]).status == GameStatus::InProgress
                ==> states[n].turn == side_after(n),
        forall|n: int|
            0 <= n < plays.len() ==> (#[trigger] states[n + 1]).turn == if states[n + 1].status
                == GameStatus::InProgress {
                other_role(states[n].turn)
            } else {
                states[n].turn
            },
{
    lemma_filled_bounds(states[0].board@);
    lemma_count_empty(states[0].board@, Cell::X);
    lemma_count_empty(states[0].board@, Cell::O);
    assert forall|n: int| 0 <= n <= plays.len() implies filled((#[trigger] states[n]).board@) == n
        && count_of(states[n].board@, Cell::X) == (n + 1) / 2 && count_of(states[n].board@, Cell::O)
        == n / 2 && (states[n].status == GameStatus::InProgress ==> states[n].turn == side_after(
        n)) by {
        lemma_run_prefix(states, plays, n);
    }
    assert forall|n: int| 0 <= n < plays.len() implies (#[trigger] states[n + 1]).turn == if states[
        n + 1].status == GameStatus::InProgress {
        other_role(states[n].turn)
    } else {
        states[n].turn
    } by {
        assert(applied_move(
            states[n],
            plays[n].0.player,
            plays[n].1,
            plays[n].2,
            plays[n].0.now,
            states[n + 1],
        ));
    }
}

proof fn lemma_run_prefix(states: Seq<Game>, plays: Seq<(MakeMove, u8, u8)>, n: int)
    requires
        legal_run(states, plays),
        filled(states[0].board@) == 0,
        count_of(states[0].board@, Cell::X) == 0,
        count_of(states[0].board@, Cell::O) == 0,
        states[0].wf(),
        0 <= n <= plays.len(),
    ensures
        filled(states[n].board@) == n,
        count_of(states[n].board@, Cell::X) == (n + 1) / 2,
        count_of(states[n].board@, Cell::O) == n / 2,
        states[n].board@.len() == 9,
        (n < plays.len() || states[n].status == GameStatus::InProgress) ==> states[n].turn
            == side_after(n),
    decreases n,
{
    if n > 0 {
        lemma_run_prefix(states, plays, n - 1);
        let i = n - 1;
        assert(applied_move(
            states[i],
            plays[i].0.player,
            plays[i].1,
            plays[i].2,
            plays[i].0.now,
            states[i + 1],
        ));
        let idx = cell_index(plays[i].1, plays[i].2);
        let m = mark_of(states[i].turn);
        lemma_filled_update(states[i].board@, idx, m);
        lemma_count_update(states[i].board@, idx, m, Cell::X);
        lemma_count_update(states[i].board@, idx, m, Cell::O);
        if n < plays.len() {
            assert(applied_move(
                states[n],
                plays[n].0.player,
                plays[n].1,
                plays[n].2,
                plays[n].0.now,
                states[n + 1],
            ));
        }
    } else if 0 < plays.len() {
        let i: int = 0;
        assert(applied_move(
            states[i],
            plays[i].0.player,
            plays[i].1,
            plays[i].2,
            plays[i].0.now,
            states[i + 1],
        ));
    }
}

/// Win detection is sound and complete for an accepted move: every line that the move leaves
/// with three equal markers is the mover's and gives the mover the win, and a win is only
/// recorded when such a line exists.
pub proof fn law_win_detection(before: Game, player: Identity, x: u8, y: u8, now: i64, after: Game)
    requires
        before.wf(),
        applied_move(before, player, x, y, now, after),
    ensures
        forall|k: int|
            0 <= k < 8 && #[trigger] uniform(after.board@, k) ==> {
                ||| after.board@[line(k).0] == Cell::X && after.status == GameStatus::WonX
                ||| after.board@[line(k).0] == Cell::O && after.status == GameStatus::WonO
            },
        after.status == GameStatus::WonX ==> exists|k: int|
            0 <= k < 8 && #[trigger] uniform(after.board@, k) && after.board@[line(k).0]
                == Cell::X,
        after.status == GameStatus::WonO ==> exists|k: int|
            0 <= k < 8 && #[trigger] uniform(after.board@, k) && after.board@[line(k).0]
                == Cell::O,
{
    lemma_status_after(before, cell_index(x, y), after.board@);
    let b = after.board@;
    match first_uniform(b) {
        Some(k) => {
            assert(uniform(b, k));
            assert(winner(b) == Some(mark_of(before.turn)));
        },
        None => {},
    }
}

/// A move ends the game in a draw exactly when it fills the last cell without completing a
/// line.
pub proof fn law_draw_iff_full(before: Game, player: Identity, x: u8, y: u8, now: i64, after: Game)
    requires
        before.wf(),
        applied_move(before, player, x, y, now, after),
    ensures
        after.status == GameStatus::Draw <==> is_full(after.board@) && !has_uniform(after.board@),
{
    lemma_status_after(before, cell_index(x, y), after.board@);
    let b = after.board@;
    match first_uniform(b) {
        Some(k) => {
            assert(uniform(b, k));
            assert(winner(b) == Some(mark_of(before.turn)));
        },
        None => {},
    }
}

/// Cells are written once: an accepted move fills exactly one empty cell and leaves every
/// other cell as it was.
pub proof fn law_cells_write_once(before: Game, player: Identity, x: u8, y: u8, now: i64, after: Game)
    requires
        applied_move(before, player, x, y, now, after),
    ensures
        before.board@[cell_index(x, y)] == Cell::Empty,
        after.board@[cell_index(x, y)] != Cell::Empty,
        forall|i: int|
            0 <= i < before.board@.len() && i != cell_index(x, y) ==> after.board@[i]
                == #[trigger] before.board@[i],
{
}

/// The payout of a pot splits it whole: the fee is one twentieth rounded down and the winner
/// receives the rest.
pub proof fn law_pot_split(pot: u64)
    ensures
        fee_of(pot) == pot / 20,
        payout_of(pot) == pot - pot / 20,
        fee_of(pot) + payout_of(pot) == pot,
{
}

/// After a join the pot holds both stakes: twice the wager.
pub proof fn law_pot_after_join(g: Game, ctx: JoinGame)
    requires
        g.wf(),
        join_error(g, ctx) is None,
    ensures
        joined(g, ctx).total_pot == 2 * g.wager,
{
}

/// Joining a game a second time fails: once the first join is accepted the game is no longer
/// open.
pub proof fn law_join_twice_fails(g: Game, first: JoinGame, second: JoinGame)
    requires
        g.wf(),
        join_error(g, first) is None,
    ensures
        join_error(joined(g, first), second) == Some(CustomError::GameNotOpen),
{
}

/// A won game pays out once: after an accepted finalize nothing is left in custody and any
/// further finalize, by anyone, is rejected.
pub proof fn law_finalize_pays_once(g: Game, first: Identity, second: Identity)
    requires
        g.wf(),
        finalize_error(g, first) is None,
    ensures
        finalized(g).total_pot == 0,
        finalize_error(finalized(g), second) == Some(CustomError::GameNotCompleted),
{
}

/// A player of the game who moves when it is the other side's turn is rejected with
/// `PlayerNotMatched`, whatever cell is named.
pub proof fn law_turn_enforced(g: Game, player: Identity, x: u8, y: u8)
    requires
        g.wf(),
        g.status == GameStatus::InProgress,
        g.is_player(player),
        !g.seated(g.turn, player),
    ensures
        move_error(g, player, x, y) == Some(CustomError::PlayerNotMatched),
{
}

} // verus!
