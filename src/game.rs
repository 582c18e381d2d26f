use vstd::prelude::*;
use crate::board::{
    Board,
    Cell,
    Role,
    board_has_line,
    board_is_full,
    count_filled,
    detect_winner,
    filled,
    has_uniform,
    is_full,
    winner,
};
use crate::constants::MAX_WAGER;
use crate::identity::Identity;

verus! {

/// Lifecycle stage of a game. It only moves forward:
/// Open, then InProgress, then one of WonX, WonO, Draw, and Finalized after a payout.
#[derive(Clone, Copy, Debug, PartialEq, Eq, Structural)]
pub enum GameStatus {
    Open,
    InProgress,
    WonX,
    WonO,
    Draw,
    Finalized,
}

/// One match between two players and the value it holds in custody.
#[derive(Clone, Copy, Debug, PartialEq, Eq)]
pub struct Game {
    /// The creator, who plays X.
    pub player_x: Identity,
    /// The joiner, who plays O; absent while the game is open.
    pub player_o: Option<Identity>,
    /// Stake asked of each player.
    pub wager: u64,
    pub board: Board,
    /// Whose move is legal next.
    pub turn: Role,
    pub status: GameStatus,
    /// Value held in custody for this game.
    pub total_pot: u64,
    pub created_at: i64,
    pub last_move_ts: i64,
    /// Declared time allowed per move.
    pub timeout_seconds: u64,
}

pub open spec fn is_terminal(s: GameStatus) -> bool {
    s == GameStatus::WonX || s == GameStatus::WonO || s == GameStatus::Draw
}

/// The status that a board reached by an accepted move leads to.
pub open spec fn status_after(b: Seq<Cell>) -> GameStatus {
    match winner(b) {
        Some(Cell::X) => GameStatus::WonX,
        Some(Cell::O) => GameStatus::WonO,
        _ => if is_full(b) {
            GameStatus::Draw
        } else {
            GameStatus::InProgress
        },
    }
}

impl Game {
    /// `who` holds the seat of `role`.
    pub open spec fn seated(self, role: Role, who: Identity) -> bool {
        match role {
            Role::X => who@ == self.player_x@,
            Role::O => self.player_o matches Some(o) && who@ == o@,
        }
    }

    /// `who` holds either seat.
    pub open spec fn is_player(self, who: Identity) -> bool {
        self.seated(Role::X, who) || self.seated(Role::O, who)
    }

    /// The invariant of a game record, kept by every transition.
    pub open spec fn wf(self) -> bool {
        &&& self.board@.len() == 9
        &&& self.wager <= MAX_WAGER
        &&& (self.status == GameStatus::Open <==> self.player_o is None)
        &&& self.status == GameStatus::Open ==> {
            &&& self.total_pot == self.wager
            &&& filled(self.board@) == 0
            &&& self.turn == Role::X
        }
        &&& (self.status == GameStatus::InProgress || is_terminal(self.status)) ==> self.total_pot
            == 2 * self.wager
        &&& self.status == GameStatus::Finalized ==> self.total_pot == 0
        &&& self.status == GameStatus::InProgress ==> {
            &&& !has_uniform(self.board@)
            &&& !is_full(self.board@)
            &&& (self.turn == Role::X <==> filled(self.board@) % 2 == 0)
        }
        &&& self.status == GameStatus::WonX ==> winner(self.board@) == Some(Cell::X)
        &&& self.status == GameStatus::WonO ==> winner(self.board@) == Some(Cell::O)
        &&& self.status == GameStatus::Draw ==> is_full(self.board@) && !has_uniform(self.board@)
    }

    /// Tells whether the record keeps the invariant, as a record read back from storage must
    /// before any transition is applied to it.
    pub fn is_valid(&self) -> (r: bool)
        ensures
            r == self.wf(),
    {
        if self.wager > MAX_WAGER {
            return false;
        }
        let open = self.status == GameStatus::Open;
        if open != self.player_o.is_none() {
            return false;
        }
        let n = count_filled(&self.board);
        let full = board_is_full(&self.board);
        let line = board_has_line(&self.board);
        let won = detect_winner(&self.board);
        match self.status {
            GameStatus::Open => self.total_pot == self.wager && n == 0 && self.turn == Role::X,
            GameStatus::InProgress => {
                self.total_pot == 2 * self.wager && !line && !full && ((self.turn == Role::X) == (n
                    % 2 == 0))
            },
            GameStatus::WonX => self.total_pot == 2 * self.wager && won == Some(Cell::X),
            GameStatus::WonO => self.total_pot == 2 * self.wager && won == Some(Cell::O),
            GameStatus::Draw => self.total_pot == 2 * self.wager && full && !line,
            GameStatus::Finalized => self.total_pot == 0,
        }
    }

    /// Tells whether `who` holds the seat of `role`.
    pub fn holds_seat(&self, role: Role, who: &Identity) -> (r: bool)
        ensures
            r == self.seated(role, *who),
    {
        match role {
            Role::X => who.same_as(&self.player_x),
            Role::O => match &self.player_o {
                Some(o) => who.same_as(o),
                None => false,
            },
        }
    }
}

} // verus!
