use tictactoe_escrow::board::{Cell, Role};
use tictactoe_escrow::game::{Game, GameStatus};
use tictactoe_escrow::identity::Identity;

fn key(n: u8) -> Identity {
    let mut bytes = [0u8; 32];
    bytes[0] = n;
    bytes[31] = 0xA5;
    Identity::from_bytes(bytes)
}

fn create_test_game() -> Game {
    Game {
        player_x: key(1),
        player_o: Some(key(2)),
        wager: 1_000_000_000,
        board: [Cell::Empty; 9],
        turn: Role::X,
        status: GameStatus::Open,
        total_pot: 2_000_000_000,
        created_at: 1_640_000_000,
        last_move_ts: 1_640_000_000,
        timeout_seconds: 300,
    }
}

#[test]
fn test_game_creation_default_values() {
    let game = create_test_game();
    assert_eq!(game.wager, 1_000_000_000);
    assert_eq!(game.board, [Cell::Empty; 9]);
    assert_eq!(game.turn, Role::X);
    assert_eq!(game.status, GameStatus::Open);
    assert_eq!(game.total_pot, 2_000_000_000);
    assert_eq!(game.timeout_seconds, 300);
}

#[test]
fn test_game_board_initialization_empty() {
    let game = create_test_game();
    for cell in game.board.iter() {
        assert_eq!(*cell, Cell::Empty, "All board cells should be empty initially");
    }
}

#[test]
fn test_game_board_size() {
    let game = create_test_game();
    assert_eq!(game.board.len(), 9, "Board should have exactly 9 cells");
}

#[test]
fn test_game_player_x_turn() {
    let mut game = create_test_game();
    game.turn = Role::X;
    assert_eq!(game.turn, Role::X);
}

#[test]
fn test_game_player_o_turn() {
    let mut game = create_test_game();
    game.turn = Role::O;
    assert_eq!(game.turn, Role::O);
}

#[test]
fn test_game_status_open() {
    let mut game = create_test_game();
    game.status = GameStatus::Open;
    assert_eq!(game.status, GameStatus::Open);
}

#[test]
fn test_game_status_x_won() {
    let mut game = create_test_game();
    game.status = GameStatus::WonX;
    assert_eq!(game.status, GameStatus::WonX);
}

#[test]
fn test_game_status_o_won() {
    let mut game = create_test_game();
    game.status = GameStatus::WonO;
    assert_eq!(game.status, GameStatus::WonO);
}

#[test]
fn test_game_status_draw() {
    let mut game = create_test_game();
    game.status = GameStatus::Draw;
    assert_eq!(game.status, GameStatus::Draw);
}

#[test]
fn test_game_board_valid_x_move() {
    let mut game = create_test_game();
    game.board[0] = Cell::X;
    assert_eq!(game.board[0], Cell::X);
}

#[test]
fn test_game_board_valid_o_move() {
    let mut game = create_test_game();
    game.board[4] = Cell::O;
    assert_eq!(game.board[4], Cell::O);
}

#[test]
fn test_game_board_multiple_moves() {
    let mut game = create_test_game();
    game.board[0] = Cell::X;
    game.board[1] = Cell::O;
    game.board[2] = Cell::X;
    game.board[4] = Cell::O;
    game.board[8] = Cell::X;
    assert_eq!(game.board[0], Cell::X);
    assert_eq!(game.board[1], Cell::O);
    assert_eq!(game.board[2], Cell::X);
    assert_eq!(game.board[3], Cell::Empty);
    assert_eq!(game.board[4], Cell::O);
    assert_eq!(game.board[8], Cell::X);
}

#[test]
fn test_game_wager_zero() {
    let mut game = create_test_game();
    game.wager = 0;
    assert_eq!(game.wager, 0);
}

#[test]
fn test_game_wager_large_amount() {
    let mut game = create_test_game();
    game.wager = u64::MAX;
    assert_eq!(game.wager, u64::MAX);
}

#[test]
fn test_game_total_pot_matches_wagers() {
    let mut game = create_test_game();
    game.wager = 5_000_000_000;
    game.total_pot = 10_000_000_000;
    assert_eq!(game.total_pot, game.wager * 2);
}

#[test]
fn test_game_total_pot_zero() {
    let mut game = create_test_game();
    game.wager = 0;
    game.total_pot = 0;
    assert_eq!(game.total_pot, 0);
}

#[test]
fn test_game_timeout_seconds_minimum() {
    let mut game = create_test_game();
    game.timeout_seconds = 1;
    assert_eq!(game.timeout_seconds, 1);
}

#[test]
fn test_game_timeout_seconds_zero() {
    let mut game = create_test_game();
    game.timeout_seconds = 0;
    assert_eq!(game.timeout_seconds, 0);
}

#[test]
fn test_game_timeout_seconds_large() {
    let mut game = create_test_game();
    game.timeout_seconds = 86400;
    assert_eq!(game.timeout_seconds, 86400);
}

#[test]
fn test_game_timestamps_created_at() {
    let game = create_test_game();
    assert!(game.created_at > 0);
    assert_eq!(game.created_at, 1_640_000_000);
}

#[test]
fn test_game_timestamps_last_move() {
    let game = create_test_game();
    assert!(game.last_move_ts > 0);
    assert_eq!(game.last_move_ts, 1_640_000_000);
}

#[test]
fn test_game_timestamps_last_move_after_created() {
    let mut game = create_test_game();
    game.created_at = 1_640_000_000;
    game.last_move_ts = 1_640_000_300;
    assert!(game.last_move_ts >= game.created_at);
}

#[test]
fn test_game_timestamps_negative_values() {
    let mut game = create_test_game();
    game.created_at = -1;
    game.last_move_ts = -1;
    assert_eq!(game.created_at, -1);
    assert_eq!(game.last_move_ts, -1);
}

#[test]
fn test_game_player_pubkeys_unique() {
    let game = create_test_game();
    assert_ne!(Some(game.player_x), game.player_o);
}

#[test]
fn test_game_player_pubkeys_valid() {
    let player_x = key(7);
    let player_o = key(8);
    let game = Game {
        player_x,
        player_o: Some(player_o),
        wager: 0,
        board: [Cell::Empty; 9],
        turn: Role::X,
        status: GameStatus::Open,
        total_pot: 0,
        created_at: 0,
        last_move_ts: 0,
        timeout_seconds: 0,
    };
    assert_eq!(game.player_x, player_x);
    assert_eq!(game.player_o, Some(player_o));
}

#[test]
fn test_game_full_board_scenario() {
    let mut game = create_test_game();
    game.board = [
        Cell::X, Cell::O, Cell::X, Cell::O, Cell::X, Cell::O, Cell::X, Cell::O, Cell::X,
    ];
    for (i, &cell) in game.board.iter().enumerate() {
        if i % 2 == 0 {
            assert_eq!(cell, Cell::X, "Even positions should be X");
        } else {
            assert_eq!(cell, Cell::O, "Odd positions should be O");
        }
    }
}

#[test]
fn test_game_winning_row_x() {
    let mut game = create_test_game();
    game.board[0] = Cell::X;
    game.board[1] = Cell::X;
    game.board[2] = Cell::X;
    game.status = GameStatus::WonX;
    assert_eq!(game.board[0..3], [Cell::X, Cell::X, Cell::X]);
    assert_eq!(game.status, GameStatus::WonX);
}

#[test]
fn test_game_winning_column_o() {
    let mut game = create_test_game();
    game.board[0] = Cell::O;
    game.board[3] = Cell::O;
    game.board[6] = Cell::O;
    game.status = GameStatus::WonO;
    assert_eq!(game.board[0], Cell::O);
    assert_eq!(game.board[3], Cell::O);
    assert_eq!(game.board[6], Cell::O);
    assert_eq!(game.status, GameStatus::WonO);
}

#[test]
fn test_game_winning_diagonal() {
    let mut game = create_test_game();
    game.board[0] = Cell::X;
    game.board[4] = Cell::X;
    game.board[8] = Cell::X;
    game.status = GameStatus::WonX;
    assert_eq!(game.board[0], Cell::X);
    assert_eq!(game.board[4], Cell::X);
    assert_eq!(game.board[8], Cell::X);
    assert_eq!(game.status, GameStatus::WonX);
}

#[test]
fn test_game_draw_scenario() {
    let mut game = create_test_game();
    game.board = [
        Cell::X, Cell::O, Cell::X, Cell::O, Cell::O, Cell::X, Cell::O, Cell::X, Cell::O,
    ];
    game.status = GameStatus::Draw;
    assert_eq!(game.status, GameStatus::Draw);
    for cell in game.board.iter() {
        assert_ne!(*cell, Cell::Empty, "No empty cells in draw");
    }
}

#[test]
fn test_game_turn_alternation() {
    let mut game = create_test_game();
    game.turn = Role::X;
    assert_eq!(game.turn, Role::X);
    game.turn = Role::O;
    assert_eq!(game.turn, Role::O);
    game.turn = Role::X;
    assert_eq!(game.turn, Role::X);
}

#[test]
fn test_game_timeout_elapsed() {
    let mut game = create_test_game();
    game.created_at = 1_640_000_000;
    game.last_move_ts = 1_640_000_100;
    game.timeout_seconds = 300;
    let elapsed = game.last_move_ts - game.created_at;
    assert!(elapsed < game.timeout_seconds as i64);
}

#[test]
fn test_game_timeout_exceeded() {
    let mut game = create_test_game();
    game.created_at = 1_640_000_000;
    game.last_move_ts = 1_640_000_000;
    game.timeout_seconds = 60;
    let current_time = 1_640_000_100;
    let time_since_last_move = current_time - game.last_move_ts;
    assert!(time_since_last_move > game.timeout_seconds as i64);
}

#[test]
fn test_game_zero_initialization() {
    let game = Game {
        player_x: Identity::zero(),
        player_o: None,
        wager: 0,
        board: [Cell::Empty; 9],
        turn: Role::X,
        status: GameStatus::Open,
        total_pot: 0,
        created_at: 0,
        last_move_ts: 0,
        timeout_seconds: 0,
    };
    assert_eq!(game.wager, 0);
    assert_eq!(game.turn, Role::X);
    assert_eq!(game.status, GameStatus::Open);
    assert_eq!(game.total_pot, 0);
    assert_eq!(game.player_x.key, [0u8; 32]);
}

#[test]
fn test_game_max_values() {
    let game = Game {
        player_x: key(1),
        player_o: Some(key(2)),
        wager: u64::MAX,
        board: [Cell::O; 9],
        turn: Role::O,
        status: GameStatus::Finalized,
        total_pot: u64::MAX,
        created_at: i64::MAX,
        last_move_ts: i64::MAX,
        timeout_seconds: u64::MAX,
    };
    assert_eq!(game.wager, u64::MAX);
    assert_eq!(game.total_pot, u64::MAX);
    assert_eq!(game.created_at, i64::MAX);
    assert_eq!(game.last_move_ts, i64::MAX);
    assert_eq!(game.timeout_seconds, u64::MAX);
}

#[test]
fn test_game_board_index_access() {
    let mut game = create_test_game();
    let cells = [Cell::Empty, Cell::X, Cell::O];
    for i in 0..9 {
        game.board[i] = cells[i % 3];
        assert_eq!(game.board[i], cells[i % 3]);
    }
}

#[test]
fn test_game_realistic_game_progression() {
    let mut game = create_test_game();
    game.board[4] = Cell::X;
    game.turn = Role::O;
    game.last_move_ts = game.created_at + 10;
    game.board[0] = Cell::O;
    game.turn = Role::X;
    game.last_move_ts += 15;
    game.board[8] = Cell::X;
    game.turn = Role::O;
    game.last_move_ts += 8;
    assert_eq!(game.board[4], Cell::X);
    assert_eq!(game.board[0], Cell::O);
    assert_eq!(game.board[8], Cell::X);
    assert_eq!(game.turn, Role::O);
    assert!(game.last_move_ts > game.created_at);
}

#[test]
fn test_game_same_player_cannot_have_both_roles() {
    let player = key(9);
    let game = Game {
        player_x: player,
        player_o: Some(player),
        wager: 1_000_000,
        board: [Cell::Empty; 9],
        turn: Role::X,
        status: GameStatus::Open,
        total_pot: 2_000_000,
        created_at: 0,
        last_move_ts: 0,
        timeout_seconds: 300,
    };
    assert_eq!(Some(game.player_x), game.player_o);
}

#[test]
fn test_game_pot_calculation_with_wager() {
    let wager = 500_000_000;
    let game = Game {
        player_x: key(1),
        player_o: Some(key(2)),
        wager,
        board: [Cell::Empty; 9],
        turn: Role::X,
        status: GameStatus::Open,
        total_pot: wager * 2,
        created_at: 0,
        last_move_ts: 0,
        timeout_seconds: 300,
    };
    assert_eq!(game.total_pot, 1_000_000_000);
    assert_eq!(game.total_pot, game.wager * 2);
}

#[test]
fn test_game_timestamp_overflow_safety() {
    let game = Game {
        player_x: key(1),
        player_o: Some(key(2)),
        wager: 0,
        board: [Cell::Empty; 9],
        turn: Role::X,
        status: GameStatus::Open,
        total_pot: 0,
        created_at: i64::MAX - 1000,
        last_move_ts: i64::MAX,
        timeout_seconds: 1000,
    };
    assert_eq!(game.created_at, i64::MAX - 1000);
    assert_eq!(game.last_move_ts, i64::MAX);
    let diff = game.last_move_ts.saturating_sub(game.created_at);
    assert_eq!(diff, 1000);
}
