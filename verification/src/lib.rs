//! A two-party, stake-backed Rock-Paper-Scissors game played by commitment:
//! the record of one game, the four operations that drive it from `Open`
//! through `Committed` to `Ended`, and the rule that settles the escrow.

pub mod bytes;
pub mod game;
pub mod hash;
pub mod identity;
pub mod laws;
pub mod outcome;
pub mod state;
pub mod table;

pub use game::{create_game, join_game, ready_up, record_commitment, select_move};
pub use hash::commitment;
pub use identity::Identity;
pub use outcome::{decide_winner, handle_payout};
pub use state::{
    CreateGame, ErrorCode, GameState, GameStatus, JoinGame, Payout, RPSResult, ReadyUp, SelectMove,
};
pub use table::GameTable;
