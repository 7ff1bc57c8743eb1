//! The record of one game and the values that the operations exchange.

use vstd::prelude::*;
use crate::bytes::{all_zero, is_all_zero};
use crate::identity::{slot_holds, Identity};

verus! {

/// Where a game stands. A game only ever moves forward:
/// `Open`, then `Committed`, then `Ended`.
#[derive(Clone, Copy, Debug, PartialEq, Eq, Structural)]
pub enum GameStatus {
    /// Created, waiting for a second party.
    Open,
    /// Both parties are in; commitments and readiness are being collected.
    Committed,
    /// Resolved and settled. Nothing changes any more.
    Ended,
}

/// How a game came out.
#[derive(Clone, Copy, Debug, PartialEq, Eq, Structural)]
pub enum RPSResult {
    CreatorWins,
    JoinerWins,
    Tie,
}

/// Why an operation was refused. A refused operation leaves the record as it was.
#[derive(Clone, Copy, Debug, PartialEq, Eq, Structural)]
pub enum ErrorCode {
    /// The game is not open for joining.
    GameNotOpen,
    /// The player has not selected a move.
    MoveNotSelected,
    /// Unauthorized action.
    Unauthorized,
    /// Game has already ended.
    GameAlreadyEnded,
    /// A game of this creator with this wager exists already.
    GameAlreadyExists,
}

impl ErrorCode {
    /// The text that goes with this refusal.
    pub open spec fn text(&self) -> Seq<char> {
        match self {
            ErrorCode::GameNotOpen => "The game is not open for joining."@,
            ErrorCode::MoveNotSelected => "The player has not selected a move."@,
            ErrorCode::Unauthorized => "Unauthorized action."@,
            ErrorCode::GameAlreadyEnded => "Game has already ended."@,
            ErrorCode::GameAlreadyExists => {
                "A game of this creator with this wager exists already."@
            },
        }
    }

    /// The text that goes with this refusal.
    pub fn message(&self) -> (r: &'static str)
        ensures
            r@ == self.text(),
    {
        match self {
            ErrorCode::GameNotOpen => "The game is not open for joining.",
            ErrorCode::MoveNotSelected => "The player has not selected a move.",
            ErrorCode::Unauthorized => "Unauthorized action.",
            ErrorCode::GameAlreadyEnded => "Game has already ended.",
            ErrorCode::GameAlreadyExists => {
                "A game of this creator with this wager exists already."
            },
        }
    }
}

/// What settlement pays out of the escrow, and on which outcome.
#[derive(Clone, Copy, Debug, PartialEq, Eq, Structural)]
pub struct Payout {
    pub result: RPSResult,
    /// Credited to the creator.
    pub creator_amount: u128,
    /// Credited to the opponent.
    pub opponent_amount: u128,
}

/// The record of one game.
///
/// A commitment of thirty-two zero bytes means that the party has not
/// committed yet. `escrow` is the balance that the record holds for the two
/// parties; it is wide enough for twice any wager.
#[derive(Clone, Copy, Debug, PartialEq, Eq)]
pub struct GameState {
    pub creator: Identity,
    pub opponent: Option<Identity>,
    pub creator_move_hashed: [u8; 32],
    pub joiner_move_hashed: [u8; 32],
    pub creator_ready: bool,
    pub joiner_ready: bool,
    pub wager: u64,
    pub status: GameStatus,
    pub bump: u8,
    pub escrow: u128,
}

/// The escrow that a record with the given wager holds in the given status:
/// one wager while open, two once joined, nothing after settlement.
pub open spec fn escrow_due(status: GameStatus, wager: u64) -> int {
    match status {
        GameStatus::Open => wager as int,
        GameStatus::Committed => 2 * (wager as int),
        GameStatus::Ended => 0,
    }
}

/// The escrow that a record with the given wager holds in the given status.
pub fn escrow_for(status: GameStatus, wager: u64) -> (due: u128)
    ensures
        due == escrow_due(status, wager),
{
    match status {
        GameStatus::Open => wager as u128,
        GameStatus::Committed => 2 * (wager as u128),
        GameStatus::Ended => 0,
    }
}

impl GameState {
    /// Bytes that the stored fields of a record take, `escrow` aside: the
    /// balance is kept by the ledger, not in the record's data.
    pub const MAX_SIZE: usize = 32 + 1 + 32 + 32 + 32 + 1 + 1 + 8 + 1 + 1;

    /// The invariant of a record:
    /// it is open exactly while it has no opponent; nobody plays against
    /// themself; a seat that nobody took has neither a commitment nor a
    /// readiness flag; a party is ready only with a commitment in place; the
    /// game has ended exactly when both are ready; and the escrow is what the
    /// status calls for.
    pub open spec fn wf(&self) -> bool {
        &&& (self.status == GameStatus::Open <==> self.opponent is None)
        &&& self.opponent != Some(self.creator)
        &&& (self.opponent is None ==> all_zero(self.joiner_move_hashed))
        &&& (self.creator_ready ==> !all_zero(self.creator_move_hashed))
        &&& (self.joiner_ready ==> !all_zero(self.joiner_move_hashed))
        &&& (self.status == GameStatus::Ended <==> self.creator_ready && self.joiner_ready)
        &&& self.escrow == escrow_due(self.status, self.wager)
    }

    /// Whether `who` created this game.
    pub open spec fn is_creator(&self, who: Identity) -> bool {
        who == self.creator
    }

    /// Whether `who` joined this game as the opponent.
    pub open spec fn is_opponent(&self, who: Identity) -> bool {
        self.opponent == Some(who)
    }

    /// Whether `who` is one of the two parties of this game.
    pub open spec fn is_party(&self, who: Identity) -> bool {
        self.is_creator(who) || self.is_opponent(who)
    }

    /// The commitment that `who` has in this record: the creator's own if
    /// `who` created the game, else the joiner's.
    pub open spec fn commitment_of(&self, who: Identity) -> [u8; 32] {
        if self.is_creator(who) {
            self.creator_move_hashed
        } else {
            self.joiner_move_hashed
        }
    }

    /// Whether this record satisfies its invariant.
    pub fn is_valid(&self) -> (r: bool)
        ensures
            r == self.wf(),
    {
        let open = match self.status {
            GameStatus::Open => true,
            _ => false,
        };
        let ended = match self.status {
            GameStatus::Ended => true,
            _ => false,
        };
        let due: u128 = escrow_for(self.status, self.wager);
        let creator_unset = is_all_zero(&self.creator_move_hashed);
        let joiner_unset = is_all_zero(&self.joiner_move_hashed);
        open == self.opponent.is_none()
            && !slot_holds(&self.opponent, &self.creator)
            && (self.opponent.is_some() || joiner_unset)
            && (!self.creator_ready || !creator_unset)
            && (!self.joiner_ready || !joiner_unset)
            && ended == (self.creator_ready && self.joiner_ready)
            && self.escrow == due
    }
}

/// What `create_game` works on: the place that belongs to the creator and
/// the wager, the party that opens the game, and the bump of the place's
/// derived address. The place is `None` while no game was opened in it, and
/// holds the record from then on.
#[derive(Clone, Copy, Debug, PartialEq, Eq)]
pub struct CreateGame {
    pub game_account: Option<GameState>,
    pub creator: Identity,
    pub bump: u8,
}

/// What `join_game` works on: the record and the party that joins.
#[derive(Clone, Copy, Debug, PartialEq, Eq)]
pub struct JoinGame {
    pub game_account: GameState,
    pub joiner: Identity,
}

/// What `select_move` works on: the record and the party that commits.
#[derive(Clone, Copy, Debug, PartialEq, Eq)]
pub struct SelectMove {
    pub game_account: GameState,
    pub player: Identity,
}

/// What `ready_up` works on: the record and the party that is ready.
#[derive(Clone, Copy, Debug, PartialEq, Eq)]
pub struct ReadyUp {
    pub game_account: GameState,
    pub player: Identity,
}

} // verus!
