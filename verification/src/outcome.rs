//! The outcome of a game, read off the two commitments, and the settlement
//! of the escrow that follows from it.

use vstd::prelude::*;
use crate::state::{ErrorCode, GameState, Payout, RPSResult};

verus! {

/// The outcome for two leading commitment bytes. Each byte stands for the
/// value that it leaves modulo 3. Equal values tie; otherwise the creator
/// wins exactly when the creator's value is the one that follows the
/// joiner's in the cycle 0, 1, 2, 0.
pub open spec fn outcome(creator_byte: u8, joiner_byte: u8) -> RPSResult {
    let x = creator_byte as int % 3;
    let y = joiner_byte as int % 3;
    if x == y {
        RPSResult::Tie
    } else if x == (y + 1) % 3 {
        RPSResult::CreatorWins
    } else {
        RPSResult::JoinerWins
    }
}

/// What each party is paid out of a pot: all of it to the winner, or half
/// each on a tie. Should the pot be odd, the opponent's half is the larger.
pub open spec fn settlement(result: RPSResult, pot: u128) -> Payout {
    match result {
        RPSResult::CreatorWins => Payout { result, creator_amount: pot, opponent_amount: 0 },
        RPSResult::JoinerWins => Payout { result, creator_amount: 0, opponent_amount: pot },
        RPSResult::Tie => Payout {
            result,
            creator_amount: pot / 2,
            opponent_amount: (pot - pot / 2) as u128,
        },
    }
}

/// Decides the game from the two stored commitments: only the first byte of
/// each counts, modulo 3. Never fails.
pub fn decide_winner(creator_move_hashed: [u8; 32], joiner_move_hashed: [u8; 32]) -> (r: Result<
    RPSResult,
    ErrorCode,
>)
    ensures
        r == Ok::<RPSResult, ErrorCode>(outcome(creator_move_hashed[0], joiner_move_hashed[0])),
{
    let x: u8 = creator_move_hashed[0] % 3;
    let y: u8 = joiner_move_hashed[0] % 3;
    if x == y {
        Ok(RPSResult::Tie)
    } else if (x == 0 && y == 2) || (x == 1 && y == 0) || (x == 2 && y == 1) {
        Ok(RPSResult::CreatorWins)
    } else {
        Ok(RPSResult::JoinerWins)
    }
}

/// Settles the game: empties the escrow and says what is credited to whom.
/// Nothing else in the record changes. Never fails.
pub fn handle_payout(winner: RPSResult, game_account: &mut GameState) -> (r: Result<
    Payout,
    ErrorCode,
>)
    ensures
        r == Ok::<Payout, ErrorCode>(settlement(winner, old(game_account).escrow)),
        *final(game_account) == (GameState { escrow: 0, ..*old(game_account) }),
{
    let pot: u128 = game_account.escrow;
    let half: u128 = pot / 2;
    game_account.escrow = 0;
    match winner {
        RPSResult::CreatorWins => Ok(
            Payout { result: winner, creator_amount: pot, opponent_amount: 0 },
        ),
        RPSResult::JoinerWins => Ok(
            Payout { result: winner, creator_amount: 0, opponent_amount: pot },
        ),
        RPSResult::Tie => Ok(
            Payout { result: winner, creator_amount: half, opponent_amount: pot - half },
        ),
    }
}

} // verus!
