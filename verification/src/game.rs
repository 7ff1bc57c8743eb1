//! The four operations on a game: create, join, commit and finalize.
//!
//! Each one is a single step on one record. A step that is refused leaves
//! the record exactly as it was.

use vstd::prelude::*;
use vstd::utf8::encode_utf8;
use crate::bytes::{all_zero, is_all_zero, lemma_zeroes, zeroes};
use crate::hash::{commitment, committed, preimage, sha256};
use crate::identity::{slot_holds, Identity};
use crate::outcome::{decide_winner, handle_payout, outcome, settlement};
use crate::state::{
    CreateGame, ErrorCode, GameState, GameStatus, JoinGame, Payout, ReadyUp, SelectMove,
};

verus! {

/// The record of a game that `creator` has just opened with `wager`:
/// open, no opponent, nothing committed, nobody ready, one wager in escrow.
pub open spec fn opened(creator: Identity, wager: u64, bump: u8) -> GameState {
    GameState {
        creator,
        opponent: None,
        creator_move_hashed: zeroes(),
        joiner_move_hashed: zeroes(),
        creator_ready: false,
        joiner_ready: false,
        wager,
        status: GameStatus::Open,
        bump,
        escrow: wager as u128,
    }
}

/// Why no game can be opened in `place`, if so: it holds one already,
/// whatever has become of it.
pub open spec fn create_refusal(place: Option<GameState>) -> Option<ErrorCode> {
    if place is Some {
        Some(ErrorCode::GameAlreadyExists)
    } else {
        None
    }
}

/// What `place` holds after `creator` has asked to open a game with `wager`
/// in it: the record that was there, or else a freshly opened one.
pub open spec fn after_create(
    place: Option<GameState>,
    creator: Identity,
    wager: u64,
    bump: u8,
) -> Option<GameState> {
    if create_refusal(place) is Some {
        place
    } else {
        Some(opened(creator, wager, bump))
    }
}

/// Create: the party `ctx.creator` opens a game with `wager`.
///
/// Refused with `GameAlreadyExists` when the place holds a record already,
/// in whatever status; the record is kept as it is. In a free place the
/// record of a freshly opened game is made, with the creator's wager in
/// escrow.
pub fn create_game(ctx: &mut CreateGame, wager: u64) -> (r: Result<(), ErrorCode>)
    ensures
        final(ctx).creator == old(ctx).creator,
        final(ctx).bump == old(ctx).bump,
        final(ctx).game_account == after_create(
            old(ctx).game_account,
            old(ctx).creator,
            wager,
            old(ctx).bump,
        ),
        old(ctx).game_account is None ==> final(ctx).game_account->0.wf(),
        match create_refusal(old(ctx).game_account) {
            Some(e) => r == Err::<(), ErrorCode>(e) && *final(ctx) == *old(ctx),
            None => r == Ok::<(), ErrorCode>(()),
        },
{
    if ctx.game_account.is_some() {
        return Err(ErrorCode::GameAlreadyExists);
    }
    let mut escrow: u128 = 0;
    if wager > 0 {
        escrow = wager as u128;
    }
    proof {
        lemma_zeroes(zeroes());
    }
    ctx.game_account = Some(
        GameState {
            creator: ctx.creator,
            opponent: None,
            creator_move_hashed: [0u8; 32],
            joiner_move_hashed: [0u8; 32],
            creator_ready: false,
            joiner_ready: false,
            wager,
            status: GameStatus::Open,
            bump: ctx.bump,
            escrow,
        },
    );
    Ok(())
}

/// Why `joiner` may not join `game`, if so: the game is not open, or the
/// creator tries to play against themself.
pub open spec fn join_refusal(game: GameState, joiner: Identity) -> Option<ErrorCode> {
    if game.status != GameStatus::Open {
        Some(ErrorCode::GameNotOpen)
    } else if game.is_creator(joiner) {
        Some(ErrorCode::Unauthorized)
    } else {
        None
    }
}

/// The record after `joiner` has asked to join `game`.
pub open spec fn after_join(game: GameState, joiner: Identity) -> GameState {
    if join_refusal(game, joiner) is Some {
        game
    } else {
        GameState {
            opponent: Some(joiner),
            status: GameStatus::Committed,
            escrow: (game.escrow + game.wager) as u128,
            ..game
        }
    }
}

/// Join: the party `ctx.joiner` takes the open seat.
///
/// Refused with `GameNotOpen` unless the game is open, else with
/// `Unauthorized` when the creator tries to join their own game. Otherwise
/// the joiner becomes the opponent, the status becomes `Committed`, and a
/// second wager enters the escrow.
pub fn join_game(ctx: &mut JoinGame) -> (r: Result<(), ErrorCode>)
    requires
        old(ctx).game_account.wf(),
    ensures
        final(ctx).joiner == old(ctx).joiner,
        final(ctx).game_account == after_join(old(ctx).game_account, old(ctx).joiner),
        final(ctx).game_account.wf(),
        match join_refusal(old(ctx).game_account, old(ctx).joiner) {
            Some(e) => r == Err::<(), ErrorCode>(e),
            None => r == Ok::<(), ErrorCode>(()),
        },
{
    match ctx.game_account.status {
        GameStatus::Open => {},
        _ => {
            return Err(ErrorCode::GameNotOpen);
        },
    }
    if ctx.joiner == ctx.game_account.creator {
        return Err(ErrorCode::Unauthorized);
    }
    ctx.game_account.opponent = Some(ctx.joiner);
    ctx.game_account.status = GameStatus::Committed;
    let wager: u64 = ctx.game_account.wager;
    if wager > 0 {
        ctx.game_account.escrow = ctx.game_account.escrow + wager as u128;
    }
    Ok(())
}

/// Why `player` may not commit in `game`, if so: a stranger is turned away
/// first, then anybody once the game has ended.
pub open spec fn commit_refusal(game: GameState, player: Identity) -> Option<ErrorCode> {
    if !game.is_party(player) {
        Some(ErrorCode::Unauthorized)
    } else if game.status == GameStatus::Ended {
        Some(ErrorCode::GameAlreadyEnded)
    } else {
        None
    }
}

/// Whether a commitment handed in by `player` is taken: the player may
/// commit and has not committed before. The first commitment stands.
pub open spec fn commit_taken(game: GameState, player: Identity) -> bool {
    commit_refusal(game, player) is None && all_zero(game.commitment_of(player))
}

/// The record after `player` has handed in `digest` as a commitment.
pub open spec fn after_commit(game: GameState, player: Identity, digest: [u8; 32]) -> GameState {
    if !commit_taken(game, player) {
        game
    } else if game.is_creator(player) {
        GameState { creator_move_hashed: digest, ..game }
    } else {
        GameState { joiner_move_hashed: digest, ..game }
    }
}

/// Stores `digest` as the commitment of `player`.
///
/// Refused with `Unauthorized` for anybody but the two parties, else with
/// `GameAlreadyEnded` on an ended game. A party commits once: while its
/// commitment is still unset, `digest` is stored and `true` returned; after
/// that the stored commitment stands, and `false` is returned.
pub fn record_commitment(game: &mut GameState, player: Identity, digest: [u8; 32]) -> (r: Result<
    bool,
    ErrorCode,
>)
    requires
        old(game).wf(),
    ensures
        *final(game) == after_commit(*old(game), player, digest),
        final(game).wf(),
        match commit_refusal(*old(game), player) {
            Some(e) => r == Err::<bool, ErrorCode>(e),
            None => r == Ok::<bool, ErrorCode>(commit_taken(*old(game), player)),
        },
{
    let is_creator = player == game.creator;
    let is_opponent = slot_holds(&game.opponent, &player);
    if !is_creator && !is_opponent {
        return Err(ErrorCode::Unauthorized);
    }
    match game.status {
        GameStatus::Ended => {
            return Err(ErrorCode::GameAlreadyEnded);
        },
        _ => {},
    }
    if is_creator {
        if !is_all_zero(&game.creator_move_hashed) {
            return Ok(false);
        }
        game.creator_move_hashed = digest;
    } else {
        if !is_all_zero(&game.joiner_move_hashed) {
            return Ok(false);
        }
        game.joiner_move_hashed = digest;
    }
    Ok(true)
}

/// Commit: the party `ctx.player` commits to `original_move` (0 for rock,
/// 1 for paper, 2 for scissors) under `salt`.
///
/// The commitment is the SHA-256 digest of the move's byte followed by the
/// salt's bytes; neither the move nor the salt is kept. What happens to the
/// commitment is what `record_commitment` says: a stranger is refused, an
/// ended game refuses, and a party's first commitment stands.
pub fn select_move(ctx: &mut SelectMove, original_move: u8, salt: String) -> (r: Result<
    bool,
    ErrorCode,
>)
    requires
        old(ctx).game_account.wf(),
    ensures
        final(ctx).player == old(ctx).player,
        final(ctx).game_account == after_commit(
            old(ctx).game_account,
            old(ctx).player,
            committed(original_move, encode_utf8(salt@)),
        ),
        committed(original_move, encode_utf8(salt@))@ == sha256(
            preimage(original_move, encode_utf8(salt@)),
        ),
        final(ctx).game_account.wf(),
        match commit_refusal(old(ctx).game_account, old(ctx).player) {
            Some(e) => r == Err::<bool, ErrorCode>(e),
            None => r == Ok::<bool, ErrorCode>(
                commit_taken(old(ctx).game_account, old(ctx).player),
            ),
        },
{
    let digest = commitment(original_move, salt.as_str().as_bytes());
    record_commitment(&mut ctx.game_account, ctx.player, digest)
}

/// Why `player` may not declare readiness in `game`, if so. An ended game
/// refuses everybody; then a stranger is turned away; then a party that has
/// not committed.
pub open spec fn ready_refusal(game: GameState, player: Identity) -> Option<ErrorCode> {
    if game.status == GameStatus::Ended {
        Some(ErrorCode::GameAlreadyEnded)
    } else if !game.is_party(player) {
        Some(ErrorCode::Unauthorized)
    } else if all_zero(game.commitment_of(player)) {
        Some(ErrorCode::MoveNotSelected)
    } else {
        None
    }
}

/// `game` with the readiness flag of `player` set.
pub open spec fn marked_ready(game: GameState, player: Identity) -> GameState {
    if game.is_creator(player) {
        GameState { creator_ready: true, ..game }
    } else {
        GameState { joiner_ready: true, ..game }
    }
}

/// Whether the readiness of `player` completes `game`: it is accepted and
/// the other party is ready already.
pub open spec fn resolves(game: GameState, player: Identity) -> bool {
    let marked = marked_ready(game, player);
    ready_refusal(game, player) is None && marked.creator_ready && marked.joiner_ready
}

/// The record after `player` has declared readiness in `game`. When that
/// completes the game, the record ends with an empty escrow.
pub open spec fn after_ready_up(game: GameState, player: Identity) -> GameState {
    if ready_refusal(game, player) is Some {
        game
    } else if resolves(game, player) {
        GameState { status: GameStatus::Ended, escrow: 0, ..marked_ready(game, player) }
    } else {
        marked_ready(game, player)
    }
}

/// What is paid when the readiness of `player` completes `game`: the whole
/// escrow, by the outcome that the two commitments give.
pub open spec fn payout_of(game: GameState) -> Payout {
    settlement(outcome(game.creator_move_hashed[0], game.joiner_move_hashed[0]), game.escrow)
}

/// Finalize: the party `ctx.player` declares readiness.
///
/// Refused with `GameAlreadyEnded` on an ended game, else with `Unauthorized`
/// for anybody but the two parties, else with `MoveNotSelected` while the
/// party has not committed. Otherwise the party's flag is set. If both
/// parties are then ready, the game is decided and settled in the same step:
/// the status becomes `Ended`, the escrow is emptied and the payout is
/// returned. If not, `None` is returned and the status stays.
pub fn ready_up(ctx: &mut ReadyUp) -> (r: Result<Option<Payout>, ErrorCode>)
    requires
        old(ctx).game_account.wf(),
    ensures
        final(ctx).player == old(ctx).player,
        final(ctx).game_account == after_ready_up(old(ctx).game_account, old(ctx).player),
        final(ctx).game_account.wf(),
        match ready_refusal(old(ctx).game_account, old(ctx).player) {
            Some(e) => r == Err::<Option<Payout>, ErrorCode>(e),
            None => r == Ok::<Option<Payout>, ErrorCode>(
                if resolves(old(ctx).game_account, old(ctx).player) {
                    Some(payout_of(old(ctx).game_account))
                } else {
                    None
                },
            ),
        },
{
    match ctx.game_account.status {
        GameStatus::Ended => {
            return Err(ErrorCode::GameAlreadyEnded);
        },
        _ => {},
    }
    let is_creator = ctx.player == ctx.game_account.creator;
    let is_opponent = slot_holds(&ctx.game_account.opponent, &ctx.player);
    if is_creator {
        if is_all_zero(&ctx.game_account.creator_move_hashed) {
            return Err(ErrorCode::MoveNotSelected);
        }
        ctx.game_account.creator_ready = true;
    } else if is_opponent {
        if is_all_zero(&ctx.game_account.joiner_move_hashed) {
            return Err(ErrorCode::MoveNotSelected);
        }
        ctx.game_account.joiner_ready = true;
    } else {
        return Err(ErrorCode::Unauthorized);
    }
    if ctx.game_account.creator_ready && ctx.game_account.joiner_ready {
        let winner = match decide_winner(
            ctx.game_account.creator_move_hashed,
            ctx.game_account.joiner_move_hashed,
        ) {
            Ok(w) => w,
            Err(e) => {
                return Err(e);
            },
        };
        let paid = match handle_payout(winner, &mut ctx.game_account) {
            Ok(p) => p,
            Err(e) => {
                return Err(e);
            },
        };
        ctx.game_account.status = GameStatus::Ended;
        Ok(Some(paid))
    } else {
        Ok(None)
    }
}

} // verus!
