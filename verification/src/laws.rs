//! What holds of the game as a whole, proved from the definitions that the
//! operations' contracts are stated in.

use vstd::prelude::*;
use crate::bytes::all_zero;
use crate::game::{
    after_commit, after_create, after_join, after_ready_up, commit_refusal, commit_taken,
    create_refusal, join_refusal, opened, payout_of, ready_refusal, resolves,
};
use crate::identity::Identity;
use crate::outcome::{outcome, settlement};
use crate::state::{ErrorCode, GameState, GameStatus, RPSResult};
use crate::table::{all_wf, distinct_keys, holds_key, keyed};

verus! {

/// The outcome follows the table of the nine pairs of values modulo 3:
/// equal values tie; 0 beats 2, 1 beats 0 and 2 beats 1 for the creator;
/// the three pairs that are left go to the joiner.
pub proof fn lemma_outcome_table(creator_byte: u8, joiner_byte: u8)
    ensures
        ({
            let x = creator_byte % 3;
            let y = joiner_byte % 3;
            let r = outcome(creator_byte, joiner_byte);
            &&& (x == 0 && y == 0 ==> r == RPSResult::Tie)
            &&& (x == 1 && y == 1 ==> r == RPSResult::Tie)
            &&& (x == 2 && y == 2 ==> r == RPSResult::Tie)
            &&& (x == 0 && y == 2 ==> r == RPSResult::CreatorWins)
            &&& (x == 1 && y == 0 ==> r == RPSResult::CreatorWins)
            &&& (x == 2 && y == 1 ==> r == RPSResult::CreatorWins)
            &&& (x == 0 && y == 1 ==> r == RPSResult::JoinerWins)
            &&& (x == 1 && y == 2 ==> r == RPSResult::JoinerWins)
            &&& (x == 2 && y == 0 ==> r == RPSResult::JoinerWins)
        }),
{
}

/// The outcome depends on the two bytes only through their values modulo 3.
pub proof fn lemma_outcome_by_residue(a: u8, b: u8, c: u8, d: u8)
    requires
        a % 3 == c % 3,
        b % 3 == d % 3,
    ensures
        outcome(a, b) == outcome(c, d),
{
}

/// Swapping the two commitments swaps the winner, and keeps a tie a tie.
pub proof fn lemma_outcome_swapped(a: u8, b: u8)
    ensures
        outcome(a, b) == RPSResult::Tie <==> outcome(b, a) == RPSResult::Tie,
        outcome(a, b) == RPSResult::CreatorWins <==> outcome(b, a) == RPSResult::JoinerWins,
{
}

/// Settlement pays out the whole pot, whatever the outcome; the winner
/// takes all of it, and on a tie an even pot is split into equal halves.
pub proof fn lemma_settlement_conserves(result: RPSResult, pot: u128)
    ensures
        settlement(result, pot).creator_amount + settlement(result, pot).opponent_amount == pot,
        settlement(result, pot).result == result,
        result == RPSResult::CreatorWins ==> settlement(result, pot).creator_amount == pot,
        result == RPSResult::JoinerWins ==> settlement(result, pot).opponent_amount == pot,
        result == RPSResult::Tie && pot % 2 == 0 ==> settlement(result, pot).creator_amount
            == settlement(result, pot).opponent_amount,
{
}

/// A game is opened in a free place only. Where the place holds a record,
/// in whatever status, opening is refused with `GameAlreadyExists` and the
/// record stays as it is: its status, its parties, its commitments, its
/// readiness flags and its escrow. In a free place a freshly opened game is
/// made, and it satisfies the invariant of a record.
pub proof fn lemma_create_needs_free_place(
    game: GameState,
    creator: Identity,
    wager: u64,
    bump: u8,
)
    ensures
        create_refusal(Some(game)) == Some(ErrorCode::GameAlreadyExists),
        after_create(Some(game), creator, wager, bump) == Some(game),
        create_refusal(None) is None,
        after_create(None, creator, wager, bump) == Some(opened(creator, wager, bump)),
        opened(creator, wager, bump).wf(),
{
    crate::bytes::lemma_zeroes(crate::bytes::zeroes());
}

/// A refused operation changes nothing: whenever opening, joining,
/// committing or declaring readiness is refused, the record afterwards is
/// the record before.
pub proof fn lemma_refusal_changes_nothing(
    place: Option<GameState>,
    game: GameState,
    who: Identity,
    wager: u64,
    bump: u8,
    digest: [u8; 32],
)
    ensures
        create_refusal(place) is Some ==> after_create(place, who, wager, bump) == place,
        join_refusal(game, who) is Some ==> after_join(game, who) == game,
        commit_refusal(game, who) is Some ==> after_commit(game, who, digest) == game,
        ready_refusal(game, who) is Some ==> after_ready_up(game, who) == game,
{
}

/// A commitment is set once. Once a party's commitment is in place, no
/// later commitment by anybody changes it; in particular a second one by
/// the same party leaves the record as the first one left it.
pub proof fn lemma_first_commitment_stands(
    game: GameState,
    player: Identity,
    first: [u8; 32],
    second: [u8; 32],
)
    requires
        game.wf(),
        !all_zero(first),
    ensures
        commit_taken(game, player) ==> after_commit(
            after_commit(game, player, first),
            player,
            second,
        ) == after_commit(game, player, first),
        commit_taken(game, player) ==> !commit_taken(after_commit(game, player, first), player),
        !all_zero(game.creator_move_hashed) ==> after_commit(
            game,
            player,
            second,
        ).creator_move_hashed == game.creator_move_hashed,
        !all_zero(game.joiner_move_hashed) ==> after_commit(
            game,
            player,
            second,
        ).joiner_move_hashed == game.joiner_move_hashed,
{
}

/// Joining and declaring readiness never touch a commitment.
pub proof fn lemma_commitments_kept(game: GameState, who: Identity)
    ensures
        after_join(game, who).creator_move_hashed == game.creator_move_hashed,
        after_join(game, who).joiner_move_hashed == game.joiner_move_hashed,
        after_ready_up(game, who).creator_move_hashed == game.creator_move_hashed,
        after_ready_up(game, who).joiner_move_hashed == game.joiner_move_hashed,
{
}

/// Somebody who is neither the creator nor the opponent cannot commit: the
/// attempt is refused as unauthorized and the record stays as it was.
pub proof fn lemma_stranger_cannot_commit(game: GameState, stranger: Identity, digest: [u8; 32])
    requires
        !game.is_party(stranger),
    ensures
        commit_refusal(game, stranger) == Some(ErrorCode::Unauthorized),
        after_commit(game, stranger, digest) == game,
{
}

/// Somebody who is neither the creator nor the opponent cannot declare
/// readiness: the attempt is refused and the record stays as it was. While
/// the game has not ended the refusal is `Unauthorized`; an ended game
/// answers everybody with `GameAlreadyEnded`.
pub proof fn lemma_stranger_cannot_ready_up(game: GameState, stranger: Identity)
    requires
        !game.is_party(stranger),
    ensures
        ready_refusal(game, stranger) is Some,
        after_ready_up(game, stranger) == game,
        game.status != GameStatus::Ended ==> ready_refusal(game, stranger) == Some(
            ErrorCode::Unauthorized,
        ),
{
}

/// A game that is not open cannot be joined: the attempt is refused with
/// `GameNotOpen` and the record stays as it was.
pub proof fn lemma_join_needs_open(game: GameState, joiner: Identity)
    requires
        game.status != GameStatus::Open,
    ensures
        join_refusal(game, joiner) == Some(ErrorCode::GameNotOpen),
        after_join(game, joiner) == game,
{
}

/// An ended game is final: opening a game in its place is refused with
/// `GameAlreadyExists`, joining with `GameNotOpen`, declaring readiness with
/// `GameAlreadyEnded`, committing with `Unauthorized` or `GameAlreadyEnded`;
/// and none of them changes the record.
pub proof fn lemma_ended_is_final(
    game: GameState,
    who: Identity,
    wager: u64,
    bump: u8,
    digest: [u8; 32],
)
    requires
        game.status == GameStatus::Ended,
    ensures
        create_refusal(Some(game)) == Some(ErrorCode::GameAlreadyExists),
        after_create(Some(game), who, wager, bump) == Some(game),
        join_refusal(game, who) == Some(ErrorCode::GameNotOpen),
        ready_refusal(game, who) == Some(ErrorCode::GameAlreadyEnded),
        commit_refusal(game, who) == Some(
            if game.is_party(who) {
                ErrorCode::GameAlreadyEnded
            } else {
                ErrorCode::Unauthorized
            },
        ),
        after_join(game, who) == game,
        after_ready_up(game, who) == game,
        after_commit(game, who, digest) == game,
{
}

/// A party that has not committed cannot declare readiness: in a game that
/// has not ended the attempt is refused with `MoveNotSelected`, and both
/// readiness flags stay as they were.
pub proof fn lemma_ready_needs_commitment(game: GameState, player: Identity)
    requires
        game.status != GameStatus::Ended,
        game.is_party(player),
        all_zero(game.commitment_of(player)),
    ensures
        ready_refusal(game, player) == Some(ErrorCode::MoveNotSelected),
        after_ready_up(game, player) == game,
{
}

/// The position of a status in the life of a game.
pub open spec fn stage(status: GameStatus) -> int {
    match status {
        GameStatus::Open => 0,
        GameStatus::Committed => 1,
        GameStatus::Ended => 2,
    }
}

/// A game only moves forward, and one stage at a time: a new game starts
/// as `Open`, joining takes an open game to `Committed` or leaves the status
/// alone, declaring readiness takes a joined game to `Ended` or leaves the
/// status alone, and neither committing nor an attempt to open a game in its
/// place ever changes the status.
pub proof fn lemma_status_moves_forward(
    game: GameState,
    who: Identity,
    wager: u64,
    bump: u8,
    digest: [u8; 32],
)
    requires
        game.wf(),
    ensures
        after_create(None, who, wager, bump)->0.status == GameStatus::Open,
        after_create(Some(game), who, wager, bump)->0.status == game.status,
        stage(game.status) <= stage(after_join(game, who).status) <= stage(game.status) + 1,
        stage(game.status) <= stage(after_ready_up(game, who).status) <= stage(game.status) + 1,
        after_commit(game, who, digest).status == game.status,
        after_join(game, who).status != game.status ==> game.status == GameStatus::Open,
        after_ready_up(game, who).status != game.status ==> game.status == GameStatus::Committed,
{
}

/// The creator and the wager are fixed for good, and so is the opponent
/// once there is one. A readiness flag that is set is never cleared. No
/// operation undoes any of this, an attempt to open a game in the record's
/// place included.
pub proof fn lemma_fixed_fields(
    game: GameState,
    who: Identity,
    wager: u64,
    bump: u8,
    digest: [u8; 32],
)
    requires
        game.wf(),
    ensures
        after_create(Some(game), who, wager, bump)->0.creator == game.creator,
        after_create(Some(game), who, wager, bump)->0.wager == game.wager,
        after_create(Some(game), who, wager, bump)->0.opponent == game.opponent,
        after_create(Some(game), who, wager, bump)->0.creator_ready == game.creator_ready,
        after_create(Some(game), who, wager, bump)->0.joiner_ready == game.joiner_ready,
        after_join(game, who).creator == game.creator,
        after_commit(game, who, digest).creator == game.creator,
        after_ready_up(game, who).creator == game.creator,
        after_join(game, who).wager == game.wager,
        after_commit(game, who, digest).wager == game.wager,
        after_ready_up(game, who).wager == game.wager,
        game.opponent is Some ==> after_join(game, who).opponent == game.opponent,
        after_commit(game, who, digest).opponent == game.opponent,
        after_ready_up(game, who).opponent == game.opponent,
        game.creator_ready ==> after_join(game, who).creator_ready && after_commit(
            game,
            who,
            digest,
        ).creator_ready && after_ready_up(game, who).creator_ready,
        game.joiner_ready ==> after_join(game, who).joiner_ready && after_commit(
            game,
            who,
            digest,
        ).joiner_ready && after_ready_up(game, who).joiner_ready,
{
}

/// Each operation keeps the invariant of the record, and a freshly opened
/// game has it.
pub proof fn lemma_invariant_kept(game: GameState, who: Identity, digest: [u8; 32], bump: u8)
    requires
        game.wf(),
    ensures
        opened(who, game.wager, bump).wf(),
        after_create(None, who, game.wager, bump)->0.wf(),
        after_create(Some(game), who, game.wager, bump)->0.wf(),
        after_join(game, who).wf(),
        after_commit(game, who, digest).wf(),
        after_ready_up(game, who).wf(),
{
    crate::bytes::lemma_zeroes(digest);
}

/// The escrow holds what was paid in. A freshly opened game holds one
/// wager; once a second party has joined it holds two.
pub proof fn lemma_escrow_after_join(creator: Identity, joiner: Identity, wager: u64, bump: u8)
    requires
        creator != joiner,
    ensures
        after_create(None, creator, wager, bump) == Some(opened(creator, wager, bump)),
        opened(creator, wager, bump).escrow == wager,
        join_refusal(opened(creator, wager, bump), joiner) is None,
        after_join(opened(creator, wager, bump), joiner).escrow == 2 * wager,
{
}

/// When a declaration of readiness completes a game, the amounts credited
/// to the two parties add up to twice the wager, the winner is credited
/// with all of it, a tie gives each party its wager back, and the escrow is
/// empty afterwards.
pub proof fn lemma_settlement_pays_both_wagers(game: GameState, player: Identity)
    requires
        game.wf(),
        resolves(game, player),
    ensures
        game.status == GameStatus::Committed,
        game.escrow == 2 * game.wager,
        payout_of(game).creator_amount + payout_of(game).opponent_amount == 2 * game.wager,
        payout_of(game).result == RPSResult::Tie ==> payout_of(game).creator_amount == game.wager
            && payout_of(game).opponent_amount == game.wager,
        payout_of(game).result == RPSResult::CreatorWins ==> payout_of(game).creator_amount == 2
            * game.wager,
        payout_of(game).result == RPSResult::JoinerWins ==> payout_of(game).opponent_amount == 2
            * game.wager,
        after_ready_up(game, player).escrow == 0,
        after_ready_up(game, player).status == GameStatus::Ended,
{
}

/// A game is resolved once only: after the declaration of readiness that
/// completes it, no further declaration is accepted, by anybody.
pub proof fn lemma_resolved_once(game: GameState, player: Identity, next: Identity)
    requires
        game.wf(),
        resolves(game, player),
    ensures
        !resolves(after_ready_up(game, player), next),
        ready_refusal(after_ready_up(game, player), next) == Some(ErrorCode::GameAlreadyEnded),
{
}

/// A creator opens at most one game with a given wager. Once the record of
/// a freshly opened game has been added to a table that held none for its
/// creator and wager, the table holds one, and is still in order.
pub proof fn lemma_created_once(games: Seq<GameState>, creator: Identity, wager: u64, bump: u8)
    requires
        all_wf(games),
        distinct_keys(games),
        !holds_key(games, creator, wager),
    ensures
        holds_key(games.push(opened(creator, wager, bump)), creator, wager),
        all_wf(games.push(opened(creator, wager, bump))),
        distinct_keys(games.push(opened(creator, wager, bump))),
{
    let added = games.push(opened(creator, wager, bump));
    assert(keyed(added[games.len() as int], creator, wager));
    lemma_invariant_kept(opened(creator, wager, bump), creator, crate::bytes::zeroes(), bump);
    assert forall|i: int| 0 <= i < added.len() implies (#[trigger] added[i]).wf() by {
        if i < games.len() {
            assert(added[i] == games[i]);
        }
    }
    assert forall|i: int, j: int| 0 <= i < j < added.len() implies !keyed(
        #[trigger] added[i],
        (#[trigger] added[j]).creator,
        added[j].wager,
    ) by {
        assert(added[i] == games[i]);
        if j < games.len() {
            assert(added[j] == games[j]);
        }
    }
}

/// The operations on a game never free its place for another one: whatever
/// joining, committing or declaring readiness makes of a record in the
/// table, the table holds the same creators and wagers before and after,
/// and stays in order.
pub proof fn lemma_keys_stay(
    games: Seq<GameState>,
    index: int,
    who: Identity,
    digest: [u8; 32],
    creator: Identity,
    wager: u64,
)
    requires
        all_wf(games),
        distinct_keys(games),
        0 <= index < games.len(),
    ensures
        ({
            let joined = games.update(index, after_join(games[index], who));
            let committed = games.update(index, after_commit(games[index], who, digest));
            let readied = games.update(index, after_ready_up(games[index], who));
            &&& holds_key(joined, creator, wager) <==> holds_key(games, creator, wager)
            &&& holds_key(committed, creator, wager) <==> holds_key(games, creator, wager)
            &&& holds_key(readied, creator, wager) <==> holds_key(games, creator, wager)
            &&& all_wf(joined) && distinct_keys(joined)
            &&& all_wf(committed) && distinct_keys(committed)
            &&& all_wf(readied) && distinct_keys(readied)
        }),
{
    let game = games[index];
    lemma_fixed_fields(game, who, 0, 0, digest);
    lemma_invariant_kept(game, who, digest, 0);
    lemma_same_key_replaced(games, index, after_join(game, who), creator, wager);
    lemma_same_key_replaced(games, index, after_commit(game, who, digest), creator, wager);
    lemma_same_key_replaced(games, index, after_ready_up(game, who), creator, wager);
}

/// Replacing a record of a table by one with the same creator and wager
/// that satisfies the invariant keeps the table in order, and keeps the
/// creators and wagers that it holds.
pub proof fn lemma_same_key_replaced(
    games: Seq<GameState>,
    index: int,
    game: GameState,
    creator: Identity,
    wager: u64,
)
    requires
        all_wf(games),
        distinct_keys(games),
        0 <= index < games.len(),
        game.wf(),
        keyed(game, games[index].creator, games[index].wager),
    ensures
        all_wf(games.update(index, game)),
        distinct_keys(games.update(index, game)),
        holds_key(games.update(index, game), creator, wager) <==> holds_key(games, creator, wager),
{
    let changed = games.update(index, game);
    assert forall|i: int| 0 <= i < changed.len() implies (#[trigger] changed[i]).wf() by {
        if i != index {
            assert(changed[i] == games[i]);
        }
    }
    assert forall|i: int, j: int| 0 <= i < j < changed.len() implies !keyed(
        #[trigger] changed[i],
        (#[trigger] changed[j]).creator,
        changed[j].wager,
    ) by {
        assert(keyed(changed[i], games[i].creator, games[i].wager));
        assert(keyed(changed[j], games[j].creator, games[j].wager));
        assert(!keyed(games[i], games[j].creator, games[j].wager));
    }
    if holds_key(games, creator, wager) {
        let i = choose|i: int| 0 <= i < games.len() && keyed(#[trigger] games[i], creator, wager);
        assert(keyed(changed[i], creator, wager));
    }
    if holds_key(changed, creator, wager) {
        let i = choose|i: int|
            0 <= i < changed.len() && keyed(#[trigger] changed[i], creator, wager);
        assert(keyed(games[i], creator, wager));
    }
}

} // verus!
