//! The games on record: a table that holds at most one game for each pair
//! of creator and wager, and that changes only through the four operations.
//! A record, once made, stays for good.

use vstd::prelude::*;
use vstd::utf8::encode_utf8;
use crate::game::{
    after_commit, after_join, after_ready_up, commit_refusal, commit_taken, create_game, join_game,
    join_refusal, opened, payout_of, ready_refusal, ready_up, resolves, select_move,
};
use crate::hash::{committed, preimage, sha256};
use crate::identity::Identity;
use crate::state::{CreateGame, ErrorCode, GameState, JoinGame, Payout, ReadyUp, SelectMove};

verus! {

/// Whether `game` is the one that `creator` opened with `wager`.
pub open spec fn keyed(game: GameState, creator: Identity, wager: u64) -> bool {
    game.creator == creator && game.wager == wager
}

/// Whether `games` holds a game that `creator` opened with `wager`.
pub open spec fn holds_key(games: Seq<GameState>, creator: Identity, wager: u64) -> bool {
    exists|i: int| 0 <= i < games.len() && keyed(#[trigger] games[i], creator, wager)
}

/// Whether no two of `games` were opened by the same creator with the same
/// wager.
pub open spec fn distinct_keys(games: Seq<GameState>) -> bool {
    forall|i: int, j: int|
        0 <= i < j < games.len() ==> !keyed(
            #[trigger] games[i],
            (#[trigger] games[j]).creator,
            games[j].wager,
        )
}

/// Whether every one of `games` satisfies the invariant of a record.
pub open spec fn all_wf(games: Seq<GameState>) -> bool {
    forall|i: int| 0 <= i < games.len() ==> (#[trigger] games[i]).wf()
}

/// The games on record, in the order in which they were opened. A game is
/// known by its place in that order.
pub struct GameTable {
    games: Vec<GameState>,
}

impl View for GameTable {
    type V = Seq<GameState>;

    closed spec fn view(&self) -> Seq<GameState> {
        self.games@
    }
}

impl GameTable {
    /// The invariant of the table: every record satisfies its own
    /// invariant, and no two were opened by the same creator with the same
    /// wager.
    pub open spec fn wf(&self) -> bool {
        all_wf(self@) && distinct_keys(self@)
    }

    /// Whether the table holds a game that `creator` opened with `wager`.
    pub open spec fn has_game(&self, creator: Identity, wager: u64) -> bool {
        holds_key(self@, creator, wager)
    }

    /// A table without games.
    pub fn new() -> (table: GameTable)
        ensures
            table@ == Seq::<GameState>::empty(),
            table.wf(),
    {
        GameTable { games: Vec::new() }
    }

    /// How many games are on record.
    pub fn len(&self) -> (n: usize)
        ensures
            n == self@.len(),
    {
        self.games.len()
    }

    /// The record at `index`; `None` where the table has no such place.
    pub fn get(&self, index: usize) -> (r: Option<GameState>)
        ensures
            r == if index < self@.len() {
                Some(self@[index as int])
            } else {
                None
            },
    {
        if index < self.games.len() {
            Some(self.games[index])
        } else {
            None
        }
    }

    /// The place of the game that `creator` opened with `wager`, the first
    /// such place if there were several; `None` exactly when there is no
    /// such game.
    pub fn find(&self, creator: Identity, wager: u64) -> (r: Option<usize>)
        ensures
            match r {
                Some(index) => {
                    &&& index < self@.len()
                    &&& keyed(self@[index as int], creator, wager)
                    &&& forall|j: int|
                        0 <= j < index ==> !keyed(#[trigger] self@[j], creator, wager)
                },
                None => !self.has_game(creator, wager),
            },
    {
        let mut i: usize = 0;
        while i < self.games.len()
            invariant
                i <= self.games@.len(),
                forall|j: int| 0 <= j < i ==> !keyed(#[trigger] self.games@[j], creator, wager),
            decreases self.games@.len() - i,
        {
            if self.games[i].creator == creator && self.games[i].wager == wager {
                return Some(i);
            }
            i += 1;
        }
        None
    }

    /// Create: `creator` opens a game with `wager`.
    ///
    /// Refused as `create_game` refuses, with `GameAlreadyExists` and the
    /// table unchanged, when `creator` has opened a game with this wager
    /// before, whatever became of it. Otherwise the record of a freshly
    /// opened game is added at the end, and its place is returned.
    pub fn create(&mut self, creator: Identity, wager: u64, bump: u8) -> (r: Result<
        usize,
        ErrorCode,
    >)
        requires
            old(self).wf(),
        ensures
            final(self).wf(),
            final(self).has_game(creator, wager),
            old(self).has_game(creator, wager) ==> r == Err::<usize, ErrorCode>(
                ErrorCode::GameAlreadyExists,
            ) && final(self)@ == old(self)@,
            !old(self).has_game(creator, wager) ==> r == Ok::<usize, ErrorCode>(
                old(self)@.len() as usize,
            ) && final(self)@ == old(self)@.push(opened(creator, wager, bump)),
    {
        let place = match self.find(creator, wager) {
            Some(index) => Some(self.games[index]),
            None => None,
        };
        let mut ctx = CreateGame { game_account: place, creator, bump };
        match create_game(&mut ctx, wager) {
            Err(e) => Err(e),
            Ok(()) => {
                match ctx.game_account {
                    Some(game) => {
                        let index = self.games.len();
                        self.games.push(game);
                        assert(keyed(self.games@[index as int], creator, wager));
                        Ok(index)
                    },
                    None => Err(ErrorCode::GameAlreadyExists),
                }
            },
        }
    }

    /// Join: `joiner` takes the open seat of the game at `index`.
    ///
    /// `None`, with the table unchanged, where the table has no such place.
    /// Otherwise the record changes as `join_game` says, and its answer is
    /// returned.
    pub fn join(&mut self, index: usize, joiner: Identity) -> (r: Option<Result<(), ErrorCode>>)
        requires
            old(self).wf(),
        ensures
            final(self).wf(),
            index >= old(self)@.len() ==> r is None && final(self)@ == old(self)@,
            index < old(self)@.len() ==> {
                &&& final(self)@ == old(self)@.update(
                    index as int,
                    after_join(old(self)@[index as int], joiner),
                )
                &&& r == Some(
                    match join_refusal(old(self)@[index as int], joiner) {
                        Some(e) => Err::<(), ErrorCode>(e),
                        None => Ok::<(), ErrorCode>(()),
                    },
                )
            },
    {
        if index >= self.games.len() {
            return None;
        }
        let mut ctx = JoinGame { game_account: self.games[index], joiner };
        let answer = join_game(&mut ctx);
        self.games[index] = ctx.game_account;
        Some(answer)
    }

    /// Commit: `player` commits to `original_move` under `salt` in the game
    /// at `index`.
    ///
    /// `None`, with the table unchanged, where the table has no such place.
    /// Otherwise the record changes as `select_move` says, and its answer is
    /// returned.
    pub fn commit(&mut self, index: usize, player: Identity, original_move: u8, salt: String) -> (r:
        Option<Result<bool, ErrorCode>>)
        requires
            old(self).wf(),
        ensures
            final(self).wf(),
            index >= old(self)@.len() ==> r is None && final(self)@ == old(self)@,
            index < old(self)@.len() ==> {
                &&& final(self)@ == old(self)@.update(
                    index as int,
                    after_commit(
                        old(self)@[index as int],
                        player,
                        committed(original_move, encode_utf8(salt@)),
                    ),
                )
                &&& committed(original_move, encode_utf8(salt@))@ == sha256(
                    preimage(original_move, encode_utf8(salt@)),
                )
                &&& r == Some(
                    match commit_refusal(old(self)@[index as int], player) {
                        Some(e) => Err::<bool, ErrorCode>(e),
                        None => Ok::<bool, ErrorCode>(
                            commit_taken(old(self)@[index as int], player),
                        ),
                    },
                )
            },
    {
        if index >= self.games.len() {
            return None;
        }
        let mut ctx = SelectMove { game_account: self.games[index], player };
        let answer = select_move(&mut ctx, original_move, salt);
        self.games[index] = ctx.game_account;
        Some(answer)
    }

    /// Finalize: `player` declares readiness in the game at `index`.
    ///
    /// `None`, with the table unchanged, where the table has no such place.
    /// Otherwise the record changes as `ready_up` says, and its answer is
    /// returned.
    pub fn finalize(&mut self, index: usize, player: Identity) -> (r: Option<
        Result<Option<Payout>, ErrorCode>,
    >)
        requires
            old(self).wf(),
        ensures
            final(self).wf(),
            index >= old(self)@.len() ==> r is None && final(self)@ == old(self)@,
            index < old(self)@.len() ==> {
                &&& final(self)@ == old(self)@.update(
                    index as int,
                    after_ready_up(old(self)@[index as int], player),
                )
                &&& r == Some(
                    match ready_refusal(old(self)@[index as int], player) {
                        Some(e) => Err::<Option<Payout>, ErrorCode>(e),
                        None => Ok::<Option<Payout>, ErrorCode>(
                            if resolves(old(self)@[index as int], player) {
                                Some(payout_of(old(self)@[index as int]))
                            } else {
                                None
                            },
                        ),
                    },
                )
            },
    {
        if index >= self.games.len() {
            return None;
        }
        let mut ctx = ReadyUp { game_account: self.games[index], player };
        let answer = ready_up(&mut ctx);
        self.games[index] = ctx.game_account;
        Some(answer)
    }
}

} // verus!
