use rps_game::{
    create_game, join_game, ready_up, select_move, CreateGame, ErrorCode, GameState, GameStatus,
    Identity, JoinGame, Payout, RPSResult, ReadyUp, SelectMove,
};

fn party(tag: u8) -> Identity {
    Identity::new([tag; 32])
}

fn created(creator: Identity, wager: u64, bump: u8) -> GameState {
    let mut ctx = CreateGame { game_account: None, creator, bump };
    assert_eq!(create_game(&mut ctx, wager), Ok(()));
    ctx.game_account.unwrap()
}

fn joined(creator: Identity, joiner: Identity, wager: u64) -> GameState {
    let mut ctx = JoinGame { game_account: created(creator, wager, 1), joiner };
    assert_eq!(join_game(&mut ctx), Ok(()));
    ctx.game_account
}

fn commit(
    game: GameState,
    player: Identity,
    mv: u8,
    salt: &str,
) -> (GameState, Result<bool, ErrorCode>) {
    let mut ctx = SelectMove { game_account: game, player };
    let r = select_move(&mut ctx, mv, String::from(salt));
    (ctx.game_account, r)
}

fn finalize(game: GameState, player: Identity) -> (GameState, Result<Option<Payout>, ErrorCode>) {
    let mut ctx = ReadyUp { game_account: game, player };
    let r = ready_up(&mut ctx);
    (ctx.game_account, r)
}

const S1_DIGEST: [u8; 32] = [
    228, 9, 133, 37, 201, 83, 150, 211, 82, 99, 160, 82, 249, 166, 162, 75, 52, 158, 180, 105, 237,
    188, 171, 5, 140, 34, 62, 106, 101, 171, 115, 244,
];

const S2_DIGEST: [u8; 32] = [
    43, 65, 245, 101, 201, 22, 137, 140, 215, 48, 46, 49, 63, 135, 133, 85, 239, 90, 52, 117, 150,
    109, 8, 211, 140, 7, 248, 17, 114, 125, 194, 26,
];

#[test]
fn create_initialises_an_open_record() {
    let a = party(1);
    let mut ctx = CreateGame { game_account: None, creator: a, bump: 254 };
    assert_eq!(create_game(&mut ctx, 100), Ok(()));
    assert_eq!(
        ctx.game_account,
        Some(GameState {
            creator: a,
            opponent: None,
            creator_move_hashed: [0u8; 32],
            joiner_move_hashed: [0u8; 32],
            creator_ready: false,
            joiner_ready: false,
            wager: 100,
            status: GameStatus::Open,
            bump: 254,
            escrow: 100,
        })
    );
    assert_eq!(ctx.creator, a);
    assert_eq!(ctx.bump, 254);
    assert!(ctx.game_account.unwrap().is_valid());
}

#[test]
fn create_in_a_taken_place_is_refused() {
    let a = party(1);
    let b = party(2);
    let open = created(a, 100, 1);
    let committed = joined(a, b, 100);
    let (half_way, _) = commit(committed, a, 0, "s1");
    let (ended, _) = played_out(100);
    assert_eq!(ended.status, GameStatus::Ended);
    for existing in [open, committed, half_way, ended] {
        let before = CreateGame { game_account: Some(existing), creator: a, bump: 9 };
        let mut ctx = before;
        assert_eq!(create_game(&mut ctx, 100), Err(ErrorCode::GameAlreadyExists));
        assert_eq!(ctx, before);
        assert_eq!(ctx.game_account, Some(existing));
    }
}

#[test]
fn create_twice_in_one_place_keeps_the_first_game() {
    let a = party(1);
    let mut ctx = CreateGame { game_account: None, creator: a, bump: 1 };
    assert_eq!(create_game(&mut ctx, 100), Ok(()));
    let first = ctx.game_account;
    assert_eq!(create_game(&mut ctx, 100), Err(ErrorCode::GameAlreadyExists));
    assert_eq!(ctx.game_account, first);
    assert_eq!(create_game(&mut ctx, 5), Err(ErrorCode::GameAlreadyExists));
    assert_eq!(ctx.game_account, first);
}

#[test]
fn create_with_zero_wager_escrows_nothing() {
    let g = created(party(1), 0, 5);
    assert_eq!(g.escrow, 0);
    assert_eq!(g.wager, 0);
    assert_eq!(g.status, GameStatus::Open);
    assert!(g.is_valid());
}

#[test]
fn join_sets_opponent_and_doubles_escrow() {
    let a = party(1);
    let b = party(2);
    let open = created(a, 100, 1);
    let mut ctx = JoinGame { game_account: open, joiner: b };
    assert_eq!(join_game(&mut ctx), Ok(()));
    assert_eq!(
        ctx.game_account,
        GameState { opponent: Some(b), status: GameStatus::Committed, escrow: 200, ..open }
    );
    assert_eq!(ctx.joiner, b);
    assert!(ctx.game_account.is_valid());
}

#[test]
fn join_with_zero_wager_leaves_escrow_empty() {
    let g = joined(party(1), party(2), 0);
    assert_eq!(g.escrow, 0);
    assert_eq!(g.status, GameStatus::Committed);
}

#[test]
fn join_with_largest_wager_holds_twice_the_wager() {
    let g = joined(party(1), party(2), u64::MAX);
    assert_eq!(g.escrow, 2 * (u64::MAX as u128));
    assert!(g.is_valid());
}

#[test]
fn join_on_committed_game_is_refused() {
    let g = joined(party(1), party(2), 100);
    let mut ctx = JoinGame { game_account: g, joiner: party(3) };
    assert_eq!(join_game(&mut ctx), Err(ErrorCode::GameNotOpen));
    assert_eq!(ctx.game_account, g);
}

#[test]
fn join_on_ended_game_is_refused() {
    let g = played_out(100).0;
    assert_eq!(g.status, GameStatus::Ended);
    let mut ctx = JoinGame { game_account: g, joiner: party(3) };
    assert_eq!(join_game(&mut ctx), Err(ErrorCode::GameNotOpen));
    assert_eq!(ctx.game_account, g);
}

#[test]
fn creator_cannot_join_own_game() {
    let a = party(1);
    let g = created(a, 100, 1);
    let mut ctx = JoinGame { game_account: g, joiner: a };
    assert_eq!(join_game(&mut ctx), Err(ErrorCode::Unauthorized));
    assert_eq!(ctx.game_account, g);
}

#[test]
fn commit_stores_the_digest_of_move_and_salt() {
    let a = party(1);
    let b = party(2);
    let g = joined(a, b, 100);
    let (g1, r1) = commit(g, a, 0, "s1");
    assert_eq!(r1, Ok(true));
    assert_eq!(g1, GameState { creator_move_hashed: S1_DIGEST, ..g });
    let (g2, r2) = commit(g1, b, 2, "s2");
    assert_eq!(r2, Ok(true));
    assert_eq!(g2, GameState { joiner_move_hashed: S2_DIGEST, ..g1 });
    assert!(g2.is_valid());
}

#[test]
fn creator_may_commit_before_anybody_joined() {
    let a = party(1);
    let g = created(a, 100, 1);
    let (g1, r) = commit(g, a, 0, "s1");
    assert_eq!(r, Ok(true));
    assert_eq!(g1.creator_move_hashed, S1_DIGEST);
    assert_eq!(g1.status, GameStatus::Open);
    assert!(g1.is_valid());
}

#[test]
fn second_commit_keeps_the_first_commitment() {
    let a = party(1);
    let b = party(2);
    let g = joined(a, b, 100);
    let (g1, _) = commit(g, a, 0, "s1");
    let (g2, r) = commit(g1, a, 2, "s2");
    assert_eq!(r, Ok(false));
    assert_eq!(g2, g1);
    assert_eq!(g2.creator_move_hashed, S1_DIGEST);
    let (g3, _) = commit(g2, b, 2, "s2");
    let (g4, r) = commit(g3, b, 0, "s1");
    assert_eq!(r, Ok(false));
    assert_eq!(g4, g3);
    assert_eq!(g4.joiner_move_hashed, S2_DIGEST);
    assert_eq!(g4.creator_move_hashed, S1_DIGEST);
}

#[test]
fn commit_by_stranger_is_unauthorized() {
    let g = joined(party(1), party(2), 100);
    let (g1, r) = commit(g, party(3), 1, "x");
    assert_eq!(r, Err(ErrorCode::Unauthorized));
    assert_eq!(g1, g);
    let open = created(party(1), 100, 1);
    let (g2, r) = commit(open, party(2), 1, "x");
    assert_eq!(r, Err(ErrorCode::Unauthorized));
    assert_eq!(g2, open);
}

#[test]
fn commit_on_ended_game_is_refused() {
    let (g, _) = played_out(100);
    let (g1, r) = commit(g, party(1), 1, "again");
    assert_eq!(r, Err(ErrorCode::GameAlreadyEnded));
    assert_eq!(g1, g);
    let (g2, r) = commit(g, party(3), 1, "again");
    assert_eq!(r, Err(ErrorCode::Unauthorized));
    assert_eq!(g2, g);
}

#[test]
fn ready_up_before_commit_is_refused() {
    let a = party(1);
    let b = party(2);
    let g = joined(a, b, 100);
    let (g1, r) = finalize(g, a);
    assert_eq!(r, Err(ErrorCode::MoveNotSelected));
    assert_eq!(g1, g);
    assert!(!g1.creator_ready);
    assert!(!g1.joiner_ready);
    let (g2, r) = finalize(g, b);
    assert_eq!(r, Err(ErrorCode::MoveNotSelected));
    assert_eq!(g2, g);
    let (g3, _) = commit(g, a, 0, "s1");
    let (g4, r) = finalize(g3, b);
    assert_eq!(r, Err(ErrorCode::MoveNotSelected));
    assert_eq!(g4, g3);
    assert!(!g4.creator_ready);
    assert!(!g4.joiner_ready);
}

#[test]
fn ready_up_by_stranger_is_unauthorized() {
    let g = joined(party(1), party(2), 100);
    let (g1, _) = commit(g, party(1), 0, "s1");
    let (g2, r) = finalize(g1, party(3));
    assert_eq!(r, Err(ErrorCode::Unauthorized));
    assert_eq!(g2, g1);
}

#[test]
fn ready_up_on_ended_game_is_refused() {
    let (g, _) = played_out(100);
    for who in [party(1), party(2), party(3)] {
        let (g1, r) = finalize(g, who);
        assert_eq!(r, Err(ErrorCode::GameAlreadyEnded));
        assert_eq!(g1, g);
    }
}

#[test]
fn repeated_ready_up_by_one_party_changes_nothing() {
    let a = party(1);
    let g = joined(a, party(2), 100);
    let (g1, _) = commit(g, a, 0, "s1");
    let (g2, r) = finalize(g1, a);
    assert_eq!(r, Ok(None));
    assert_eq!(g2, GameState { creator_ready: true, ..g1 });
    let (g3, r) = finalize(g2, a);
    assert_eq!(r, Ok(None));
    assert_eq!(g3, g2);
    assert_eq!(g3.status, GameStatus::Committed);
    assert_eq!(g3.escrow, 200);
}

fn played_out(wager: u64) -> (GameState, Payout) {
    let a = party(1);
    let b = party(2);
    let g = joined(a, b, wager);
    let (g, _) = commit(g, a, 0, "s1");
    let (g, _) = commit(g, b, 2, "s2");
    let (g, r) = finalize(g, a);
    assert_eq!(r, Ok(None));
    let (g, r) = finalize(g, b);
    (g, r.unwrap().unwrap())
}

#[test]
fn full_game_is_resolved_on_second_ready_up() {
    let a = party(1);
    let b = party(2);
    let g = created(a, 100, 1);
    assert_eq!(g.escrow, 100);
    let mut j = JoinGame { game_account: g, joiner: b };
    assert_eq!(join_game(&mut j), Ok(()));
    let g = j.game_account;
    assert_eq!(g.escrow, 200);
    let (g, r) = commit(g, a, 0, "s1");
    assert_eq!(r, Ok(true));
    let (g, r) = commit(g, b, 2, "s2");
    assert_eq!(r, Ok(true));
    let (g, r) = finalize(g, a);
    assert_eq!(r, Ok(None));
    assert!(g.creator_ready);
    assert!(!g.joiner_ready);
    assert_eq!(g.status, GameStatus::Committed);
    assert_eq!(g.escrow, 200);
    let (g, r) = finalize(g, b);
    // The digests start with 228 and 43: 0 against 1 modulo 3, the joiner's game.
    assert_eq!(
        r,
        Ok(Some(Payout { result: RPSResult::JoinerWins, creator_amount: 0, opponent_amount: 200 }))
    );
    assert!(g.creator_ready);
    assert!(g.joiner_ready);
    assert_eq!(g.status, GameStatus::Ended);
    assert_eq!(g.escrow, 0);
    assert_eq!(g.creator_move_hashed, S1_DIGEST);
    assert_eq!(g.joiner_move_hashed, S2_DIGEST);
    assert!(g.is_valid());
}

#[test]
fn joiner_may_be_ready_first() {
    let a = party(1);
    let b = party(2);
    let g = joined(a, b, 7);
    let (g, _) = commit(g, a, 0, "s1");
    let (g, _) = commit(g, b, 2, "s2");
    let (g, r) = finalize(g, b);
    assert_eq!(r, Ok(None));
    assert!(g.joiner_ready);
    assert!(!g.creator_ready);
    let (g, r) = finalize(g, a);
    assert_eq!(
        r,
        Ok(Some(Payout { result: RPSResult::JoinerWins, creator_amount: 0, opponent_amount: 14 }))
    );
    assert_eq!(g.status, GameStatus::Ended);
    assert_eq!(g.escrow, 0);
}

#[test]
fn payout_adds_up_to_both_wagers() {
    for wager in [1u64, 2, 99, 100, u64::MAX] {
        let (g, p) = played_out(wager);
        assert_eq!(p.creator_amount + p.opponent_amount, 2 * (wager as u128));
        assert_eq!(g.escrow, 0);
    }
}

#[test]
fn tie_returns_each_wager() {
    let a = party(1);
    let b = party(2);
    let g = joined(a, b, 100);
    // Both digests start with a byte that is 0 modulo 3.
    let (g, _) = commit(g, a, 0, "s1");
    let (g, _) = commit(g, b, 1, "");
    assert_eq!(g.joiner_move_hashed[0], 75);
    let (g, _) = finalize(g, a);
    let (g, r) = finalize(g, b);
    assert_eq!(
        r,
        Ok(Some(Payout { result: RPSResult::Tie, creator_amount: 100, opponent_amount: 100 }))
    );
    assert_eq!(g.escrow, 0);
}

#[test]
fn creator_wins_takes_the_pot() {
    let a = party(1);
    let b = party(2);
    let g = joined(a, b, 100);
    // 71 is 2 modulo 3 and 43 is 1 modulo 3: the creator's game.
    let (g, _) = commit(g, a, 1, "salt");
    let (g, _) = commit(g, b, 2, "s2");
    assert_eq!(g.creator_move_hashed[0], 71);
    let (g, _) = finalize(g, a);
    let (g, r) = finalize(g, b);
    assert_eq!(
        r,
        Ok(Some(Payout { result: RPSResult::CreatorWins, creator_amount: 200, opponent_amount: 0 }))
    );
    assert_eq!(g.status, GameStatus::Ended);
}

#[test]
fn is_valid_rejects_broken_records() {
    let a = party(1);
    let b = party(2);
    let open = created(a, 100, 1);
    assert!(open.is_valid());
    assert!(!GameState { opponent: Some(b), ..open }.is_valid());
    assert!(!GameState { escrow: 99, ..open }.is_valid());
    assert!(!GameState { creator_ready: true, ..open }.is_valid());
    assert!(!GameState { joiner_move_hashed: [1u8; 32], ..open }.is_valid());
    let both = joined(a, b, 100);
    assert!(both.is_valid());
    assert!(!GameState { opponent: Some(a), ..both }.is_valid());
    assert!(!GameState { opponent: None, ..both }.is_valid());
    assert!(!GameState { status: GameStatus::Ended, ..both }.is_valid());
    assert!(!GameState { escrow: 100, ..both }.is_valid());
    assert!(!GameState { joiner_ready: true, ..both }.is_valid());
    let (ended, _) = played_out(100);
    assert!(ended.is_valid());
    assert!(!GameState { escrow: 200, ..ended }.is_valid());
    assert!(!GameState { status: GameStatus::Committed, ..ended }.is_valid());
}
