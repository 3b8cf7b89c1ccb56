use staking_platform::{
    distribute_rewards, initialize, stake, withdraw, Address, Authority, DistributeRewards,
    ErrorCode, Initialize, Pool, Stake, Transfer, TransferOutcome, UserStake, Withdraw,
};

fn key(n: u8) -> Address {
    Address { bytes: [n; 32] }
}

const OWNER: u8 = 1;
const ALICE: u8 = 2;
const BOB: u8 = 3;
const POOL: u8 = 10;
const POOL_HOLDING: u8 = 11;
const BUMP: u8 = 254;

fn holding_of(n: u8) -> Address {
    Address { bytes: [n + 100; 32] }
}

fn open_pool() -> Pool {
    let mut ctx = Initialize { pool: None, owner: key(OWNER) };
    assert_eq!(initialize(&mut ctx), Ok(()));
    ctx.pool.unwrap()
}

fn stake_ctx(pool: Pool, record: Option<UserStake>, user: u8) -> Stake {
    Stake {
        pool,
        user_stake: record,
        user_token_account: holding_of(user),
        pool_token_account: key(POOL_HOLDING),
        user: key(user),
    }
}

fn reward_ctx(pool: Pool, owner: u8) -> DistributeRewards {
    DistributeRewards {
        pool,
        owner_token_account: holding_of(owner),
        pool_token_account: key(POOL_HOLDING),
        owner: key(owner),
    }
}

fn withdraw_ctx(pool: Pool, record: UserStake, user: u8) -> Withdraw {
    Withdraw {
        pool,
        pool_address: key(POOL),
        pool_bump: BUMP,
        user_stake: record,
        user_token_account: holding_of(user),
        pool_token_account: key(POOL_HOLDING),
        user: key(user),
    }
}

fn pool_with(total_staked: u64, total_rewards: u64) -> Pool {
    Pool { owner: key(OWNER), total_staked, total_rewards }
}

fn record_of(user: u8, amount: u64) -> UserStake {
    UserStake { user: key(user), amount }
}

#[test]
fn initialize_creates_an_empty_pool() {
    let mut ctx = Initialize { pool: None, owner: key(OWNER) };
    assert_eq!(initialize(&mut ctx), Ok(()));
    assert_eq!(ctx.pool, Some(Pool { owner: key(OWNER), total_staked: 0, total_rewards: 0 }));
    assert_eq!(ctx.owner, key(OWNER));
}

#[test]
fn initialize_twice_fails_and_keeps_the_first_pool() {
    let mut ctx = Initialize { pool: None, owner: key(OWNER) };
    assert_eq!(initialize(&mut ctx), Ok(()));
    let first = ctx.pool;
    ctx.owner = key(ALICE);
    assert_eq!(initialize(&mut ctx), Err(ErrorCode::AlreadyInitialized));
    assert_eq!(ctx.pool, first);
    assert_eq!(ctx.pool.unwrap().owner, key(OWNER));
}

#[test]
fn initialize_never_replaces_a_pool_in_use() {
    let pool = pool_with(700, 30);
    let mut ctx = Initialize { pool: Some(pool), owner: key(OWNER) };
    assert_eq!(initialize(&mut ctx), Err(ErrorCode::AlreadyInitialized));
    assert_eq!(ctx.pool, Some(pool));
}

#[test]
fn stake_names_the_transfer_from_the_depositor() {
    let ctx = stake_ctx(open_pool(), None, ALICE);
    assert_eq!(
        ctx.transfer(1000),
        Ok(Transfer {
            from: holding_of(ALICE),
            to: key(POOL_HOLDING),
            authority: Authority::Signer(key(ALICE)),
            amount: 1000,
        })
    );
}

#[test]
fn first_stake_creates_the_record() {
    let mut ctx = stake_ctx(open_pool(), None, ALICE);
    assert_eq!(stake(&mut ctx, 1000, TransferOutcome::Completed), Ok(()));
    assert_eq!(ctx.user_stake, Some(record_of(ALICE, 1000)));
    assert_eq!(ctx.pool.total_staked, 1000);
    assert_eq!(ctx.pool.total_rewards, 0);
    assert_eq!(ctx.pool.owner, key(OWNER));
}

#[test]
fn later_stake_adds_to_the_record() {
    let mut ctx = stake_ctx(pool_with(1500, 7), Some(record_of(ALICE, 1000)), ALICE);
    assert_eq!(stake(&mut ctx, 250, TransferOutcome::Completed), Ok(()));
    assert_eq!(ctx.user_stake, Some(record_of(ALICE, 1250)));
    assert_eq!(ctx.pool, pool_with(1750, 7));
}

#[test]
fn stake_of_zero_is_rejected() {
    let before = stake_ctx(pool_with(1500, 7), Some(record_of(ALICE, 1000)), ALICE);
    let mut ctx = before;
    assert_eq!(ctx.transfer(0), Err(ErrorCode::ZeroAmount));
    assert_eq!(stake(&mut ctx, 0, TransferOutcome::Completed), Err(ErrorCode::ZeroAmount));
    assert_eq!(ctx, before);
    assert_eq!(stake(&mut ctx, 0, TransferOutcome::Rejected), Err(ErrorCode::ZeroAmount));
    assert_eq!(ctx, before);
}

#[test]
fn stake_into_a_record_of_someone_else_is_rejected() {
    let before = stake_ctx(pool_with(1000, 0), Some(record_of(BOB, 1000)), ALICE);
    let mut ctx = before;
    assert_eq!(ctx.transfer(5), Err(ErrorCode::Unauthorized));
    assert_eq!(stake(&mut ctx, 5, TransferOutcome::Completed), Err(ErrorCode::Unauthorized));
    assert_eq!(ctx, before);
}

#[test]
fn stake_that_overflows_the_pool_total_is_rejected() {
    let before = stake_ctx(pool_with(u64::MAX - 9, 0), Some(record_of(ALICE, 5)), ALICE);
    let mut ctx = before;
    assert_eq!(stake(&mut ctx, 10, TransferOutcome::Completed), Err(ErrorCode::ArithmeticOverflow));
    assert_eq!(ctx, before);
    assert_eq!(stake(&mut ctx, 9, TransferOutcome::Completed), Ok(()));
    assert_eq!(ctx.pool.total_staked, u64::MAX);
    assert_eq!(ctx.user_stake, Some(record_of(ALICE, 14)));
}

#[test]
fn stake_that_overflows_the_record_is_rejected() {
    let before = stake_ctx(pool_with(5, 0), Some(record_of(ALICE, u64::MAX)), ALICE);
    let mut ctx = before;
    assert_eq!(stake(&mut ctx, 1, TransferOutcome::Completed), Err(ErrorCode::ArithmeticOverflow));
    assert_eq!(ctx, before);
}

#[test]
fn stake_whose_transfer_fails_changes_nothing() {
    let before = stake_ctx(pool_with(1500, 7), None, ALICE);
    let mut ctx = before;
    assert_eq!(stake(&mut ctx, 100, TransferOutcome::Rejected), Err(ErrorCode::TransferFailure));
    assert_eq!(ctx, before);
}

#[test]
fn distribute_names_the_transfer_from_the_owner() {
    let ctx = reward_ctx(pool_with(2000, 0), OWNER);
    assert_eq!(
        ctx.transfer(100),
        Ok(Transfer {
            from: holding_of(OWNER),
            to: key(POOL_HOLDING),
            authority: Authority::Signer(key(OWNER)),
            amount: 100,
        })
    );
}

#[test]
fn distribute_adds_to_the_rewards() {
    let mut ctx = reward_ctx(pool_with(2000, 40), OWNER);
    assert_eq!(distribute_rewards(&mut ctx, 100, TransferOutcome::Completed), Ok(()));
    assert_eq!(ctx.pool, pool_with(2000, 140));
}

#[test]
fn distribute_of_zero_is_rejected() {
    let before = reward_ctx(pool_with(2000, 40), OWNER);
    let mut ctx = before;
    assert_eq!(ctx.transfer(0), Err(ErrorCode::ZeroAmount));
    assert_eq!(
        distribute_rewards(&mut ctx, 0, TransferOutcome::Completed),
        Err(ErrorCode::ZeroAmount)
    );
    assert_eq!(ctx, before);
}

#[test]
fn distribute_by_a_stranger_is_rejected() {
    let before = reward_ctx(pool_with(2000, 40), ALICE);
    let mut ctx = before;
    assert_eq!(ctx.transfer(100), Err(ErrorCode::Unauthorized));
    assert_eq!(
        distribute_rewards(&mut ctx, 100, TransferOutcome::Completed),
        Err(ErrorCode::Unauthorized)
    );
    assert_eq!(ctx, before);
}

#[test]
fn distribute_that_overflows_is_rejected() {
    let before = reward_ctx(pool_with(2000, u64::MAX - 1), OWNER);
    let mut ctx = before;
    assert_eq!(
        distribute_rewards(&mut ctx, 2, TransferOutcome::Completed),
        Err(ErrorCode::ArithmeticOverflow)
    );
    assert_eq!(ctx, before);
    assert_eq!(distribute_rewards(&mut ctx, 1, TransferOutcome::Completed), Ok(()));
    assert_eq!(ctx.pool.total_rewards, u64::MAX);
}

#[test]
fn distribute_whose_transfer_fails_changes_nothing() {
    let before = reward_ctx(pool_with(2000, 40), OWNER);
    let mut ctx = before;
    assert_eq!(
        distribute_rewards(&mut ctx, 100, TransferOutcome::Rejected),
        Err(ErrorCode::TransferFailure)
    );
    assert_eq!(ctx, before);
}

#[test]
fn withdraw_names_the_transfer_from_the_pool() {
    let ctx = withdraw_ctx(pool_with(2000, 100), record_of(ALICE, 1000), ALICE);
    assert_eq!(
        ctx.transfer(1000),
        Ok(Transfer {
            from: key(POOL_HOLDING),
            to: holding_of(ALICE),
            authority: Authority::Pool { address: key(POOL), bump: BUMP },
            amount: 1050,
        })
    );
}

#[test]
fn two_depositors_share_the_rewards() {
    let pool = open_pool();

    let mut a = stake_ctx(pool, None, ALICE);
    assert_eq!(stake(&mut a, 1000, TransferOutcome::Completed), Ok(()));
    let mut b = stake_ctx(a.pool, None, BOB);
    assert_eq!(stake(&mut b, 1000, TransferOutcome::Completed), Ok(()));
    let mut rewards = reward_ctx(b.pool, OWNER);
    assert_eq!(distribute_rewards(&mut rewards, 100, TransferOutcome::Completed), Ok(()));
    assert_eq!(rewards.pool, pool_with(2000, 100));

    let mut first = withdraw_ctx(rewards.pool, a.user_stake.unwrap(), ALICE);
    assert_eq!(first.transfer(1000).unwrap().amount, 1050);
    assert_eq!(withdraw(&mut first, 1000, TransferOutcome::Completed), Ok(()));
    assert_eq!(first.pool, pool_with(1000, 50));
    assert_eq!(first.user_stake, record_of(ALICE, 0));

    let mut second = withdraw_ctx(first.pool, b.user_stake.unwrap(), BOB);
    assert_eq!(second.transfer(1000).unwrap().amount, 1050);
    assert_eq!(withdraw(&mut second, 1000, TransferOutcome::Completed), Ok(()));
    assert_eq!(second.pool, pool_with(0, 0));
    assert_eq!(second.user_stake, record_of(BOB, 0));
}

#[test]
fn withdraw_of_zero_changes_nothing() {
    let before = withdraw_ctx(pool_with(2000, 100), record_of(ALICE, 500), ALICE);
    let mut ctx = before;
    assert_eq!(ctx.transfer(0), Err(ErrorCode::ZeroAmount));
    assert_eq!(withdraw(&mut ctx, 0, TransferOutcome::Completed), Err(ErrorCode::ZeroAmount));
    assert_eq!(ctx, before);
    assert_eq!(ctx.pool.total_staked, 2000);
    assert_eq!(ctx.pool.total_rewards, 100);
}

#[test]
fn withdraw_of_more_than_staked_is_rejected() {
    let before = withdraw_ctx(pool_with(2000, 100), record_of(ALICE, 500), ALICE);
    let mut ctx = before;
    assert_eq!(ctx.transfer(501), Err(ErrorCode::InsufficientStake));
    assert_eq!(
        withdraw(&mut ctx, 501, TransferOutcome::Completed),
        Err(ErrorCode::InsufficientStake)
    );
    assert_eq!(ctx, before);
    assert_eq!(withdraw(&mut ctx, u64::MAX, TransferOutcome::Rejected), Err(ErrorCode::InsufficientStake));
    assert_eq!(ctx, before);
}

#[test]
fn withdraw_from_an_empty_record_is_rejected() {
    let before = withdraw_ctx(pool_with(0, 0), record_of(ALICE, 0), ALICE);
    let mut ctx = before;
    assert_eq!(withdraw(&mut ctx, 1, TransferOutcome::Completed), Err(ErrorCode::InsufficientStake));
    assert_eq!(withdraw(&mut ctx, 0, TransferOutcome::Completed), Err(ErrorCode::ZeroAmount));
    assert_eq!(ctx, before);
}

#[test]
fn withdraw_from_a_record_of_someone_else_is_rejected() {
    let before = withdraw_ctx(pool_with(2000, 100), record_of(BOB, 500), ALICE);
    let mut ctx = before;
    assert_eq!(withdraw(&mut ctx, 100, TransferOutcome::Completed), Err(ErrorCode::Unauthorized));
    assert_eq!(ctx, before);
}

#[test]
fn withdraw_whose_transfer_fails_changes_nothing() {
    let before = withdraw_ctx(pool_with(2000, 100), record_of(ALICE, 500), ALICE);
    let mut ctx = before;
    assert_eq!(withdraw(&mut ctx, 100, TransferOutcome::Rejected), Err(ErrorCode::TransferFailure));
    assert_eq!(ctx, before);
}

#[test]
fn withdraw_against_an_empty_pool_total_is_rejected() {
    let before = withdraw_ctx(pool_with(0, 100), record_of(ALICE, 500), ALICE);
    let mut ctx = before;
    assert_eq!(
        withdraw(&mut ctx, 100, TransferOutcome::Completed),
        Err(ErrorCode::ArithmeticOverflow)
    );
    assert_eq!(ctx, before);
}

#[test]
fn withdraw_of_more_than_the_pool_total_is_rejected() {
    let before = withdraw_ctx(pool_with(300, 0), record_of(ALICE, 500), ALICE);
    let mut ctx = before;
    assert_eq!(
        withdraw(&mut ctx, 301, TransferOutcome::Completed),
        Err(ErrorCode::ArithmeticOverflow)
    );
    assert_eq!(ctx, before);
}

#[test]
fn withdraw_whose_share_exceeds_the_rewards_is_rejected() {
    // The record claims more than the pool's total: 100 * 500 / 300 = 166 > 100.
    let before = withdraw_ctx(pool_with(300, 100), record_of(ALICE, 500), ALICE);
    let mut ctx = before;
    assert_eq!(
        withdraw(&mut ctx, 10, TransferOutcome::Completed),
        Err(ErrorCode::ArithmeticOverflow)
    );
    assert_eq!(ctx, before);
}

#[test]
fn withdraw_whose_payout_exceeds_64_bits_is_rejected() {
    let before =
        withdraw_ctx(pool_with(u64::MAX, u64::MAX), record_of(ALICE, u64::MAX), ALICE);
    let mut ctx = before;
    assert_eq!(
        withdraw(&mut ctx, 1, TransferOutcome::Completed),
        Err(ErrorCode::ArithmeticOverflow)
    );
    assert_eq!(ctx, before);
}

#[test]
fn partial_withdraw_pays_the_share_of_the_whole_stake() {
    let mut ctx = withdraw_ctx(pool_with(2000, 100), record_of(ALICE, 500), ALICE);
    // 100 * 500 / 2000 = 25
    assert_eq!(ctx.transfer(200).unwrap().amount, 225);
    assert_eq!(withdraw(&mut ctx, 200, TransferOutcome::Completed), Ok(()));
    assert_eq!(ctx.pool, pool_with(1800, 75));
    assert_eq!(ctx.user_stake, record_of(ALICE, 300));
}

#[test]
fn full_withdraw_rounds_the_share_down_and_keeps_the_dust() {
    let mut ctx = withdraw_ctx(pool_with(3, 100), record_of(ALICE, 1), ALICE);
    // 100 * 1 / 3 = 33, one third of a unit stays in the pool
    assert_eq!(ctx.transfer(1).unwrap().amount, 34);
    assert_eq!(withdraw(&mut ctx, 1, TransferOutcome::Completed), Ok(()));
    assert_eq!(ctx.pool, pool_with(2, 67));
    assert_eq!(ctx.user_stake, record_of(ALICE, 0));
}

#[test]
fn share_is_computed_without_losing_high_bits() {
    let half = u64::MAX / 2;
    let mut ctx = withdraw_ctx(pool_with(u64::MAX - 1, half), record_of(ALICE, half), ALICE);
    // half * half / (2 * half) = half / 2, though the product needs 126 bits
    assert_eq!(ctx.transfer(half).unwrap().amount, half + half / 2);
    assert_eq!(withdraw(&mut ctx, half, TransferOutcome::Completed), Ok(()));
    assert_eq!(ctx.pool, pool_with(half, half - half / 2));
}

#[test]
fn totals_follow_the_records() {
    let mut pool = open_pool();
    let mut records: Vec<Option<UserStake>> = vec![None, None, None];
    let users = [ALICE, BOB, 4u8];
    let stakes = [700u64, 1200, 55, 45, 1, 999];
    let mut deposited = 0u64;
    let mut paid = 0u64;

    for (round, amount) in stakes.iter().enumerate() {
        let who = round % 3;
        let mut ctx = stake_ctx(pool, records[who], users[who]);
        assert_eq!(stake(&mut ctx, *amount, TransferOutcome::Completed), Ok(()));
        pool = ctx.pool;
        records[who] = ctx.user_stake;
        let sum: u64 = records.iter().map(|r| r.map_or(0, |r| r.amount)).sum();
        assert_eq!(pool.total_staked, sum);

        let mut ctx = reward_ctx(pool, OWNER);
        assert_eq!(distribute_rewards(&mut ctx, 17, TransferOutcome::Completed), Ok(()));
        pool = ctx.pool;
        deposited += 17;
        assert_eq!(pool.total_rewards, deposited - paid);
    }

    for who in 0..3 {
        let record = records[who].unwrap();
        let mut ctx = withdraw_ctx(pool, record, users[who]);
        let part = record.amount / 2 + 1;
        let payout = ctx.transfer(part).unwrap().amount;
        assert_eq!(withdraw(&mut ctx, part, TransferOutcome::Completed), Ok(()));
        paid += payout - part;
        pool = ctx.pool;
        records[who] = Some(ctx.user_stake);
        let sum: u64 = records.iter().map(|r| r.map_or(0, |r| r.amount)).sum();
        assert_eq!(pool.total_staked, sum);
        assert_eq!(pool.total_rewards, deposited - paid);
    }
}

#[test]
fn error_messages() {
    assert_eq!(ErrorCode::InsufficientStake.message(), "Insufficient stake amount");
    assert_eq!(ErrorCode::ZeroAmount.message(), "Amount must be greater than zero");
    assert_eq!(ErrorCode::ArithmeticOverflow.message(), "Arithmetic overflow");
    assert_eq!(ErrorCode::TransferFailure.message(), "Token transfer failed");
    assert_eq!(ErrorCode::Unauthorized.message(), "Caller does not own the record");
    assert_eq!(ErrorCode::AlreadyInitialized.message(), "Pool already initialized");
    assert_eq!(ErrorCode::InvalidAddress.message(), "Address does not match its derivation");
}
