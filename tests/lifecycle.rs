use instinct_trading::{
    create_run, create_run_vault, deposit, emergency_withdraw, initialize_platform, pause_platform,
    settle_run, start_run, unpause_platform, update_vote_stats, user_share, withdraw, AdminAction,
    CreateRun, CreateRunVault, Deposit, EmergencyWithdraw, ErrorCode, InitializePlatform,
    ManageRun, ParticipantShare, Platform, Pubkey, Run, RunStatus, SettleRun, UpdateVoteStats,
    UserParticipation, Withdraw,
};

fn key(b: u8) -> Pubkey {
    Pubkey { bytes: [b; 32] }
}

const ADMIN: u8 = 1;
const ALICE: u8 = 2;
const BOB: u8 = 3;
const CAROL: u8 = 4;

fn blank_platform() -> Platform {
    Platform { authority: key(0), platform_fee_bps: 0, total_runs: 0, is_paused: false, bump: 0 }
}

fn blank_run() -> Run {
    Run {
        run_id: 0,
        authority: key(0),
        status: RunStatus::Waiting,
        total_deposited: 0,
        final_balance: 0,
        participant_count: 0,
        min_deposit: 0,
        max_deposit: 0,
        max_participants: 0,
        created_at: 0,
        started_at: 0,
        ended_at: 0,
        bump: 0,
    }
}

fn blank_participation() -> UserParticipation {
    UserParticipation {
        user: key(0),
        run_id: 0,
        deposit_amount: 0,
        final_share: 0,
        withdrawn: false,
        correct_votes: 0,
        total_votes: 0,
        bump: 0,
    }
}

fn platform() -> Platform {
    let mut ctx = InitializePlatform { platform: blank_platform(), authority: key(ADMIN), platform_bump: 254 };
    assert_eq!(initialize_platform(&mut ctx, 1500), Ok(()));
    ctx.platform
}

fn new_run(platform: &mut Platform, min: u64, max: u64, cap: u16) -> Run {
    let mut ctx = CreateRun { platform: *platform, run: blank_run(), authority: key(ADMIN), run_bump: 253, now: 1000 };
    assert_eq!(create_run(&mut ctx, 7, min, max, cap), Ok(()));
    *platform = ctx.platform;
    ctx.run
}

fn try_deposit(platform: &Platform, run: &mut Run, who: u8, amount: u64) -> Result<UserParticipation, ErrorCode> {
    let mut ctx = Deposit {
        platform: *platform,
        run: *run,
        user_participation: blank_participation(),
        user: key(who),
        participation_bump: 200,
    };
    let r = deposit(&mut ctx, run.run_id, amount);
    *run = ctx.run;
    r.map(|_| ctx.user_participation)
}

fn start(platform: &Platform, run: &mut Run) -> Result<(), ErrorCode> {
    let mut ctx = ManageRun { platform: *platform, run: *run, authority: key(ADMIN), now: 2000 };
    let r = start_run(&mut ctx, run.run_id);
    *run = ctx.run;
    r
}

fn shares(n: usize) -> Vec<ParticipantShare> {
    (0..n).map(|i| ParticipantShare { user: key(i as u8), share_amount: 0 }).collect()
}

fn settle(platform: &Platform, run: &mut Run, final_balance: u64, vault: u64, n: usize) -> Result<(), ErrorCode> {
    let mut ctx = SettleRun { platform: *platform, run: *run, vault_balance: vault, authority: key(ADMIN), now: 3000 };
    let r = settle_run(&mut ctx, run.run_id, final_balance, shares(n));
    *run = ctx.run;
    r
}

fn votes(platform: &Platform, run: &Run, p: &mut UserParticipation, correct: u8, total: u8) -> Result<(), ErrorCode> {
    let mut ctx = UpdateVoteStats { platform: *platform, run: *run, user_participation: *p, authority: key(ADMIN) };
    let r = update_vote_stats(&mut ctx, run.run_id, p.user, correct, total);
    *p = ctx.user_participation;
    r
}

fn take(run: &Run, p: &mut UserParticipation, vault: &mut u64) -> Result<u64, ErrorCode> {
    let mut ctx = Withdraw { run: *run, user_participation: *p, vault_balance: *vault, user: p.user };
    let r = withdraw(&mut ctx, run.run_id);
    *p = ctx.user_participation;
    r.map(|_| {
        *vault -= p.final_share;
        p.final_share
    })
}

#[test]
fn example_scenario_pays_exactly_the_final_balance() {
    let mut pf = platform();
    let mut run = new_run(&mut pf, 10, 100, 2);
    let mut a = try_deposit(&pf, &mut run, ALICE, 40).unwrap();
    let mut b = try_deposit(&pf, &mut run, BOB, 60).unwrap();
    assert_eq!(run.total_deposited, 100);
    assert_eq!(run.participant_count, 2);
    start(&pf, &mut run).unwrap();
    votes(&pf, &run, &mut a, 1, 1).unwrap();
    votes(&pf, &run, &mut b, 0, 1).unwrap();
    settle(&pf, &mut run, 120, 120, 2).unwrap();
    assert_eq!(run.status, RunStatus::Settled);
    assert_eq!(run.final_balance, 120);
    assert_eq!(run.profit(), 20);
    let mut vault: u64 = 120;
    assert_eq!(take(&run, &mut a, &mut vault), Ok(48));
    assert_eq!(take(&run, &mut b, &mut vault), Ok(72));
    assert_eq!(vault, 0);
}

#[test]
fn initialize_rejects_fee_over_full() {
    let mut ctx = InitializePlatform { platform: blank_platform(), authority: key(ADMIN), platform_bump: 9 };
    assert_eq!(initialize_platform(&mut ctx, 10001), Err(ErrorCode::InvalidFee));
    assert_eq!(ctx.platform.platform_fee_bps, 0);
    assert_eq!(initialize_platform(&mut ctx, 10000), Ok(()));
    assert_eq!(ctx.platform.platform_fee_bps, 10000);
    assert_eq!(ctx.platform.authority.bytes, [ADMIN; 32]);
    assert_eq!(ctx.platform.bump, 9);
    assert!(!ctx.platform.is_paused);
}

#[test]
fn create_run_counts_runs_and_validates() {
    let mut pf = platform();
    let run = new_run(&mut pf, 10, 100, 5);
    assert_eq!(pf.total_runs, 1);
    assert_eq!(run.status, RunStatus::Waiting);
    assert_eq!(run.run_id, 7);
    assert_eq!(run.created_at, 1000);
    assert_eq!(run.authority.bytes, [ADMIN; 32]);
    new_run(&mut pf, 1, 1, 1);
    assert_eq!(pf.total_runs, 2);

    let mut ctx = CreateRun { platform: pf, run: blank_run(), authority: key(ADMIN), run_bump: 1, now: 5 };
    assert_eq!(create_run(&mut ctx, 8, 0, 10, 3), Err(ErrorCode::InvalidDepositAmount));
    assert_eq!(create_run(&mut ctx, 8, 20, 10, 3), Err(ErrorCode::InvalidDepositAmount));
    assert_eq!(create_run(&mut ctx, 8, 10, 20, 0), Err(ErrorCode::InvalidParticipantLimit));
    assert_eq!(ctx.platform.total_runs, 2);
}

#[test]
fn deposit_errors_in_order() {
    let mut pf = platform();
    let mut run = new_run(&mut pf, 10, 100, 1);
    assert_eq!(try_deposit(&pf, &mut run, ALICE, 9).err(), Some(ErrorCode::DepositTooLow));
    assert_eq!(try_deposit(&pf, &mut run, ALICE, 101).err(), Some(ErrorCode::DepositTooHigh));
    assert_eq!(run.participant_count, 0);
    assert_eq!(run.total_deposited, 0);
    let p = try_deposit(&pf, &mut run, ALICE, 10).unwrap();
    assert_eq!(p.deposit_amount, 10);
    assert_eq!(p.user.bytes, [ALICE; 32]);
    assert!(!p.withdrawn);
    assert_eq!(p.correct_votes, 0);
    assert_eq!(try_deposit(&pf, &mut run, BOB, 100).err(), Some(ErrorCode::RunFull));
    start(&pf, &mut run).unwrap();
    assert_eq!(try_deposit(&pf, &mut run, BOB, 50).err(), Some(ErrorCode::RunNotInWaitingPhase));
    assert_eq!(run.total_deposited, 10);
}

#[test]
fn last_place_admits_exactly_one() {
    let mut pf = platform();
    let mut run = new_run(&mut pf, 10, 100, 3);
    try_deposit(&pf, &mut run, ALICE, 50).unwrap();
    try_deposit(&pf, &mut run, BOB, 50).unwrap();
    let results: Vec<_> = (10..14u8).map(|who| try_deposit(&pf, &mut run, who, 20)).collect();
    assert!(results[0].is_ok());
    for r in &results[1..] {
        assert_eq!(r.as_ref().err(), Some(&ErrorCode::RunFull));
    }
    assert_eq!(run.participant_count, 3);
    assert_eq!(run.total_deposited, 120);
}

#[test]
fn conservation_over_many_deposits() {
    let mut pf = platform();
    let mut run = new_run(&mut pf, 5, 50, 4);
    let offers = [3u64, 5, 51, 50, 17, 8, 9];
    let mut admitted = Vec::new();
    for (i, &a) in offers.iter().enumerate() {
        if let Ok(p) = try_deposit(&pf, &mut run, 20 + i as u8, a) {
            admitted.push(p.deposit_amount);
        }
    }
    assert_eq!(admitted, vec![5, 50, 17, 8]);
    assert_eq!(run.total_deposited, admitted.iter().sum::<u64>());
    assert_eq!(run.participant_count as usize, admitted.len());
}

#[test]
fn lifecycle_only_moves_forward() {
    let mut pf = platform();
    let mut run = new_run(&mut pf, 10, 100, 2);
    assert_eq!(start(&pf, &mut run), Err(ErrorCode::NoParticipants));
    assert_eq!(settle(&pf, &mut run, 0, 0, 0), Err(ErrorCode::InvalidRunStatus));
    let mut a = try_deposit(&pf, &mut run, ALICE, 10).unwrap();
    let mut vault: u64 = 10;
    assert_eq!(take(&run, &mut a, &mut vault), Err(ErrorCode::RunNotSettled));
    assert_eq!(votes(&pf, &run, &mut a, 1, 1), Err(ErrorCode::InvalidRunStatus));
    start(&pf, &mut run).unwrap();
    assert_eq!(run.status, RunStatus::Active);
    assert_eq!(run.started_at, 2000);
    assert_eq!(start(&pf, &mut run), Err(ErrorCode::InvalidRunStatus));
    assert_eq!(take(&run, &mut a, &mut vault), Err(ErrorCode::RunNotSettled));
    settle(&pf, &mut run, 10, 10, 1).unwrap();
    assert_eq!(run.ended_at, 3000);
    assert_eq!(start(&pf, &mut run), Err(ErrorCode::InvalidRunStatus));
    assert_eq!(settle(&pf, &mut run, 10, 10, 1), Err(ErrorCode::InvalidRunStatus));
    assert_eq!(votes(&pf, &run, &mut a, 1, 1), Err(ErrorCode::InvalidRunStatus));
    assert_eq!(try_deposit(&pf, &mut run, BOB, 10).err(), Some(ErrorCode::RunNotInWaitingPhase));
    assert_eq!(run.status, RunStatus::Settled);
}

#[test]
fn settlement_checks_vault_and_share_count() {
    let mut pf = platform();
    let mut run = new_run(&mut pf, 10, 100, 2);
    try_deposit(&pf, &mut run, ALICE, 40).unwrap();
    try_deposit(&pf, &mut run, BOB, 60).unwrap();
    start(&pf, &mut run).unwrap();
    assert_eq!(settle(&pf, &mut run, 120, 120, 1), Err(ErrorCode::InvalidSharesCount));
    assert_eq!(settle(&pf, &mut run, 120, 119, 2), Err(ErrorCode::VaultBalanceMismatch));
    assert_eq!(settle(&pf, &mut run, 121, 120, 2), Err(ErrorCode::VaultBalanceMismatch));
    assert_eq!(run.status, RunStatus::Active);
    assert_eq!(run.final_balance, 0);
    assert_eq!(settle(&pf, &mut run, 90, 90, 2), Ok(()));
    assert_eq!(run.final_balance, 90);
    assert_eq!(run.profit(), 0);
}

#[test]
fn only_the_run_authority_drives_the_run() {
    let mut pf = platform();
    let mut run = new_run(&mut pf, 10, 100, 2);
    let mut a = try_deposit(&pf, &mut run, ALICE, 40).unwrap();
    let mut ctx = ManageRun { platform: pf, run, authority: key(CAROL), now: 1 };
    assert_eq!(start_run(&mut ctx, 7), Err(ErrorCode::Unauthorized));
    assert_eq!(ctx.run.status, RunStatus::Waiting);
    start(&pf, &mut run).unwrap();
    let mut ctx = UpdateVoteStats { platform: pf, run, user_participation: a, authority: key(CAROL) };
    assert_eq!(update_vote_stats(&mut ctx, 7, key(ALICE), 3, 3), Err(ErrorCode::Unauthorized));
    let mut ctx = SettleRun { platform: pf, run, vault_balance: 40, authority: key(CAROL), now: 1 };
    assert_eq!(settle_run(&mut ctx, 7, 40, shares(1)), Err(ErrorCode::Unauthorized));
    settle(&pf, &mut run, 40, 40, 1).unwrap();
    let mut ctx = Withdraw { run, user_participation: a, vault_balance: 40, user: key(CAROL) };
    assert_eq!(withdraw(&mut ctx, 7), Err(ErrorCode::Unauthorized));
    let mut vault: u64 = 40;
    assert_eq!(take(&run, &mut a, &mut vault), Ok(40));
}

#[test]
fn withdraw_happens_at_most_once() {
    let mut pf = platform();
    let mut run = new_run(&mut pf, 10, 100, 2);
    let mut a = try_deposit(&pf, &mut run, ALICE, 50).unwrap();
    try_deposit(&pf, &mut run, BOB, 50).unwrap();
    start(&pf, &mut run).unwrap();
    settle(&pf, &mut run, 300, 300, 2).unwrap();
    let mut vault: u64 = 300;
    assert_eq!(take(&run, &mut a, &mut vault), Ok(150));
    assert_eq!(vault, 150);
    for _ in 0..3 {
        assert_eq!(take(&run, &mut a, &mut vault), Err(ErrorCode::AlreadyWithdrawn));
        assert_eq!(a.final_share, 150);
        assert_eq!(vault, 150);
    }
}

#[test]
fn bonus_beyond_vault_is_refused() {
    let mut pf = platform();
    let mut run = new_run(&mut pf, 10, 1000, 1);
    let mut a = try_deposit(&pf, &mut run, ALICE, 1000).unwrap();
    start(&pf, &mut run).unwrap();
    votes(&pf, &run, &mut a, 12, 12).unwrap();
    assert_eq!(a.correct_votes, 12);
    assert_eq!(a.total_votes, 12);
    settle(&pf, &mut run, 1000, 1000, 1).unwrap();
    let mut vault: u64 = 1000;
    assert_eq!(take(&run, &mut a, &mut vault), Err(ErrorCode::InsufficientVaultFunds));
    assert!(!a.withdrawn);
    assert_eq!(vault, 1000);
    vault = 1120;
    assert_eq!(take(&run, &mut a, &mut vault), Ok(1120));
}

#[test]
fn vote_stats_overwrite() {
    let mut pf = platform();
    let mut run = new_run(&mut pf, 10, 100, 1);
    let mut a = try_deposit(&pf, &mut run, ALICE, 10).unwrap();
    start(&pf, &mut run).unwrap();
    votes(&pf, &run, &mut a, 2, 3).unwrap();
    votes(&pf, &run, &mut a, 1, 4).unwrap();
    assert_eq!((a.correct_votes, a.total_votes), (1, 4));
}

#[test]
fn pause_blocks_creation_and_deposits_only() {
    let mut pf = platform();
    let mut run = new_run(&mut pf, 10, 100, 2);
    let mut a = try_deposit(&pf, &mut run, ALICE, 50).unwrap();

    let mut admin = AdminAction { platform: pf, authority: key(CAROL) };
    assert_eq!(pause_platform(&mut admin), Err(ErrorCode::Unauthorized));
    assert!(!admin.platform.is_paused);
    admin.authority = key(ADMIN);
    assert_eq!(pause_platform(&mut admin), Ok(()));
    pf = admin.platform;
    assert!(pf.is_paused);

    let mut ctx = CreateRun { platform: pf, run: blank_run(), authority: key(ADMIN), run_bump: 1, now: 5 };
    assert_eq!(create_run(&mut ctx, 9, 10, 100, 2), Err(ErrorCode::PlatformPaused));
    assert_eq!(try_deposit(&pf, &mut run, BOB, 50).err(), Some(ErrorCode::PlatformPaused));

    start(&pf, &mut run).unwrap();
    votes(&pf, &run, &mut a, 1, 1).unwrap();
    settle(&pf, &mut run, 100, 100, 1).unwrap();
    let mut vault: u64 = 101;
    assert_eq!(take(&run, &mut a, &mut vault), Ok(101));

    let mut admin = AdminAction { platform: pf, authority: key(ADMIN) };
    assert_eq!(unpause_platform(&mut admin), Ok(()));
    assert!(!admin.platform.is_paused);
}

#[test]
fn emergency_withdraw_needs_authority_and_pause() {
    let mut pf = platform();
    let run = new_run(&mut pf, 10, 100, 2);
    let ctx = EmergencyWithdraw { platform: pf, run, authority: key(ADMIN) };
    assert_eq!(emergency_withdraw(&ctx, 7, 10), Err(ErrorCode::PlatformNotPaused));
    pf.is_paused = true;
    let ctx = EmergencyWithdraw { platform: pf, run, authority: key(CAROL) };
    assert_eq!(emergency_withdraw(&ctx, 7, 10), Err(ErrorCode::Unauthorized));
    let ctx = EmergencyWithdraw { platform: pf, run, authority: key(ADMIN) };
    assert_eq!(emergency_withdraw(&ctx, 7, 10), Ok(()));
}

#[test]
fn create_run_vault_changes_nothing() {
    let mut pf = platform();
    let run = new_run(&mut pf, 10, 100, 2);
    assert_eq!(create_run_vault(&CreateRunVault { run }, 7), Ok(()));
}

#[test]
fn share_formula_values() {
    assert_eq!(user_share(40, 120, 100, 1), 48);
    assert_eq!(user_share(60, 120, 100, 0), 72);
    assert_eq!(user_share(100, 1000, 100, 12), 1120);
    assert_eq!(user_share(1, 10, 3, 0), 3);
    assert_eq!(user_share(50, 999, 100, 5), 499 + 24);
    // Full 64-bit magnitudes do not overflow.
    assert_eq!(user_share(u64::MAX, u64::MAX, u64::MAX, 0), u64::MAX as u128);
    assert_eq!(user_share(u64::MAX, u64::MAX, u64::MAX, 255), u64::MAX as u128 * 35500 / 10000);
}

#[test]
fn dust_is_bounded_by_participants() {
    let deposits = [10u64, 10, 10];
    let total: u64 = deposits.iter().sum();
    let paid: u128 = deposits.iter().map(|&d| user_share(d, 100, total, 0)).sum();
    assert_eq!(paid, 99);
    assert!(100 - paid <= deposits.len() as u128 - 1);
}
