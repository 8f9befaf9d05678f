use vstd::prelude::*;
use crate::accounts::{
    AdminAction, CreateRun, CreateRunVault, Deposit, EmergencyWithdraw, InitializePlatform,
    ManageRun, SettleRun, UpdateVoteStats, Withdraw,
};
use crate::error::ErrorCode;
use crate::settlement::{entitlement, user_share};
use crate::state::{ParticipantShare, Platform, Pubkey, Run, RunStatus, UserParticipation};

verus! {

/// Whether two identities are the same key.
pub open spec fn same_key(a: Pubkey, b: Pubkey) -> bool {
    a.bytes@ == b.bytes@
}

/// The rejection, if any, of an instruction, as a `Result`.
pub open spec fn verdict(check: Option<ErrorCode>) -> Result<(), ErrorCode> {
    match check {
        Some(e) => Err(e),
        None => Ok(()),
    }
}

// ---------------------------------------------------------------- platform

/// The registry as `initialize_platform` leaves it.
pub open spec fn initialized_platform(authority: Pubkey, platform_fee_bps: u16, bump: u8) -> Platform {
    Platform { authority, platform_fee_bps, total_runs: 0, is_paused: false, bump }
}

/// Sets up the registry: the signer becomes its authority, no runs, not paused.
pub fn initialize_platform(ctx: &mut InitializePlatform, platform_fee_bps: u16) -> (r: Result<
    (),
    ErrorCode,
>)
    ensures
        platform_fee_bps > 10000 ==> r == Err::<(), ErrorCode>(ErrorCode::InvalidFee) && *final(ctx)
            == *old(ctx),
        platform_fee_bps <= 10000 ==> r == Ok::<(), ErrorCode>(()) && *final(ctx) == (InitializePlatform {
            platform: initialized_platform(old(ctx).authority, platform_fee_bps, old(ctx).platform_bump),
            ..*old(ctx)
        }),
{
    if platform_fee_bps > 10000 {
        return Err(ErrorCode::InvalidFee);
    }
    ctx.platform = Platform {
        authority: ctx.authority,
        platform_fee_bps,
        total_runs: 0,
        is_paused: false,
        bump: ctx.platform_bump,
    };
    Ok(())
}

/// Why the signer may not pause, unpause or drain through the registry, if so.
pub open spec fn admin_check(platform: Platform, signer: Pubkey) -> Option<ErrorCode> {
    if !same_key(signer, platform.authority) {
        Some(ErrorCode::Unauthorized)
    } else {
        None
    }
}

/// Blocks run creation and deposits. Only the platform authority may do so.
pub fn pause_platform(ctx: &mut AdminAction) -> (r: Result<(), ErrorCode>)
    ensures
        r == verdict(admin_check(old(ctx).platform, old(ctx).authority)),
        r is Ok ==> *final(ctx) == (AdminAction {
            platform: Platform { is_paused: true, ..old(ctx).platform },
            ..*old(ctx)
        }),
        r is Err ==> *final(ctx) == *old(ctx),
{
    if !ctx.authority.same_as(&ctx.platform.authority) {
        return Err(ErrorCode::Unauthorized);
    }
    ctx.platform.is_paused = true;
    Ok(())
}

/// Lifts the pause. Only the platform authority may do so.
pub fn unpause_platform(ctx: &mut AdminAction) -> (r: Result<(), ErrorCode>)
    ensures
        r == verdict(admin_check(old(ctx).platform, old(ctx).authority)),
        r is Ok ==> *final(ctx) == (AdminAction {
            platform: Platform { is_paused: false, ..old(ctx).platform },
            ..*old(ctx)
        }),
        r is Err ==> *final(ctx) == *old(ctx),
{
    if !ctx.authority.same_as(&ctx.platform.authority) {
        return Err(ErrorCode::Unauthorized);
    }
    ctx.platform.is_paused = false;
    Ok(())
}

/// Why an emergency withdrawal is refused, if it is.
pub open spec fn emergency_check(platform: Platform, signer: Pubkey) -> Option<ErrorCode> {
    if !same_key(signer, platform.authority) {
        Some(ErrorCode::Unauthorized)
    } else if !platform.is_paused {
        Some(ErrorCode::PlatformNotPaused)
    } else {
        None
    }
}

/// Authorizes moving `amount` out of the run's vault, bypassing the participants'
/// accounting. Only the platform authority may, and only while the platform is paused.
/// No ledger changes; on `Ok` the caller performs the transfer.
pub fn emergency_withdraw(ctx: &EmergencyWithdraw, run_id: u64, amount: u64) -> (r: Result<
    (),
    ErrorCode,
>)
    ensures
        r == verdict(emergency_check(ctx.platform, ctx.authority)),
{
    if !ctx.authority.same_as(&ctx.platform.authority) {
        return Err(ErrorCode::Unauthorized);
    }
    if !ctx.platform.is_paused {
        return Err(ErrorCode::PlatformNotPaused);
    }
    Ok(())
}

// ---------------------------------------------------------------- runs

/// Provisions the run's escrow vault. Nothing in the ledgers changes.
pub fn create_run_vault(ctx: &CreateRunVault, run_id: u64) -> (r: Result<(), ErrorCode>)
    ensures
        r == Ok::<(), ErrorCode>(()),
{
    Ok(())
}

/// Why `create_run` rejects its arguments, if it does.
pub open spec fn create_run_check(
    platform: Platform,
    min_deposit: u64,
    max_deposit: u64,
    max_participants: u16,
) -> Option<ErrorCode> {
    if platform.is_paused {
        Some(ErrorCode::PlatformPaused)
    } else if min_deposit == 0 || max_deposit < min_deposit {
        Some(ErrorCode::InvalidDepositAmount)
    } else if max_participants == 0 {
        Some(ErrorCode::InvalidParticipantLimit)
    } else {
        None
    }
}

/// A run as `create_run` makes it: waiting, empty, with the platform's authority.
pub open spec fn new_run(
    run_id: u64,
    authority: Pubkey,
    min_deposit: u64,
    max_deposit: u64,
    max_participants: u16,
    now: i64,
    bump: u8,
) -> Run {
    Run {
        run_id,
        authority,
        status: RunStatus::Waiting,
        total_deposited: 0,
        final_balance: 0,
        participant_count: 0,
        min_deposit,
        max_deposit,
        max_participants,
        created_at: now,
        started_at: 0,
        ended_at: 0,
        bump,
    }
}

/// Creates a run in the waiting phase and counts it on the platform.
pub fn create_run(
    ctx: &mut CreateRun,
    run_id: u64,
    min_deposit: u64,
    max_deposit: u64,
    max_participants: u16,
) -> (r: Result<(), ErrorCode>)
    requires
        old(ctx).platform.total_runs < u64::MAX,
    ensures
        r == verdict(create_run_check(old(ctx).platform, min_deposit, max_deposit, max_participants)),
        r is Ok ==> *final(ctx) == (CreateRun {
            platform: Platform {
                total_runs: (old(ctx).platform.total_runs + 1) as u64,
                ..old(ctx).platform
            },
            run: new_run(
                run_id,
                old(ctx).platform.authority,
                min_deposit,
                max_deposit,
                max_participants,
                old(ctx).now,
                old(ctx).run_bump,
            ),
            ..*old(ctx)
        }),
        r is Ok ==> final(ctx).run.wf(),
        r is Err ==> *final(ctx) == *old(ctx),
{
    if ctx.platform.is_paused {
        return Err(ErrorCode::PlatformPaused);
    }
    if min_deposit == 0 || max_deposit < min_deposit {
        return Err(ErrorCode::InvalidDepositAmount);
    }
    if max_participants == 0 {
        return Err(ErrorCode::InvalidParticipantLimit);
    }
    ctx.run = Run {
        run_id,
        authority: ctx.platform.authority,
        status: RunStatus::Waiting,
        total_deposited: 0,
        final_balance: 0,
        participant_count: 0,
        min_deposit,
        max_deposit,
        max_participants,
        created_at: ctx.now,
        started_at: 0,
        ended_at: 0,
        bump: ctx.run_bump,
    };
    ctx.platform.total_runs = ctx.platform.total_runs + 1;
    Ok(())
}

/// Why a deposit of `amount` is rejected, if it is; the checks come in this order.
pub open spec fn deposit_check(platform: Platform, run: Run, amount: u64) -> Option<ErrorCode> {
    if platform.is_paused {
        Some(ErrorCode::PlatformPaused)
    } else if run.status != RunStatus::Waiting {
        Some(ErrorCode::RunNotInWaitingPhase)
    } else if amount < run.min_deposit {
        Some(ErrorCode::DepositTooLow)
    } else if amount > run.max_deposit {
        Some(ErrorCode::DepositTooHigh)
    } else if run.participant_count >= run.max_participants {
        Some(ErrorCode::RunFull)
    } else {
        None
    }
}

/// The run after it admits a deposit of `amount`.
pub open spec fn run_after_deposit(run: Run, amount: u64) -> Run {
    Run {
        total_deposited: (run.total_deposited + amount) as u64,
        participant_count: (run.participant_count + 1) as u16,
        ..run
    }
}

/// The participation record that a deposit creates: no votes, not withdrawn.
pub open spec fn new_participation(user: Pubkey, run_id: u64, amount: u64, bump: u8) -> UserParticipation {
    UserParticipation {
        user,
        run_id,
        deposit_amount: amount,
        final_share: 0,
        withdrawn: false,
        correct_votes: 0,
        total_votes: 0,
        bump,
    }
}

/// Admits the signer to a waiting run with a deposit of `amount`. On `Ok` the caller
/// moves `amount` from the participant to the run's vault.
pub fn deposit(ctx: &mut Deposit, run_id: u64, amount: u64) -> (r: Result<(), ErrorCode>)
    requires
        deposit_check(old(ctx).platform, old(ctx).run, amount) is None ==> old(ctx).run.total_deposited
            + amount <= u64::MAX,
    ensures
        r == verdict(deposit_check(old(ctx).platform, old(ctx).run, amount)),
        r is Ok ==> *final(ctx) == (Deposit {
            run: run_after_deposit(old(ctx).run, amount),
            user_participation: new_participation(
                old(ctx).user,
                run_id,
                amount,
                old(ctx).participation_bump,
            ),
            ..*old(ctx)
        }),
        r is Err ==> *final(ctx) == *old(ctx),
        old(ctx).run.wf() ==> final(ctx).run.wf(),
{
    if ctx.platform.is_paused {
        return Err(ErrorCode::PlatformPaused);
    }
    if ctx.run.status != RunStatus::Waiting {
        return Err(ErrorCode::RunNotInWaitingPhase);
    }
    if amount < ctx.run.min_deposit {
        return Err(ErrorCode::DepositTooLow);
    }
    if amount > ctx.run.max_deposit {
        return Err(ErrorCode::DepositTooHigh);
    }
    if ctx.run.participant_count >= ctx.run.max_participants {
        return Err(ErrorCode::RunFull);
    }
    ctx.user_participation = UserParticipation {
        user: ctx.user,
        run_id,
        deposit_amount: amount,
        final_share: 0,
        withdrawn: false,
        correct_votes: 0,
        total_votes: 0,
        bump: ctx.participation_bump,
    };
    ctx.run.total_deposited = ctx.run.total_deposited + amount;
    ctx.run.participant_count = ctx.run.participant_count + 1;
    Ok(())
}

/// Why `start_run` is refused, if it is.
pub open spec fn start_check(run: Run, signer: Pubkey) -> Option<ErrorCode> {
    if !same_key(signer, run.authority) {
        Some(ErrorCode::Unauthorized)
    } else if run.status != RunStatus::Waiting {
        Some(ErrorCode::InvalidRunStatus)
    } else if run.participant_count == 0 {
        Some(ErrorCode::NoParticipants)
    } else {
        None
    }
}

/// The run after it starts at time `now`.
pub open spec fn run_after_start(run: Run, now: i64) -> Run {
    Run { status: RunStatus::Active, started_at: now, ..run }
}

/// Moves a waiting run with participants to the active phase.
pub fn start_run(ctx: &mut ManageRun, run_id: u64) -> (r: Result<(), ErrorCode>)
    ensures
        r == verdict(start_check(old(ctx).run, old(ctx).authority)),
        r is Ok ==> *final(ctx) == (ManageRun {
            run: run_after_start(old(ctx).run, old(ctx).now),
            ..*old(ctx)
        }),
        r is Err ==> *final(ctx) == *old(ctx),
{
    if !ctx.authority.same_as(&ctx.run.authority) {
        return Err(ErrorCode::Unauthorized);
    }
    if ctx.run.status != RunStatus::Waiting {
        return Err(ErrorCode::InvalidRunStatus);
    }
    if ctx.run.participant_count == 0 {
        return Err(ErrorCode::NoParticipants);
    }
    ctx.run.status = RunStatus::Active;
    ctx.run.started_at = ctx.now;
    Ok(())
}

/// Why `settle_run` is refused, if it is.
pub open spec fn settle_check(
    run: Run,
    signer: Pubkey,
    final_balance: u64,
    shares_count: int,
    vault_balance: u64,
) -> Option<ErrorCode> {
    if !same_key(signer, run.authority) {
        Some(ErrorCode::Unauthorized)
    } else if run.status != RunStatus::Active {
        Some(ErrorCode::InvalidRunStatus)
    } else if shares_count != run.participant_count {
        Some(ErrorCode::InvalidSharesCount)
    } else if vault_balance != final_balance {
        Some(ErrorCode::VaultBalanceMismatch)
    } else {
        None
    }
}

/// The run after it settles with `final_balance` at time `now`.
pub open spec fn run_after_settle(run: Run, final_balance: u64, now: i64) -> Run {
    Run { status: RunStatus::Settled, final_balance, ended_at: now, ..run }
}

/// Settles an active run against the balance observed in its vault. Only the number of
/// reported shares is checked; the distribution is computed at withdrawal.
pub fn settle_run(
    ctx: &mut SettleRun,
    run_id: u64,
    final_balance: u64,
    participant_shares: Vec<ParticipantShare>,
) -> (r: Result<(), ErrorCode>)
    ensures
        r == verdict(
            settle_check(
                old(ctx).run,
                old(ctx).authority,
                final_balance,
                participant_shares@.len() as int,
                old(ctx).vault_balance,
            ),
        ),
        r is Ok ==> *final(ctx) == (SettleRun {
            run: run_after_settle(old(ctx).run, final_balance, old(ctx).now),
            ..*old(ctx)
        }),
        r is Err ==> *final(ctx) == *old(ctx),
{
    if !ctx.authority.same_as(&ctx.run.authority) {
        return Err(ErrorCode::Unauthorized);
    }
    if ctx.run.status != RunStatus::Active {
        return Err(ErrorCode::InvalidRunStatus);
    }
    if participant_shares.len() != ctx.run.participant_count as usize {
        return Err(ErrorCode::InvalidSharesCount);
    }
    if ctx.vault_balance != final_balance {
        return Err(ErrorCode::VaultBalanceMismatch);
    }
    ctx.run.status = RunStatus::Settled;
    ctx.run.final_balance = final_balance;
    ctx.run.ended_at = ctx.now;
    Ok(())
}

/// What a participation record owes on a run: its entitlement.
pub open spec fn owed(run: Run, p: UserParticipation) -> int {
    entitlement(
        p.deposit_amount as int,
        run.final_balance as int,
        run.total_deposited as int,
        p.correct_votes as int,
    )
}

/// A participation record whose deposit is part of the run's total.
pub open spec fn holds_share_of(p: UserParticipation, run: Run) -> bool {
    0 < run.total_deposited && p.deposit_amount <= run.total_deposited
}

/// Why `withdraw` is refused, if it is.
pub open spec fn withdraw_check(
    run: Run,
    p: UserParticipation,
    signer: Pubkey,
    vault_balance: u64,
) -> Option<ErrorCode> {
    if !same_key(signer, p.user) {
        Some(ErrorCode::Unauthorized)
    } else if run.status != RunStatus::Settled {
        Some(ErrorCode::RunNotSettled)
    } else if p.withdrawn {
        Some(ErrorCode::AlreadyWithdrawn)
    } else if owed(run, p) > vault_balance {
        Some(ErrorCode::InsufficientVaultFunds)
    } else {
        None
    }
}

/// The participation record after it is paid out.
pub open spec fn participation_after_withdraw(run: Run, p: UserParticipation) -> UserParticipation {
    UserParticipation { final_share: owed(run, p) as u64, withdrawn: true, ..p }
}

/// Pays a participant of a settled run its entitlement, once. On `Ok` the caller moves
/// `final_share` of the new record from the run's vault to the participant.
pub fn withdraw(ctx: &mut Withdraw, run_id: u64) -> (r: Result<(), ErrorCode>)
    requires
        old(ctx).run.status == RunStatus::Settled ==> holds_share_of(
            old(ctx).user_participation,
            old(ctx).run,
        ),
    ensures
        r == verdict(
            withdraw_check(
                old(ctx).run,
                old(ctx).user_participation,
                old(ctx).user,
                old(ctx).vault_balance,
            ),
        ),
        r is Ok ==> *final(ctx) == (Withdraw {
            user_participation: participation_after_withdraw(old(ctx).run, old(ctx).user_participation),
            ..*old(ctx)
        }),
        r is Ok ==> final(ctx).user_participation.final_share == owed(
            old(ctx).run,
            old(ctx).user_participation,
        ),
        r is Err ==> *final(ctx) == *old(ctx),
{
    if !ctx.user.same_as(&ctx.user_participation.user) {
        return Err(ErrorCode::Unauthorized);
    }
    if ctx.run.status != RunStatus::Settled {
        return Err(ErrorCode::RunNotSettled);
    }
    if ctx.user_participation.withdrawn {
        return Err(ErrorCode::AlreadyWithdrawn);
    }
    let share: u128 = user_share(
        ctx.user_participation.deposit_amount,
        ctx.run.final_balance,
        ctx.run.total_deposited,
        ctx.user_participation.correct_votes,
    );
    if share > ctx.vault_balance as u128 {
        return Err(ErrorCode::InsufficientVaultFunds);
    }
    ctx.user_participation.final_share = share as u64;
    ctx.user_participation.withdrawn = true;
    Ok(())
}

/// Why `update_vote_stats` is refused, if it is.
pub open spec fn vote_stats_check(run: Run, signer: Pubkey) -> Option<ErrorCode> {
    if !same_key(signer, run.authority) {
        Some(ErrorCode::Unauthorized)
    } else if run.status != RunStatus::Active {
        Some(ErrorCode::InvalidRunStatus)
    } else {
        None
    }
}

/// Replaces a participant's vote counters with the reported cumulative totals.
pub fn update_vote_stats(
    ctx: &mut UpdateVoteStats,
    run_id: u64,
    user_pubkey: Pubkey,
    correct_votes: u8,
    total_votes: u8,
) -> (r: Result<(), ErrorCode>)
    ensures
        r == verdict(vote_stats_check(old(ctx).run, old(ctx).authority)),
        r is Ok ==> *final(ctx) == (UpdateVoteStats {
            user_participation: UserParticipation {
                correct_votes,
                total_votes,
                ..old(ctx).user_participation
            },
            ..*old(ctx)
        }),
        r is Err ==> *final(ctx) == *old(ctx),
{
    if !ctx.authority.same_as(&ctx.run.authority) {
        return Err(ErrorCode::Unauthorized);
    }
    if ctx.run.status != RunStatus::Active {
        return Err(ErrorCode::InvalidRunStatus);
    }
    ctx.user_participation.correct_votes = correct_votes;
    ctx.user_participation.total_votes = total_votes;
    Ok(())
}

} // verus!
