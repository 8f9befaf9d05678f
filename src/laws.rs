use vstd::prelude::*;
use vstd::arithmetic::div_mod::{lemma_fundamental_div_mod, lemma_mod_pos_bound};
use crate::error::ErrorCode;
use crate::instructions::{
    create_run_check, deposit_check, participation_after_withdraw, run_after_deposit,
    run_after_settle, run_after_start, same_key, settle_check, start_check, vote_stats_check,
    withdraw_check,
};
use crate::settlement::{base_share, entitlement};
use crate::state::{Platform, Pubkey, Run, RunStatus, UserParticipation};

verus! {

/// The sum of a sequence of amounts.
pub open spec fn sum_of(amounts: Seq<u64>) -> int
    decreases amounts.len(),
{
    if amounts.len() == 0 {
        0
    } else {
        sum_of(amounts.drop_last()) + amounts.last()
    }
}

/// Offers the deposits `amounts`, in order, to `run`: the run that results, and the
/// amounts that were admitted.
pub open spec fn deposit_all(platform: Platform, run: Run, amounts: Seq<u64>) -> (Run, Seq<u64>)
    decreases amounts.len(),
{
    if amounts.len() == 0 {
        (run, Seq::empty())
    } else {
        let (before, admitted) = deposit_all(platform, run, amounts.drop_last());
        let a = amounts.last();
        if deposit_check(platform, before, a) is None {
            (run_after_deposit(before, a), admitted.push(a))
        } else {
            (before, admitted)
        }
    }
}

/// Conservation and capacity: whatever deposits are offered to a run, its total grows by
/// exactly the sum of the admitted ones, its participant count by their number, each
/// admitted amount lies within the run's bounds, and the count never passes the
/// run's capacity.
pub proof fn lemma_deposits_conserved(platform: Platform, run: Run, amounts: Seq<u64>)
    requires
        run.participant_count <= run.max_participants,
        run.total_deposited + sum_of(amounts) <= u64::MAX,
    ensures
        ({
            let (after, admitted) = deposit_all(platform, run, amounts);
            &&& after.total_deposited == run.total_deposited + sum_of(admitted)
            &&& after.participant_count == run.participant_count + admitted.len()
            &&& after.participant_count <= after.max_participants
            &&& after.max_participants == run.max_participants
            &&& after.min_deposit == run.min_deposit
            &&& after.max_deposit == run.max_deposit
            &&& forall|i: int|
                0 <= i < admitted.len() ==> run.min_deposit <= #[trigger] admitted[i]
                    <= run.max_deposit
            &&& sum_of(admitted) <= sum_of(amounts)
        }),
    decreases amounts.len(),
{
    if amounts.len() > 0 {
        let rest = amounts.drop_last();
        lemma_deposits_conserved(platform, run, rest);
        let (before, admitted) = deposit_all(platform, run, rest);
        let a = amounts.last();
        if deposit_check(platform, before, a) is None {
            let grown = admitted.push(a);
            assert(grown.drop_last() =~= admitted);
            assert(forall|i: int| 0 <= i < admitted.len() ==> grown[i] == admitted[i]);
        }
    }
}

/// With one free place left, of two valid deposits offered one after the other the
/// first is admitted and the second is refused with `RunFull`.
pub proof fn lemma_last_place(platform: Platform, run: Run, first: u64, second: u64)
    requires
        !platform.is_paused,
        run.status == RunStatus::Waiting,
        run.participant_count + 1 == run.max_participants,
        run.min_deposit <= first <= run.max_deposit,
        run.min_deposit <= second <= run.max_deposit,
        run.total_deposited + first <= u64::MAX,
    ensures
        deposit_check(platform, run, first) is None,
        deposit_check(platform, run_after_deposit(run, first), second) == Some(ErrorCode::RunFull),
{
}

/// Bounds: a deposit is admitted exactly when the platform is not paused, the run is
/// waiting, the amount lies within the run's bounds and the run is not full; otherwise
/// the first failing condition names the error.
pub proof fn lemma_deposit_bounds(platform: Platform, run: Run, amount: u64)
    ensures
        deposit_check(platform, run, amount) is None <==> (!platform.is_paused && run.status
            == RunStatus::Waiting && run.min_deposit <= amount <= run.max_deposit
            && run.participant_count < run.max_participants),
        !platform.is_paused && run.status == RunStatus::Waiting && amount < run.min_deposit
            ==> deposit_check(platform, run, amount) == Some(ErrorCode::DepositTooLow),
        !platform.is_paused && run.status == RunStatus::Waiting && run.min_deposit <= amount
            && amount > run.max_deposit ==> deposit_check(platform, run, amount) == Some(
            ErrorCode::DepositTooHigh,
        ),
        !platform.is_paused && run.status == RunStatus::Waiting && run.min_deposit <= amount
            <= run.max_deposit && run.participant_count >= run.max_participants
            ==> deposit_check(platform, run, amount) == Some(ErrorCode::RunFull),
{
}

/// The lifecycle only moves forward, one step at a time: deposits keep a run waiting,
/// starting moves it from waiting to active, settling from active to settled; each
/// operation asked of a run in another status is refused with its status error.
pub proof fn lemma_lifecycle_forward(
    platform: Platform,
    run: Run,
    p: UserParticipation,
    signer: Pubkey,
    amount: u64,
    final_balance: u64,
    shares_count: int,
    vault_balance: u64,
    now: i64,
)
    ensures
        deposit_check(platform, run, amount) is None ==> run.status == RunStatus::Waiting
            && run_after_deposit(run, amount).status == RunStatus::Waiting,
        start_check(run, signer) is None ==> run.status == RunStatus::Waiting && run_after_start(
            run,
            now,
        ).status == RunStatus::Active && run_after_start(run, now).status.rank()
            == run.status.rank() + 1,
        settle_check(run, signer, final_balance, shares_count, vault_balance) is None ==> run.status
            == RunStatus::Active && run_after_settle(run, final_balance, now).status
            == RunStatus::Settled && run_after_settle(run, final_balance, now).status.rank()
            == run.status.rank() + 1,
        !platform.is_paused && run.status != RunStatus::Waiting ==> deposit_check(
            platform,
            run,
            amount,
        ) == Some(ErrorCode::RunNotInWaitingPhase),
        same_key(signer, run.authority) && run.status != RunStatus::Waiting ==> start_check(
            run,
            signer,
        ) == Some(ErrorCode::InvalidRunStatus),
        same_key(signer, run.authority) && run.status != RunStatus::Active ==> settle_check(
            run,
            signer,
            final_balance,
            shares_count,
            vault_balance,
        ) == Some(ErrorCode::InvalidRunStatus) && vote_stats_check(run, signer) == Some(
            ErrorCode::InvalidRunStatus,
        ),
        same_key(signer, p.user) && run.status != RunStatus::Settled ==> withdraw_check(
            run,
            p,
            signer,
            vault_balance,
        ) == Some(ErrorCode::RunNotSettled),
{
}

/// Settlement cross-check: an authorized settlement of an active run with the right
/// number of shares succeeds exactly when the reported final balance equals the
/// vault's balance, and otherwise fails with `VaultBalanceMismatch`.
pub proof fn lemma_settlement_cross_check(
    run: Run,
    signer: Pubkey,
    final_balance: u64,
    shares_count: int,
    vault_balance: u64,
)
    requires
        same_key(signer, run.authority),
        run.status == RunStatus::Active,
        shares_count == run.participant_count,
    ensures
        settle_check(run, signer, final_balance, shares_count, vault_balance) is None
            <==> final_balance == vault_balance,
        final_balance != vault_balance ==> settle_check(
            run,
            signer,
            final_balance,
            shares_count,
            vault_balance,
        ) == Some(ErrorCode::VaultBalanceMismatch),
{
}

/// At most one withdrawal: once a participant has withdrawn, every later withdrawal by
/// it is refused with `AlreadyWithdrawn`, whatever the vault holds.
pub proof fn lemma_withdraw_once(
    run: Run,
    p: UserParticipation,
    signer: Pubkey,
    vault_balance: u64,
    later_vault_balance: u64,
)
    requires
        withdraw_check(run, p, signer, vault_balance) is None,
    ensures
        withdraw_check(run, participation_after_withdraw(run, p), signer, later_vault_balance)
            == Some(ErrorCode::AlreadyWithdrawn),
{
}

/// Pause gating: while the platform is paused, no run can be created and no deposit is
/// admitted. (Settlement, withdrawal and vote reporting do not read the pause flag.)
pub proof fn lemma_pause_gating(
    platform: Platform,
    run: Run,
    amount: u64,
    min_deposit: u64,
    max_deposit: u64,
    max_participants: u16,
)
    requires
        platform.is_paused,
    ensures
        create_run_check(platform, min_deposit, max_deposit, max_participants) == Some(
            ErrorCode::PlatformPaused,
        ),
        deposit_check(platform, run, amount) == Some(ErrorCode::PlatformPaused),
{
}

/// The sum of the entitlements of participants with deposits `deposits` and correct votes
/// `votes`, on a run with final balance `final_balance` and total deposits `total`.
pub open spec fn entitlements_sum(deposits: Seq<u64>, votes: Seq<u8>, final_balance: int, total: int) -> int
    decreases deposits.len(),
{
    if deposits.len() == 0 {
        0
    } else {
        entitlements_sum(deposits.drop_last(), votes.drop_last(), final_balance, total) + entitlement(
            deposits.last() as int,
            final_balance,
            total,
            votes[deposits.len() - 1] as int,
        )
    }
}

/// Rounding down loses less than one unit per participant, and never creates any.
proof fn lemma_rounded_sum(deposits: Seq<u64>, votes: Seq<u8>, final_balance: int, total: int)
    requires
        0 < total,
        0 <= final_balance,
        deposits.len() == votes.len(),
        forall|i: int| 0 <= i < votes.len() ==> #[trigger] votes[i] == 0,
    ensures
        ({
            let s = entitlements_sum(deposits, votes, final_balance, total);
            &&& s * total <= final_balance * sum_of(deposits)
            &&& final_balance * sum_of(deposits) - s * total <= deposits.len() * (total - 1)
        }),
    decreases deposits.len(),
{
    if deposits.len() > 0 {
        let n = deposits.len();
        let rest = deposits.drop_last();
        let rest_votes = votes.drop_last();
        assert(forall|i: int| 0 <= i < rest_votes.len() ==> rest_votes[i] == votes[i]);
        lemma_rounded_sum(rest, rest_votes, final_balance, total);
        let d = deposits.last() as int;
        let q = base_share(d, final_balance, total);
        let r = (d * final_balance) % total;
        lemma_fundamental_div_mod(d * final_balance, total);
        lemma_mod_pos_bound(d * final_balance, total);
        assert(votes[n - 1] == 0);
        assert(q * (0int * 100) / 10000 == 0) by (nonlinear_arith);
        assert(entitlement(d, final_balance, total, votes[n - 1] as int) == q);
        let s = entitlements_sum(rest, rest_votes, final_balance, total);
        let sum = sum_of(rest);
        assert((s + q) * total <= final_balance * (sum + d) && final_balance * (sum + d) - (s + q)
            * total <= n * (total - 1)) by (nonlinear_arith)
            requires
                s * total <= final_balance * sum,
                final_balance * sum - s * total <= (n - 1) * (total - 1),
                d * final_balance == total * q + r,
                0 <= r < total,
        ;
    }
}

/// Share correctness of the whole run: when no participant has a correct vote, the
/// entitlements of all participants add up to at most the final balance, and fall short
/// of it by at most one unit less than the number of participants.
pub proof fn lemma_shares_within_balance(deposits: Seq<u64>, votes: Seq<u8>, final_balance: u64)
    requires
        deposits.len() == votes.len(),
        sum_of(deposits) > 0,
        forall|i: int| 0 <= i < votes.len() ==> #[trigger] votes[i] == 0,
    ensures
        ({
            let s = entitlements_sum(deposits, votes, final_balance as int, sum_of(deposits));
            &&& s <= final_balance
            &&& final_balance - s <= deposits.len() - 1
        }),
{
    let t = sum_of(deposits);
    let f = final_balance as int;
    let n = deposits.len() as int;
    lemma_rounded_sum(deposits, votes, f, t);
    let s = entitlements_sum(deposits, votes, f, t);
    assert(s <= f) by (nonlinear_arith)
        requires
            0 < t,
            s * t <= f * t,
    ;
    let k = f - s;
    assert(k * t == f * t - s * t) by (nonlinear_arith)
        requires
            k == f - s,
    ;
    assert(n > 0);
    assert(k < n) by (nonlinear_arith)
        requires
            0 < t,
            0 < n,
            k * t <= n * (t - 1),
    {
        if k >= n {
            assert(k * t >= n * t);
        }
    }
}

} // verus!
