use vstd::prelude::*;
use vstd::arithmetic::div_mod::{lemma_div_is_ordered, lemma_div_by_multiple};

verus! {

/// A participant's share of the final balance, in proportion to the deposit, rounded down.
pub open spec fn base_share(deposit_amount: int, final_balance: int, total_deposited: int) -> int {
    deposit_amount * final_balance / total_deposited
}

/// The bonus of one percent of the base share per correct vote, rounded down.
pub open spec fn vote_bonus(base: int, correct_votes: int) -> int {
    base * (correct_votes * 100) / 10000
}

/// What a participant is owed at withdrawal: base share plus vote bonus.
pub open spec fn entitlement(
    deposit_amount: int,
    final_balance: int,
    total_deposited: int,
    correct_votes: int,
) -> int {
    let base = base_share(deposit_amount, final_balance, total_deposited);
    base + vote_bonus(base, correct_votes)
}

/// A proportional share never exceeds the whole balance.
pub proof fn lemma_base_share_bounded(d: int, f: int, t: int)
    requires
        0 <= d <= t,
        0 < t,
        0 <= f,
    ensures
        0 <= base_share(d, f, t) <= f,
{
    assert(0 <= d * f <= t * f) by (nonlinear_arith)
        requires
            0 <= d <= t,
            0 <= f,
    ;
    lemma_div_is_ordered(0, d * f, t);
    lemma_div_is_ordered(d * f, t * f, t);
    assert(t * f == f * t) by (nonlinear_arith);
    lemma_div_by_multiple(f, t);
}

/// Computes a participant's entitlement with 128-bit intermediates, so that no
/// product of 64-bit amounts can overflow.
pub fn user_share(
    deposit_amount: u64,
    final_balance: u64,
    total_deposited: u64,
    correct_votes: u8,
) -> (r: u128)
    requires
        0 < total_deposited,
        deposit_amount <= total_deposited,
    ensures
        r == entitlement(
            deposit_amount as int,
            final_balance as int,
            total_deposited as int,
            correct_votes as int,
        ),
{
    assert((deposit_amount as int) * (final_balance as int) <= u64::MAX as int * u64::MAX as int)
        by (nonlinear_arith)
        requires
            deposit_amount <= u64::MAX,
            final_balance <= u64::MAX,
            0 <= deposit_amount,
            0 <= final_balance,
    ;
    let numerator: u128 = (deposit_amount as u128) * (final_balance as u128);
    let base: u128 = numerator / (total_deposited as u128);
    proof {
        lemma_base_share_bounded(deposit_amount as int, final_balance as int, total_deposited as int);
    }
    let bonus_bps: u128 = (correct_votes as u128) * 100;
    assert(base * bonus_bps <= u64::MAX as int * 25500) by (nonlinear_arith)
        requires
            0 <= base <= u64::MAX,
            0 <= bonus_bps <= 25500,
    ;
    let bonus: u128 = base * bonus_bps / 10000;
    assert(bonus <= base * bonus_bps);
    base + bonus
}

} // verus!
