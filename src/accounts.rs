use vstd::prelude::*;
use crate::state::{Platform, Pubkey, Run, UserParticipation};

verus! {

/// The records that `initialize_platform` works on.
#[derive(Clone, Copy, Debug)]
pub struct InitializePlatform {
    /// The registry being initialized.
    pub platform: Platform,
    /// The signer, who becomes the platform authority.
    pub authority: Pubkey,
    /// Address bump of the registry account.
    pub platform_bump: u8,
}

/// The records that `create_run_vault` works on.
#[derive(Clone, Copy, Debug)]
pub struct CreateRunVault {
    /// The run whose vault is provisioned.
    pub run: Run,
}

/// The records that `create_run` works on.
#[derive(Clone, Copy, Debug)]
pub struct CreateRun {
    pub platform: Platform,
    /// The run being created.
    pub run: Run,
    /// The signer paying for the run's record.
    pub authority: Pubkey,
    /// Address bump of the new run account.
    pub run_bump: u8,
    /// The current unix timestamp.
    pub now: i64,
}

/// The records that `deposit` works on.
#[derive(Clone, Copy, Debug)]
pub struct Deposit {
    pub platform: Platform,
    pub run: Run,
    /// The participation record being created.
    pub user_participation: UserParticipation,
    /// The depositor.
    pub user: Pubkey,
    /// Address bump of the new participation account.
    pub participation_bump: u8,
}

/// The records that `start_run` works on.
#[derive(Clone, Copy, Debug)]
pub struct ManageRun {
    pub platform: Platform,
    pub run: Run,
    /// The signer; must be the run's authority.
    pub authority: Pubkey,
    /// The current unix timestamp.
    pub now: i64,
}

/// The records that `settle_run` works on.
#[derive(Clone, Copy, Debug)]
pub struct SettleRun {
    pub platform: Platform,
    pub run: Run,
    /// The balance observed in the run's vault.
    pub vault_balance: u64,
    /// The signer; must be the run's authority.
    pub authority: Pubkey,
    /// The current unix timestamp.
    pub now: i64,
}

/// The records that `withdraw` works on.
#[derive(Clone, Copy, Debug)]
pub struct Withdraw {
    pub run: Run,
    /// The withdrawing participant's record in this run.
    pub user_participation: UserParticipation,
    /// The balance observed in the run's vault.
    pub vault_balance: u64,
    /// The withdrawing participant.
    pub user: Pubkey,
}

/// The records that `update_vote_stats` works on.
#[derive(Clone, Copy, Debug)]
pub struct UpdateVoteStats {
    pub platform: Platform,
    pub run: Run,
    /// The record of the participant whose counters are replaced.
    pub user_participation: UserParticipation,
    /// The signer; must be the run's authority.
    pub authority: Pubkey,
}

/// The records that `pause_platform` and `unpause_platform` work on.
#[derive(Clone, Copy, Debug)]
pub struct AdminAction {
    pub platform: Platform,
    /// The signer; must be the platform authority.
    pub authority: Pubkey,
}

/// The records that `emergency_withdraw` works on.
#[derive(Clone, Copy, Debug)]
pub struct EmergencyWithdraw {
    pub platform: Platform,
    /// The run whose vault is drained.
    pub run: Run,
    /// The signer; must be the platform authority.
    pub authority: Pubkey,
}

} // verus!
