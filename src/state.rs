use vstd::prelude::*;

verus! {

/// An account identity: the 32 bytes of a public key.
#[derive(Clone, Copy, Debug)]
pub struct Pubkey {
    pub bytes: [u8; 32],
}

impl Pubkey {
    /// Whether two identities are the same key.
    pub fn same_as(&self, other: &Pubkey) -> (r: bool)
        ensures
            r == (self.bytes@ == other.bytes@),
    {
        let mut i: usize = 0;
        while i < 32
            invariant
                0 <= i <= 32,
                self.bytes@.len() == 32,
                other.bytes@.len() == 32,
                forall|j: int| 0 <= j < i ==> self.bytes@[j] == other.bytes@[j],
            decreases 32 - i,
        {
            if self.bytes[i] != other.bytes[i] {
                return false;
            }
            i = i + 1;
        }
        assert(self.bytes@ =~= other.bytes@);
        true
    }
}

} // verus!

verus! {

/// Where a run is in its lifecycle. It only ever moves forward:
/// `Waiting`, then `Active`, then `Settled`.
#[derive(Clone, Copy, Debug, PartialEq, Eq, Structural)]
pub enum RunStatus {
    /// Accepting deposits.
    Waiting,
    /// Trading in progress; vote statistics are reported.
    Active,
    /// Trading ended; participants withdraw their shares.
    Settled,
}

impl RunStatus {
    /// The position of the status in the lifecycle.
    pub open spec fn rank(self) -> int {
        match self {
            RunStatus::Waiting => 0,
            RunStatus::Active => 1,
            RunStatus::Settled => 2,
        }
    }
}

/// The platform-wide registry.
#[derive(Clone, Copy, Debug)]
pub struct Platform {
    /// The administrative controller.
    pub authority: Pubkey,
    /// Platform fee in basis points, at most 10000. Stored but not applied to settlement.
    pub platform_fee_bps: u16,
    /// Number of runs created so far.
    pub total_runs: u64,
    /// While set, no run can be created and no deposit is accepted.
    pub is_paused: bool,
    /// Address bump of the registry account.
    pub bump: u8,
}

/// The ledger of one run.
#[derive(Clone, Copy, Debug)]
pub struct Run {
    pub run_id: u64,
    /// The identity permitted to drive this run's lifecycle.
    pub authority: Pubkey,
    pub status: RunStatus,
    /// Sum of all accepted deposits.
    pub total_deposited: u64,
    /// Vault balance recorded at settlement; 0 until then.
    pub final_balance: u64,
    /// Number of accepted participation records.
    pub participant_count: u16,
    pub min_deposit: u64,
    pub max_deposit: u64,
    pub max_participants: u16,
    pub created_at: i64,
    pub started_at: i64,
    pub ended_at: i64,
    /// Address bump of the run account, which signs for the run's vault.
    pub bump: u8,
}

impl Run {
    /// The well-formedness of a run: its configuration is valid and it is not over capacity.
    pub open spec fn wf(self) -> bool {
        &&& 0 < self.min_deposit <= self.max_deposit
        &&& 0 < self.max_participants
        &&& self.participant_count <= self.max_participants
    }

    pub open spec fn profit_spec(self) -> int {
        if self.final_balance > self.total_deposited {
            self.final_balance - self.total_deposited
        } else {
            0
        }
    }

    /// Net profit of the run, `max(final_balance - total_deposited, 0)`; for reporting only.
    pub fn profit(&self) -> (r: u64)
        ensures
            r == self.profit_spec(),
    {
        if self.final_balance > self.total_deposited {
            self.final_balance - self.total_deposited
        } else {
            0
        }
    }
}

/// The record of one participant in one run.
#[derive(Clone, Copy, Debug)]
pub struct UserParticipation {
    pub user: Pubkey,
    pub run_id: u64,
    pub deposit_amount: u64,
    /// The entitlement paid out at withdrawal; 0 until then.
    pub final_share: u64,
    pub withdrawn: bool,
    pub correct_votes: u8,
    pub total_votes: u8,
    /// Address bump of the participation account.
    pub bump: u8,
}

/// A share reported at settlement. Only the number of them is checked.
#[derive(Clone, Copy, Debug)]
pub struct ParticipantShare {
    pub user: Pubkey,
    pub share_amount: u64,
}

} // verus!
