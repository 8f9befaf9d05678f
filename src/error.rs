use vstd::prelude::*;

verus! {

/// Every way an instruction can be rejected. A rejected instruction changes nothing.
#[derive(Clone, Copy, Debug, PartialEq, Eq, Structural)]
pub enum ErrorCode {
    InvalidFee,
    PlatformPaused,
    PlatformNotPaused,
    InvalidDepositAmount,
    InvalidParticipantLimit,
    RunNotInWaitingPhase,
    DepositTooLow,
    DepositTooHigh,
    RunFull,
    InvalidRunStatus,
    NoParticipants,
    InvalidSharesCount,
    VaultBalanceMismatch,
    RunNotSettled,
    AlreadyWithdrawn,
    InsufficientVaultFunds,
    /// The signer is not the authority recorded on the platform or the run.
    Unauthorized,
}

} // verus!
