pub mod accounts;
pub mod error;
pub mod instructions;
pub mod laws;
pub mod settlement;
pub mod state;

pub use accounts::{
    AdminAction, CreateRun, CreateRunVault, Deposit, EmergencyWithdraw, InitializePlatform,
    ManageRun, SettleRun, UpdateVoteStats, Withdraw,
};
pub use error::ErrorCode;
pub use instructions::{
    create_run, create_run_vault, deposit, emergency_withdraw, initialize_platform, pause_platform,
    settle_run, start_run, unpause_platform, update_vote_stats, withdraw,
};
pub use settlement::user_share;
pub use state::{ParticipantShare, Platform, Pubkey, Run, RunStatus, UserParticipation};
