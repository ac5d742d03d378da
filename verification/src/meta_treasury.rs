//! The treasury program: pooled funds, a profit pool within them, and two
//! authorities that do not depend on each other.

pub mod accounts;
pub mod distribution;
pub mod emergency;
pub mod events;
pub mod funding;
pub mod laws;
pub mod state;

pub use accounts::{
    AddProfits, DistributeProfits, InitializeTreasury, UpdateMultisig, WithdrawEmergency,
};
pub use distribution::distribute_profits;
pub use emergency::{update_multisig, withdraw_emergency};
pub use events::{
    EmergencyWithdrawal, MultisigUpdated, ProfitsAdded, ProfitsDistributed, TreasuryInitialized,
};
pub use funding::{add_profits, initialize_treasury};
pub use state::{MetaTreasuryError, TreasuryState};
