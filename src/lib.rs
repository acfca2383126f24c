//! A milestone escrow: a depositor's funds are held in a vault and released
//! milestone by milestone, with an admin fee split between two
//! administrators, and a resolver who settles disputed milestones for a fee.
//!
//! The handlers decide and record; moving tokens is left to the caller,
//! who performs the transfers that each handler returns.
pub mod address;
pub mod admin;
pub mod error;
pub mod escrow;
pub mod fees;
pub mod laws;
pub mod pda;
pub mod state;

pub use address::Address;
pub use admin::{change_admin, init_admin, set_fee, ChangeAdmin, InitAdmin, SetFee};
pub use error::EscrowError;
pub use escrow::{
    approve, dispute, initialize, refund, resolve, withdraw_for_resolve, Approve, Deposit, Dispute,
    Initialize, Refund, Resolve, WithdrawForResolve,
};
pub use fees::{split, Split, SplitMode};
pub use state::{AdminState, EscrowState, TokenAccount};
