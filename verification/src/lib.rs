//! A donation platform: donors move value into per-owner banks, a ledger keeps
//! each donor's running total, and a bank's owner withdraws what the bank holds
//! above its reserve floor.

pub mod accounts;
pub mod address;
pub mod engine;
pub mod error;
pub mod identity;
pub mod laws;
pub mod records;

pub use accounts::{Account, Context, Donation, Initialize, Signer, Withdraw};
pub use address::{bank_address, ledger_address, DerivedAddress};
pub use engine::{donation, donation_with, initialize, initialize_with, transfer, withdraw};
pub use error::{AccessError, DonationError, PlatformError, TransferError};
pub use identity::Identity;
pub use records::{BaseAccount, DonationData, DonationEvent, WithdrawEvent};
