//! Why an operation was refused.

use vstd::prelude::*;

verus! {

/// The refusals that are the platform's own rules.
#[derive(Clone, Copy, Debug, PartialEq, Eq, Structural)]
pub enum DonationError {
    /// A donation must move more than nothing.
    InvalidAmount,
    /// The bank holds nothing above its reserve floor.
    NoAmount,
}

/// The refusals of the transfer primitive.
#[derive(Clone, Copy, Debug, PartialEq, Eq, Structural)]
pub enum TransferError {
    /// The paying side holds less than the amount.
    InsufficientFunds,
    /// The receiving side cannot hold that much more.
    BalanceOverflow,
}

/// The refusals that guard an operation before it touches any record.
#[derive(Clone, Copy, Debug, PartialEq, Eq, Structural)]
pub enum AccessError {
    /// The signer is not the owner of the bank.
    SignerMismatch,
    /// A record does not sit at the address derived for it.
    AddressMismatch,
    /// The record to create exists already.
    AccountInUse,
    /// One record was handed in for two roles that the operation changes.
    DuplicateAccount,
}

/// Every way in which an operation can fail. A failed operation changes nothing.
#[derive(Clone, Copy, Debug, PartialEq, Eq, Structural)]
pub enum PlatformError {
    /// A rule of the platform refused the request.
    Program(DonationError),
    /// The value could not be moved.
    Transfer(TransferError),
    /// The request was not entitled to the records it named.
    Access(AccessError),
    /// No address can be derived for the identity: the deployment is unusable.
    Derivation,
}

} // verus!
