//! The accounts that an operation is handed: each a plain value, so that an
//! operation is a function from the accounts before to the accounts after.

use crate::identity::Identity;
use crate::records::{BaseAccount, DonationData};
use vstd::prelude::*;

verus! {

/// A record where it lives: its address, the balance it holds, its contents.
///
/// With `Option<..>` as contents the place may still be vacant.
#[derive(Debug, PartialEq, Eq)]
pub struct Account<T> {
    pub key: Identity,
    pub lamports: u64,
    pub data: T,
}

impl<T: Copy> Clone for Account<T> {
    fn clone(&self) -> (copy: Self)
        ensures
            copy == *self,
    {
        *self
    }
}

impl<T: Copy> Copy for Account<T> {

}

/// A principal who authorized the operation, with the balance of its wallet.
#[derive(Clone, Copy, Debug, PartialEq, Eq)]
pub struct Signer {
    pub key: Identity,
    pub lamports: u64,
}

/// What an operation runs in: the program it runs under and its accounts.
#[derive(Debug, PartialEq, Eq)]
pub struct Context<T> {
    pub program_id: Identity,
    pub accounts: T,
}

impl<T: Copy> Clone for Context<T> {
    fn clone(&self) -> (copy: Self)
        ensures
            copy == *self,
    {
        *self
    }
}

impl<T: Copy> Copy for Context<T> {

}

/// The accounts of `initialize`.
#[derive(Clone, Copy, Debug, PartialEq, Eq)]
pub struct Initialize {
    /// The place of the bank to create, funded by the payer.
    pub base_account: Account<Option<BaseAccount>>,
    /// Who paid for the creation.
    pub payer: Signer,
}

/// The accounts of `donation`.
#[derive(Clone, Copy, Debug, PartialEq, Eq)]
pub struct Donation {
    /// The bank that receives.
    pub donation: Account<BaseAccount>,
    /// The donor's ledger entry, vacant before the donor's first donation.
    pub donation_data: Account<Option<DonationData>>,
    /// The donor.
    pub donator: Signer,
}

/// The accounts of `withdraw`.
#[derive(Clone, Copy, Debug, PartialEq, Eq)]
pub struct Withdraw {
    /// The bank that pays out.
    pub donation: Account<BaseAccount>,
    /// Who asks; must be the owner of the bank.
    pub owner: Signer,
    /// The bank that receives.
    pub dest: Account<BaseAccount>,
    /// A ledger entry, carried along and never changed.
    pub bank: Account<DonationData>,
}

impl Donation {
    /// The three accounts that a donation changes are three different ones.
    pub open spec fn distinct(self) -> bool {
        &&& self.donator.key != self.donation.key
        &&& self.donator.key != self.donation_data.key
        &&& self.donation.key != self.donation_data.key
    }
}

impl Withdraw {
    /// The paying bank and the receiving bank are two different ones.
    pub open spec fn distinct(self) -> bool {
        self.donation.key != self.dest.key
    }
}

} // verus!
