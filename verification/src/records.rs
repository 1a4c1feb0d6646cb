//! The two persisted records and the events that report on them.

use crate::identity::Identity;
use vstd::prelude::*;

verus! {

/// A bank: the collection point of one owner. It holds nothing but the identity
/// of the principal who may withdraw from it; the value it has collected is the
/// balance of the account that carries it.
#[derive(Clone, Copy, Debug, PartialEq, Eq)]
pub struct BaseAccount {
    pub owner: Identity,
}

impl BaseAccount {
    /// Bytes a stored bank takes: the 32-byte owner behind an 8-byte record tag.
    pub const LEN: usize = 40;
}

/// A ledger entry: the running total that one donor has given.
///
/// There is one entry per donor, whichever bank the donor gives to, so
/// `donation` names only the bank of the latest donation.
#[derive(Clone, Copy, Debug, PartialEq, Eq)]
pub struct DonationData {
    /// Address of the bank that the latest donation went to.
    pub donation: Identity,
    /// The donor.
    pub donator: Identity,
    /// Everything the donor has given so far, clamped at `u64::MAX`.
    pub amount: u64,
}

/// Reports one donation.
#[derive(Clone, Copy, Debug, PartialEq, Eq)]
pub struct DonationEvent {
    pub donation: Identity,
    pub donator: Identity,
    pub amount: u64,
}

/// Reports one withdrawal.
#[derive(Clone, Copy, Debug, PartialEq, Eq)]
pub struct WithdrawEvent {
    pub donation: Identity,
    pub dest: Identity,
    pub amount: u64,
}

/// `total + amount`, clamped at the largest total a ledger entry can hold.
pub open spec fn accumulated(total: u64, amount: u64) -> u64 {
    if total + amount > u64::MAX {
        u64::MAX
    } else {
        (total + amount) as u64
    }
}

impl DonationData {
    /// Bytes set aside for a stored ledger entry, with room to grow.
    pub const SPACE: usize = 1088;

    /// The entry of a donor who has not given anything yet.
    pub fn new(donation: Identity, donator: Identity) -> (entry: DonationData)
        ensures
            entry == (DonationData { donation, donator, amount: 0 }),
    {
        DonationData { donation, donator, amount: 0 }
    }

    /// Books a donation of `amount` by `donator` to the bank at `donation`.
    ///
    /// The entry is pointed at this bank and donor, whatever it named before,
    /// and the total grows by `amount` without ever wrapping around.
    pub fn record(&mut self, donation: Identity, donator: Identity, amount: u64) -> (event:
        DonationEvent)
        ensures
            *final(self) == (DonationData {
                donation,
                donator,
                amount: accumulated(old(self).amount, amount),
            }),
            event == (DonationEvent { donation, donator, amount }),
    {
        self.donation = donation;
        self.donator = donator;
        self.amount = self.amount.saturating_add(amount);
        DonationEvent { donation, donator, amount }
    }
}

} // verus!
