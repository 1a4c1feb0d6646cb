//! The three operations: `initialize`, `donation`, `withdraw`.
//!
//! Each either succeeds as a whole or fails and leaves its accounts as they
//! were. What an operation does is written down once, as a function from the
//! accounts before to the accounts after, and the executable code is proved to
//! follow it.

use crate::accounts::{Account, Context, Donation, Initialize, Signer, Withdraw};
use crate::address::{
    bank_address, bank_address_of, ledger_address, ledger_address_of, outcome_view,
    DerivedAddress,
};
use crate::error::{AccessError, DonationError, PlatformError, TransferError};
use crate::identity::Identity;
use crate::records::{accumulated, BaseAccount, DonationData, DonationEvent, WithdrawEvent};
use vstd::prelude::*;

verus! {

/// Moving `amount` from a balance `from` to a balance `to`: the two balances
/// afterwards, or why nothing moved.
pub open spec fn transfer_outcome(from: u64, to: u64, amount: u64) -> Result<
    (u64, u64),
    TransferError,
> {
    if from < amount {
        Err(TransferError::InsufficientFunds)
    } else if to + amount > u64::MAX {
        Err(TransferError::BalanceOverflow)
    } else {
        Ok(((from - amount) as u64, (to + amount) as u64))
    }
}

/// Moves `amount` from one balance to another: both change, or neither does.
pub fn transfer(from: &mut u64, to: &mut u64, amount: u64) -> (r: Result<(), TransferError>)
    ensures
        match transfer_outcome(*old(from), *old(to), amount) {
            Ok((paid, received)) => {
                &&& r is Ok
                &&& *final(from) == paid
                &&& *final(to) == received
            },
            Err(e) => {
                &&& r == Err::<(), TransferError>(e)
                &&& *final(from) == *old(from)
                &&& *final(to) == *old(to)
            },
        },
{
    if *from < amount {
        return Err(TransferError::InsufficientFunds);
    }
    if amount > u64::MAX - *to {
        return Err(TransferError::BalanceOverflow);
    }
    *from = *from - amount;
    *to = *to + amount;
    Ok(())
}

/// What `initialize` does once the owner's bank address is derived: the
/// accounts afterwards, or why nothing happened.
pub open spec fn initialize_outcome(
    ctx: Context<Initialize>,
    owner: Identity,
    address: Option<(Seq<u8>, u8)>,
) -> Result<Context<Initialize>, PlatformError> {
    let place = ctx.accounts.base_account;
    match address {
        None => Err(PlatformError::Derivation),
        Some((expected, _)) => if place.key@ != expected {
            Err(PlatformError::Access(AccessError::AddressMismatch))
        } else if place.data is Some {
            Err(PlatformError::Access(AccessError::AccountInUse))
        } else {
            Ok(
                Context {
                    accounts: Initialize {
                        base_account: Account { data: Some(BaseAccount { owner }), ..place },
                        ..ctx.accounts
                    },
                    ..ctx
                },
            )
        },
    }
}

/// What `initialize` does: the accounts afterwards, or why nothing happened.
pub open spec fn initialize_result(ctx: Context<Initialize>, owner: Identity) -> Result<
    Context<Initialize>,
    PlatformError,
> {
    initialize_outcome(ctx, owner, bank_address_of(owner, ctx.program_id))
}

/// Creates the bank of `owner` in the place that `ctx` names, given the address
/// derived for that owner.
///
/// The place must sit at that address and be vacant. The bank keeps the balance
/// that the place was funded with.
pub fn initialize_with(
    ctx: &mut Context<Initialize>,
    owner: Identity,
    address: Option<DerivedAddress>,
) -> (r: Result<(), PlatformError>)
    ensures
        match initialize_outcome(*old(ctx), owner, outcome_view(address)) {
            Ok(after) => r is Ok && *final(ctx) == after,
            Err(e) => r == Err::<(), PlatformError>(e) && *final(ctx) == *old(ctx),
        },
{
    let expected = match address {
        Some(d) => d.address,
        None => {
            return Err(PlatformError::Derivation);
        },
    };
    proof {
        Identity::lemma_view_injective(ctx.accounts.base_account.key, expected);
    }
    if ctx.accounts.base_account.key != expected {
        return Err(PlatformError::Access(AccessError::AddressMismatch));
    }
    if ctx.accounts.base_account.data.is_some() {
        return Err(PlatformError::Access(AccessError::AccountInUse));
    }
    ctx.accounts.base_account.data = Some(BaseAccount { owner });
    Ok(())
}

/// Creates the bank of `owner`: once per owner, at the owner's derived address.
pub fn initialize(ctx: &mut Context<Initialize>, owner: Identity) -> (r: Result<(), PlatformError>)
    ensures
        match initialize_result(*old(ctx), owner) {
            Ok(after) => r is Ok && *final(ctx) == after,
            Err(e) => r == Err::<(), PlatformError>(e) && *final(ctx) == *old(ctx),
        },
{
    let address = bank_address(&owner, &ctx.program_id);
    initialize_with(ctx, owner, address)
}

/// The donor's total before a donation: nothing yet where the entry is vacant.
pub open spec fn total_before(entry: Option<DonationData>) -> u64 {
    match entry {
        Some(e) => e.amount,
        None => 0,
    }
}

/// The accounts after a donation of `amount` that left the donor with `paid`
/// and the bank with `received`.
pub open spec fn donated(ctx: Context<Donation>, amount: u64, paid: u64, received: u64) -> Context<
    Donation,
> {
    let accounts = ctx.accounts;
    let entry = DonationData {
        donation: accounts.donation.key,
        donator: accounts.donator.key,
        amount: accumulated(total_before(accounts.donation_data.data), amount),
    };
    Context {
        accounts: Donation {
            donation: Account { lamports: received, ..accounts.donation },
            donation_data: Account { data: Some(entry), ..accounts.donation_data },
            donator: Signer { lamports: paid, ..accounts.donator },
        },
        ..ctx
    }
}

/// What `donation` does once the donor's ledger address is derived: the
/// accounts afterwards with the event to publish, or why nothing happened.
pub open spec fn donation_outcome(
    ctx: Context<Donation>,
    amount: u64,
    address: Option<(Seq<u8>, u8)>,
) -> Result<(Context<Donation>, DonationEvent), PlatformError> {
    let accounts = ctx.accounts;
    if amount == 0 {
        Err(PlatformError::Program(DonationError::InvalidAmount))
    } else {
        match address {
            None => Err(PlatformError::Derivation),
            Some((expected, _)) => if accounts.donation_data.key@ != expected {
                Err(PlatformError::Access(AccessError::AddressMismatch))
            } else if !accounts.distinct() {
                Err(PlatformError::Access(AccessError::DuplicateAccount))
            } else {
                match transfer_outcome(
                    accounts.donator.lamports,
                    accounts.donation.lamports,
                    amount,
                ) {
                    Err(e) => Err(PlatformError::Transfer(e)),
                    Ok((paid, received)) => Ok(
                        (
                            donated(ctx, amount, paid, received),
                            DonationEvent {
                                donation: accounts.donation.key,
                                donator: accounts.donator.key,
                                amount,
                            },
                        ),
                    ),
                }
            },
        }
    }
}

/// What `donation` does: the accounts afterwards with the event to publish, or
/// why nothing happened.
pub open spec fn donation_result(ctx: Context<Donation>, amount: u64) -> Result<
    (Context<Donation>, DonationEvent),
    PlatformError,
> {
    donation_outcome(ctx, amount, ledger_address_of(ctx.accounts.donator.key, ctx.program_id))
}

/// Gives `amount` from the donor to the bank, given the address derived for
/// the donor's ledger entry.
///
/// In this order: the amount must be more than nothing; the ledger entry must
/// sit at that address; donor, bank and entry must be three accounts; the
/// amount moves from the donor's balance to the bank's; only then is the
/// donation booked in the donor's entry, which is created if it was vacant.
pub fn donation_with(
    ctx: &mut Context<Donation>,
    amount: u64,
    address: Option<DerivedAddress>,
) -> (r: Result<DonationEvent, PlatformError>)
    ensures
        match donation_outcome(*old(ctx), amount, outcome_view(address)) {
            Ok((after, event)) => {
                &&& r == Ok::<DonationEvent, PlatformError>(event)
                &&& *final(ctx) == after
            },
            Err(e) => {
                &&& r == Err::<DonationEvent, PlatformError>(e)
                &&& *final(ctx) == *old(ctx)
            },
        },
{
    if amount == 0 {
        return Err(PlatformError::Program(DonationError::InvalidAmount));
    }
    let expected = match address {
        Some(d) => d.address,
        None => {
            return Err(PlatformError::Derivation);
        },
    };
    let bank = ctx.accounts.donation.key;
    let donor = ctx.accounts.donator.key;
    let place = ctx.accounts.donation_data.key;
    proof {
        Identity::lemma_view_injective(place, expected);
    }
    if place != expected {
        return Err(PlatformError::Access(AccessError::AddressMismatch));
    }
    if donor == bank || donor == place || bank == place {
        return Err(PlatformError::Access(AccessError::DuplicateAccount));
    }
    match transfer(&mut ctx.accounts.donator.lamports, &mut ctx.accounts.donation.lamports, amount) {
        Ok(()) => {},
        Err(e) => {
            return Err(PlatformError::Transfer(e));
        },
    }
    let mut entry = match ctx.accounts.donation_data.data {
        Some(e) => e,
        None => DonationData::new(bank, donor),
    };
    let event = entry.record(bank, donor, amount);
    ctx.accounts.donation_data.data = Some(entry);
    Ok(event)
}

/// Gives `amount` from the donor to the bank and books it in the donor's
/// ledger entry, which sits at the donor's derived address.
pub fn donation(ctx: &mut Context<Donation>, amount: u64) -> (r: Result<
    DonationEvent,
    PlatformError,
>)
    ensures
        match donation_result(*old(ctx), amount) {
            Ok((after, event)) => {
                &&& r == Ok::<DonationEvent, PlatformError>(event)
                &&& *final(ctx) == after
            },
            Err(e) => {
                &&& r == Err::<DonationEvent, PlatformError>(e)
                &&& *final(ctx) == *old(ctx)
            },
        },
{
    if amount == 0 {
        return Err(PlatformError::Program(DonationError::InvalidAmount));
    }
    let address = ledger_address(&ctx.accounts.donator.key, &ctx.program_id);
    donation_with(ctx, amount, address)
}

/// What a bank holding `balance` can pay out when `reserve_floor` must stay.
pub open spec fn withdrawable(balance: u64, reserve_floor: u64) -> u64 {
    if balance > reserve_floor {
        (balance - reserve_floor) as u64
    } else {
        0
    }
}

/// What `withdraw` does: the accounts afterwards with the event to publish, or
/// why nothing happened.
pub open spec fn withdraw_outcome(ctx: Context<Withdraw>, reserve_floor: u64) -> Result<
    (Context<Withdraw>, WithdrawEvent),
    PlatformError,
> {
    let accounts = ctx.accounts;
    let available = withdrawable(accounts.donation.lamports, reserve_floor);
    if accounts.owner.key != accounts.donation.data.owner {
        Err(PlatformError::Access(AccessError::SignerMismatch))
    } else if !accounts.distinct() {
        Err(PlatformError::Access(AccessError::DuplicateAccount))
    } else if available == 0 {
        Err(PlatformError::Program(DonationError::NoAmount))
    } else {
        match transfer_outcome(accounts.donation.lamports, accounts.dest.lamports, available) {
            Err(e) => Err(PlatformError::Transfer(e)),
            Ok((kept, received)) => Ok(
                (
                    Context {
                        accounts: Withdraw {
                            donation: Account { lamports: kept, ..accounts.donation },
                            dest: Account { lamports: received, ..accounts.dest },
                            ..accounts
                        },
                        ..ctx
                    },
                    WithdrawEvent {
                        donation: accounts.donation.key,
                        dest: accounts.dest.key,
                        amount: available,
                    },
                ),
            ),
        }
    }
}

/// Pays out to `dest` everything that the bank holds above `reserve_floor`,
/// the least that a bank must keep to stay alive.
///
/// In this order: the signer must be the owner of the bank; the two banks must
/// be two accounts; there must be something above the floor; that amount moves
/// from the bank's balance to the destination's.
pub fn withdraw(ctx: &mut Context<Withdraw>, reserve_floor: u64) -> (r: Result<
    WithdrawEvent,
    PlatformError,
>)
    ensures
        match withdraw_outcome(*old(ctx), reserve_floor) {
            Ok((after, event)) => {
                &&& r == Ok::<WithdrawEvent, PlatformError>(event)
                &&& *final(ctx) == after
            },
            Err(e) => {
                &&& r == Err::<WithdrawEvent, PlatformError>(e)
                &&& *final(ctx) == *old(ctx)
            },
        },
{
    if ctx.accounts.owner.key != ctx.accounts.donation.data.owner {
        return Err(PlatformError::Access(AccessError::SignerMismatch));
    }
    let bank = ctx.accounts.donation.key;
    let dest = ctx.accounts.dest.key;
    if bank == dest {
        return Err(PlatformError::Access(AccessError::DuplicateAccount));
    }
    let available = ctx.accounts.donation.lamports.saturating_sub(reserve_floor);
    if available == 0 {
        return Err(PlatformError::Program(DonationError::NoAmount));
    }
    match transfer(&mut ctx.accounts.donation.lamports, &mut ctx.accounts.dest.lamports, available) {
        Ok(()) => {},
        Err(e) => {
            return Err(PlatformError::Transfer(e));
        },
    }
    Ok(WithdrawEvent { donation: bank, dest, amount: available })
}

} // verus!
