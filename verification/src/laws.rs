//! What holds of the operations, whatever the accounts and amounts.

use crate::accounts::{Account, Context, Donation, Initialize, Withdraw};
use crate::address::{bank_address_of, ledger_address_of};
use crate::engine::{
    donation_result, initialize_result, total_before, withdraw_outcome, withdrawable,
};
use crate::error::{AccessError, DonationError, PlatformError};
use crate::identity::Identity;
use crate::records::{accumulated, BaseAccount};
use vstd::prelude::*;

verus! {

/// An identity has one address under a program: its bank and its ledger entry
/// are looked for in the same place, and equal identities in the same one.
pub proof fn lemma_one_address_per_identity(a: Identity, b: Identity, program_id: Identity)
    requires
        a@ == b@,
    ensures
        bank_address_of(a, program_id) == bank_address_of(b, program_id),
        ledger_address_of(a, program_id) == ledger_address_of(b, program_id),
        bank_address_of(a, program_id) == ledger_address_of(a, program_id),
{
}

/// A bank is created once. After `initialize` has succeeded for an owner, an
/// `initialize` for the same owner under the same program fails, whichever
/// accounts it is handed, as long as it is shown the new bank where it names
/// the bank's address.
pub proof fn lemma_initialize_once(
    first: Context<Initialize>,
    owner: Identity,
    second: Context<Initialize>,
)
    requires
        initialize_result(first, owner) matches Ok(created) && (second.accounts.base_account.key
            == created.accounts.base_account.key ==> second.accounts.base_account
            == created.accounts.base_account),
        second.program_id == first.program_id,
    ensures
        initialize_result(second, owner) is Err,
        second.accounts.base_account.key == first.accounts.base_account.key ==> (initialize_result(
            second,
            owner,
        ) matches Err(e) && e == PlatformError::Access(AccessError::AccountInUse)),
{
    if second.accounts.base_account.key != first.accounts.base_account.key {
        Identity::lemma_view_injective(
            second.accounts.base_account.key,
            first.accounts.base_account.key,
        );
    }
}

/// A successful `initialize` sets the owner and nothing else: the bank keeps
/// the balance it was funded with.
pub proof fn lemma_initialize_sets_owner(ctx: Context<Initialize>, owner: Identity)
    requires
        initialize_result(ctx, owner) is Ok,
    ensures
        ({
            let after = initialize_result(ctx, owner)->Ok_0;
            &&& after.accounts.base_account.data == Some(BaseAccount { owner })
            &&& after.accounts.base_account.lamports == ctx.accounts.base_account.lamports
            &&& after.accounts.base_account.key == ctx.accounts.base_account.key
            &&& after.accounts.payer == ctx.accounts.payer
            &&& after.program_id == ctx.program_id
        }),
{
}

/// A donation that succeeds moves exactly its amount: the bank holds that much
/// more, the donor that much less, and the donor's total has grown by it, or
/// stands at `u64::MAX` where it would have passed it. The entry names this
/// bank and this donor.
pub proof fn lemma_donation_adds(ctx: Context<Donation>, amount: u64)
    requires
        amount > 0,
        donation_result(ctx, amount) is Ok,
    ensures
        ({
            let (after, event) = donation_result(ctx, amount)->Ok_0;
            let before = total_before(ctx.accounts.donation_data.data);
            let total = total_before(after.accounts.donation_data.data);
            &&& after.accounts.donation.lamports == ctx.accounts.donation.lamports + amount
            &&& after.accounts.donator.lamports == ctx.accounts.donator.lamports - amount
            &&& after.accounts.donation.data == ctx.accounts.donation.data
            &&& after.accounts.donation_data.data matches Some(entry) && entry.donation
                == ctx.accounts.donation.key && entry.donator == ctx.accounts.donator.key
            &&& total == accumulated(before, amount)
            &&& before + amount <= u64::MAX ==> total == before + amount
            &&& before + amount > u64::MAX ==> total == u64::MAX
            &&& total >= before
            &&& event.amount == amount
        }),
{
}

/// A donation of nothing is refused as `InvalidAmount`, whatever the accounts.
pub proof fn lemma_zero_donation_refused(ctx: Context<Donation>)
    ensures
        donation_result(ctx, 0) matches Err(e) && e == PlatformError::Program(
            DonationError::InvalidAmount,
        ),
{
}

/// A withdrawal asked for by anyone but the owner of the bank is refused,
/// whatever the bank holds.
pub proof fn lemma_withdraw_needs_owner(ctx: Context<Withdraw>, reserve_floor: u64)
    requires
        ctx.accounts.owner.key != ctx.accounts.donation.data.owner,
    ensures
        withdraw_outcome(ctx, reserve_floor) matches Err(e) && e == PlatformError::Access(
            AccessError::SignerMismatch,
        ),
{
}

/// A withdrawal that succeeds moves what the bank held above the floor, all
/// of it and no more: the bank is left with exactly the floor, and the two
/// banks together hold what they held before.
pub proof fn lemma_withdraw_keeps_reserve(ctx: Context<Withdraw>, reserve_floor: u64)
    requires
        withdraw_outcome(ctx, reserve_floor) is Ok,
    ensures
        ({
            let (after, event) = withdraw_outcome(ctx, reserve_floor)->Ok_0;
            &&& event.amount == ctx.accounts.donation.lamports - reserve_floor
            &&& event.amount > 0
            &&& after.accounts.donation.lamports == reserve_floor
            &&& after.accounts.dest.lamports == ctx.accounts.dest.lamports + event.amount
            &&& after.accounts.donation.lamports + after.accounts.dest.lamports
                == ctx.accounts.donation.lamports + ctx.accounts.dest.lamports
            &&& after.accounts.bank == ctx.accounts.bank
            &&& after.accounts.owner == ctx.accounts.owner
        }),
{
}

/// The sum of the amounts of a run of donations.
pub open spec fn total(donations: Seq<(Context<Donation>, u64)>) -> int
    decreases donations.len(),
{
    if donations.len() == 0 {
        0
    } else {
        donations[0].1 + total(donations.drop_first())
    }
}

/// The bank after a run of donations into it, each made with the accounts and
/// the amount given and each finding the bank as the one before left it;
/// `None` where one of them is refused or is shown another bank.
pub open spec fn bank_after(
    bank: Account<BaseAccount>,
    donations: Seq<(Context<Donation>, u64)>,
) -> Option<Account<BaseAccount>>
    decreases donations.len(),
{
    if donations.len() == 0 {
        Some(bank)
    } else {
        let (ctx, amount) = donations[0];
        match donation_result(ctx, amount) {
            Ok((after, _)) => if ctx.accounts.donation == bank {
                bank_after(after.accounts.donation, donations.drop_first())
            } else {
                None
            },
            Err(_) => None,
        }
    }
}

/// A run of donations leaves the bank with what it held before and the sum of
/// their amounts on top; the bank is otherwise the same.
pub proof fn lemma_donations_add_up(
    bank: Account<BaseAccount>,
    donations: Seq<(Context<Donation>, u64)>,
)
    requires
        bank_after(bank, donations) is Some,
    ensures
        bank_after(bank, donations)->Some_0.lamports == bank.lamports + total(donations),
        bank_after(bank, donations)->Some_0.key == bank.key,
        bank_after(bank, donations)->Some_0.data == bank.data,
    decreases donations.len(),
{
    if donations.len() > 0 {
        let (ctx, amount) = donations[0];
        let next = donation_result(ctx, amount)->Ok_0.0.accounts.donation;
        lemma_donations_add_up(next, donations.drop_first());
    }
}

/// What a withdrawal pays out: nothing where it is refused.
pub open spec fn paid_out(ctx: Context<Withdraw>, reserve_floor: u64) -> u64 {
    match withdraw_outcome(ctx, reserve_floor) {
        Ok((_, event)) => event.amount,
        Err(_) => 0,
    }
}

/// The accounts as a withdrawal leaves them: unchanged where it is refused.
pub open spec fn left_by(ctx: Context<Withdraw>, reserve_floor: u64) -> Context<Withdraw> {
    match withdraw_outcome(ctx, reserve_floor) {
        Ok((after, _)) => after,
        Err(_) => ctx,
    }
}

/// After a run of donations into a bank that held `bank.lamports` before, the
/// owner's withdrawal pays out what the bank now holds above the floor, that is
/// the larger of nothing and `sum + bank.lamports - reserve_floor`, and a
/// second withdrawal right after it pays out nothing and is refused as
/// `NoAmount`.
///
/// This is stated of a withdrawal that the owner asks for, into another bank
/// that can hold the amount.
pub proof fn lemma_withdraw_after_donations(
    bank: Account<BaseAccount>,
    donations: Seq<(Context<Donation>, u64)>,
    ctx: Context<Withdraw>,
    reserve_floor: u64,
)
    requires
        bank_after(bank, donations) == Some(ctx.accounts.donation),
        ctx.accounts.owner.key == ctx.accounts.donation.data.owner,
        ctx.accounts.distinct(),
        ctx.accounts.dest.lamports + withdrawable(ctx.accounts.donation.lamports, reserve_floor)
            <= u64::MAX,
    ensures
        total(donations) + bank.lamports > reserve_floor ==> paid_out(ctx, reserve_floor) == total(
            donations,
        ) + bank.lamports - reserve_floor,
        total(donations) + bank.lamports <= reserve_floor ==> paid_out(ctx, reserve_floor) == 0,
        paid_out(left_by(ctx, reserve_floor), reserve_floor) == 0,
        withdraw_outcome(left_by(ctx, reserve_floor), reserve_floor) matches Err(e) && e
            == PlatformError::Program(DonationError::NoAmount),
{
    lemma_donations_add_up(bank, donations);
}

} // verus!
