use donation_platform::{
    bank_address, donation, donation_with, initialize, initialize_with, ledger_address, transfer,
    withdraw, AccessError, Account, BaseAccount, Context, DerivedAddress, Donation, DonationData,
    DonationError, DonationEvent, Identity, Initialize, PlatformError, Signer, TransferError,
    Withdraw, WithdrawEvent,
};

fn id(byte: u8) -> Identity {
    Identity::new_from_array([byte; 32])
}

fn program() -> Identity {
    id(200)
}

fn vacant_bank(owner: Identity, funding: u64) -> Context<Initialize> {
    Context {
        program_id: program(),
        accounts: Initialize {
            base_account: Account {
                key: bank_address(&owner, &program()).unwrap().address,
                lamports: funding,
                data: None,
            },
            payer: Signer { key: owner, lamports: 5 },
        },
    }
}

fn bank_of(owner: Identity, lamports: u64) -> Account<BaseAccount> {
    Account {
        key: bank_address(&owner, &program()).unwrap().address,
        lamports,
        data: BaseAccount { owner },
    }
}

fn first_donation(owner: Identity, bank_holds: u64, donor: Identity, donor_holds: u64) -> Context<Donation> {
    Context {
        program_id: program(),
        accounts: Donation {
            donation: bank_of(owner, bank_holds),
            donation_data: Account {
                key: ledger_address(&donor, &program()).unwrap().address,
                lamports: 77,
                data: None,
            },
            donator: Signer { key: donor, lamports: donor_holds },
        },
    }
}

fn withdrawal(owner: Identity, bank_holds: u64, signer: Identity, dest_holds: u64) -> Context<Withdraw> {
    let other = id(90);
    Context {
        program_id: program(),
        accounts: Withdraw {
            donation: bank_of(owner, bank_holds),
            owner: Signer { key: signer, lamports: 1 },
            dest: bank_of(other, dest_holds),
            bank: Account {
                key: id(91),
                lamports: 3,
                data: DonationData { donation: id(92), donator: id(93), amount: 4 },
            },
        },
    }
}

#[test]
fn record_sizes() {
    assert_eq!(BaseAccount::LEN, 40);
    assert_eq!(BaseAccount::LEN, 32 + 8);
    assert_eq!(DonationData::SPACE, 64 + 1024);
}

#[test]
fn transfer_moves_exactly_the_amount() {
    let mut from = 100u64;
    let mut to = 20u64;
    assert_eq!(transfer(&mut from, &mut to, 30), Ok(()));
    assert_eq!((from, to), (70, 50));
    assert_eq!(transfer(&mut from, &mut to, 70), Ok(()));
    assert_eq!((from, to), (0, 120));
    assert_eq!(transfer(&mut from, &mut to, 0), Ok(()));
    assert_eq!((from, to), (0, 120));
}

#[test]
fn transfer_refuses_more_than_is_there() {
    let mut from = 10u64;
    let mut to = 20u64;
    assert_eq!(transfer(&mut from, &mut to, 11), Err(TransferError::InsufficientFunds));
    assert_eq!((from, to), (10, 20));
}

#[test]
fn transfer_refuses_what_cannot_be_held() {
    let mut from = 10u64;
    let mut to = u64::MAX - 9;
    assert_eq!(transfer(&mut from, &mut to, 10), Err(TransferError::BalanceOverflow));
    assert_eq!((from, to), (10, u64::MAX - 9));
    assert_eq!(transfer(&mut from, &mut to, 9), Ok(()));
    assert_eq!((from, to), (1, u64::MAX));
}

#[test]
fn record_overwrites_bank_and_donor_and_adds() {
    let mut entry = DonationData { donation: id(1), donator: id(2), amount: 40 };
    let event = entry.record(id(3), id(4), 2);
    assert_eq!(entry, DonationData { donation: id(3), donator: id(4), amount: 42 });
    assert_eq!(event, DonationEvent { donation: id(3), donator: id(4), amount: 2 });
}

#[test]
fn record_saturates_at_the_ceiling() {
    let mut entry = DonationData { donation: id(1), donator: id(2), amount: u64::MAX - 5 };
    entry.record(id(1), id(2), 5);
    assert_eq!(entry.amount, u64::MAX);
    entry.record(id(1), id(2), 1);
    assert_eq!(entry.amount, u64::MAX);
    let mut entry = DonationData { donation: id(1), donator: id(2), amount: u64::MAX - 5 };
    entry.record(id(1), id(2), u64::MAX);
    assert_eq!(entry.amount, u64::MAX);
}

#[test]
fn new_entry_starts_at_zero() {
    assert_eq!(
        DonationData::new(id(1), id(2)),
        DonationData { donation: id(1), donator: id(2), amount: 0 }
    );
}

#[test]
fn initialize_sets_the_owner_and_keeps_the_funding() {
    let owner = id(1);
    let mut ctx = vacant_bank(owner, 1_000_000);
    let before = ctx;
    assert_eq!(initialize(&mut ctx, owner), Ok(()));
    assert_eq!(ctx.accounts.base_account.data, Some(BaseAccount { owner }));
    assert_eq!(ctx.accounts.base_account.lamports, 1_000_000);
    assert_eq!(ctx.accounts.base_account.key, before.accounts.base_account.key);
    assert_eq!(ctx.accounts.payer, before.accounts.payer);
    assert_eq!(ctx.program_id, before.program_id);
}

#[test]
fn initialize_twice_for_one_owner_fails() {
    let owner = id(1);
    let mut ctx = vacant_bank(owner, 1_000_000);
    assert_eq!(initialize(&mut ctx, owner), Ok(()));
    let after_first = ctx;
    assert_eq!(
        initialize(&mut ctx, owner),
        Err(PlatformError::Access(AccessError::AccountInUse))
    );
    assert_eq!(ctx, after_first);
    // Another payer, the same bank: refused all the same.
    ctx.accounts.payer = Signer { key: id(50), lamports: 9_999 };
    assert_eq!(
        initialize(&mut ctx, owner),
        Err(PlatformError::Access(AccessError::AccountInUse))
    );
}

#[test]
fn initialize_elsewhere_than_at_the_owners_address_fails() {
    let owner = id(1);
    let mut ctx = vacant_bank(id(2), 1_000_000);
    let before = ctx;
    assert_eq!(
        initialize(&mut ctx, owner),
        Err(PlatformError::Access(AccessError::AddressMismatch))
    );
    assert_eq!(ctx, before);
}

#[test]
fn initialize_without_an_address_fails() {
    let owner = id(1);
    let mut ctx = vacant_bank(owner, 1_000_000);
    let before = ctx;
    assert_eq!(initialize_with(&mut ctx, owner, None), Err(PlatformError::Derivation));
    assert_eq!(ctx, before);
}

#[test]
fn initialize_with_takes_the_address_it_is_given() {
    let owner = id(1);
    let mut ctx = vacant_bank(owner, 10);
    ctx.accounts.base_account.key = id(33);
    let given = Some(DerivedAddress { address: id(33), bump: 254 });
    assert_eq!(initialize_with(&mut ctx, owner, given), Ok(()));
    assert_eq!(ctx.accounts.base_account.data, Some(BaseAccount { owner }));
    let mut ctx = vacant_bank(owner, 10);
    assert_eq!(
        initialize_with(&mut ctx, owner, given),
        Err(PlatformError::Access(AccessError::AddressMismatch))
    );
}

#[test]
fn donation_moves_the_amount_and_books_it() {
    let (owner, donor) = (id(1), id(2));
    let mut ctx = first_donation(owner, 1_000, donor, 5_000);
    let before = ctx;
    let event = donation(&mut ctx, 300).unwrap();
    assert_eq!(
        event,
        DonationEvent { donation: before.accounts.donation.key, donator: donor, amount: 300 }
    );
    assert_eq!(ctx.accounts.donation.lamports, 1_300);
    assert_eq!(ctx.accounts.donator.lamports, 4_700);
    assert_eq!(
        ctx.accounts.donation_data.data,
        Some(DonationData { donation: before.accounts.donation.key, donator: donor, amount: 300 })
    );
    assert_eq!(ctx.accounts.donation_data.lamports, 77);
    assert_eq!(ctx.accounts.donation_data.key, before.accounts.donation_data.key);
    assert_eq!(ctx.accounts.donation.data, before.accounts.donation.data);
    assert_eq!(ctx.accounts.donation.key, before.accounts.donation.key);
    assert_eq!(ctx.accounts.donator.key, donor);
}

#[test]
fn donation_of_nothing_is_invalid() {
    let mut ctx = first_donation(id(1), 1_000, id(2), 5_000);
    let before = ctx;
    assert_eq!(
        donation(&mut ctx, 0),
        Err(PlatformError::Program(DonationError::InvalidAmount))
    );
    assert_eq!(ctx, before);
    // Also where the accounts are wrong, and where no address is at hand.
    ctx.accounts.donation_data.key = id(66);
    ctx.accounts.donator.lamports = 0;
    let before = ctx;
    assert_eq!(
        donation(&mut ctx, 0),
        Err(PlatformError::Program(DonationError::InvalidAmount))
    );
    assert_eq!(
        donation_with(&mut ctx, 0, None),
        Err(PlatformError::Program(DonationError::InvalidAmount))
    );
    assert_eq!(ctx, before);
}

#[test]
fn donation_beyond_the_donors_balance_fails() {
    let mut ctx = first_donation(id(1), 1_000, id(2), 299);
    let before = ctx;
    assert_eq!(
        donation(&mut ctx, 300),
        Err(PlatformError::Transfer(TransferError::InsufficientFunds))
    );
    assert_eq!(ctx, before);
    assert_eq!(ctx.accounts.donation_data.data, None);
}

#[test]
fn donation_that_the_bank_cannot_hold_fails() {
    let mut ctx = first_donation(id(1), u64::MAX - 10, id(2), 1_000);
    let before = ctx;
    assert_eq!(
        donation(&mut ctx, 11),
        Err(PlatformError::Transfer(TransferError::BalanceOverflow))
    );
    assert_eq!(ctx, before);
}

#[test]
fn donation_with_an_entry_at_another_address_fails() {
    let mut ctx = first_donation(id(1), 1_000, id(2), 5_000);
    ctx.accounts.donation_data.key = ledger_address(&id(3), &program()).unwrap().address;
    let before = ctx;
    assert_eq!(
        donation(&mut ctx, 300),
        Err(PlatformError::Access(AccessError::AddressMismatch))
    );
    assert_eq!(ctx, before);
}

#[test]
fn donation_without_an_address_fails() {
    let mut ctx = first_donation(id(1), 1_000, id(2), 5_000);
    let before = ctx;
    assert_eq!(donation_with(&mut ctx, 300, None), Err(PlatformError::Derivation));
    assert_eq!(ctx, before);
}

#[test]
fn donation_by_the_owner_to_the_own_bank_names_one_record_twice() {
    // Bank and ledger entry of one identity share their address.
    let owner = id(1);
    let mut ctx = first_donation(owner, 1_000, owner, 5_000);
    assert_eq!(ctx.accounts.donation.key, ctx.accounts.donation_data.key);
    let before = ctx;
    assert_eq!(
        donation(&mut ctx, 300),
        Err(PlatformError::Access(AccessError::DuplicateAccount))
    );
    assert_eq!(ctx, before);
}

#[test]
fn donation_with_donor_in_a_second_role_fails() {
    let donor = id(2);
    let place = DerivedAddress { address: id(40), bump: 255 };
    let mut ctx = first_donation(id(1), 1_000, donor, 5_000);
    ctx.accounts.donation_data.key = place.address;
    ctx.accounts.donation.key = donor;
    assert_eq!(
        donation_with(&mut ctx, 300, Some(place)),
        Err(PlatformError::Access(AccessError::DuplicateAccount))
    );
    let mut ctx = first_donation(id(1), 1_000, donor, 5_000);
    ctx.accounts.donation_data.key = donor;
    let same = DerivedAddress { address: donor, bump: 255 };
    assert_eq!(
        donation_with(&mut ctx, 300, Some(same)),
        Err(PlatformError::Access(AccessError::DuplicateAccount))
    );
}

#[test]
fn donation_points_the_entry_at_the_latest_bank() {
    let donor = id(2);
    let mut ctx = first_donation(id(1), 0, donor, 5_000);
    donation(&mut ctx, 100).unwrap();
    let entry = ctx.accounts.donation_data;
    let mut ctx = first_donation(id(3), 0, donor, 4_900);
    ctx.accounts.donation_data = entry;
    donation(&mut ctx, 50).unwrap();
    assert_eq!(
        ctx.accounts.donation_data.data,
        Some(DonationData { donation: ctx.accounts.donation.key, donator: donor, amount: 150 })
    );
    assert_eq!(ctx.accounts.donation.key, bank_address(&id(3), &program()).unwrap().address);
}

#[test]
fn donation_total_saturates() {
    let donor = id(2);
    let mut ctx = first_donation(id(1), 0, donor, 5_000);
    ctx.accounts.donation_data.data =
        Some(DonationData { donation: id(8), donator: id(9), amount: u64::MAX - 100 });
    donation(&mut ctx, 300).unwrap();
    assert_eq!(ctx.accounts.donation.lamports, 300);
    assert_eq!(ctx.accounts.donation_data.data.unwrap().amount, u64::MAX);
    assert_eq!(ctx.accounts.donation_data.data.unwrap().donator, donor);
}

#[test]
fn withdraw_pays_out_what_is_above_the_floor() {
    let owner = id(1);
    let mut ctx = withdrawal(owner, 1_500, owner, 7);
    let before = ctx;
    let event = withdraw(&mut ctx, 500).unwrap();
    assert_eq!(
        event,
        WithdrawEvent {
            donation: before.accounts.donation.key,
            dest: before.accounts.dest.key,
            amount: 1_000
        }
    );
    assert_eq!(ctx.accounts.donation.lamports, 500);
    assert_eq!(ctx.accounts.dest.lamports, 1_007);
    assert_eq!(ctx.accounts.bank, before.accounts.bank);
    assert_eq!(ctx.accounts.owner, before.accounts.owner);
    assert_eq!(ctx.accounts.donation.data, before.accounts.donation.data);
    assert_eq!(ctx.accounts.dest.data, before.accounts.dest.data);
}

#[test]
fn withdraw_twice_finds_nothing_the_second_time() {
    let owner = id(1);
    let mut ctx = withdrawal(owner, 1_500, owner, 7);
    assert_eq!(withdraw(&mut ctx, 500).unwrap().amount, 1_000);
    let after_first = ctx;
    assert_eq!(withdraw(&mut ctx, 500), Err(PlatformError::Program(DonationError::NoAmount)));
    assert_eq!(ctx, after_first);
}

#[test]
fn withdraw_at_or_below_the_floor_finds_nothing() {
    let owner = id(1);
    for holds in [0u64, 499, 500] {
        let mut ctx = withdrawal(owner, holds, owner, 7);
        let before = ctx;
        assert_eq!(withdraw(&mut ctx, 500), Err(PlatformError::Program(DonationError::NoAmount)));
        assert_eq!(ctx, before);
    }
    let mut ctx = withdrawal(owner, 501, owner, 7);
    assert_eq!(withdraw(&mut ctx, 500).unwrap().amount, 1);
}

#[test]
fn withdraw_by_another_signer_fails() {
    let owner = id(1);
    let mut ctx = withdrawal(owner, 1_500, id(2), 7);
    let before = ctx;
    assert_eq!(
        withdraw(&mut ctx, 500),
        Err(PlatformError::Access(AccessError::SignerMismatch))
    );
    assert_eq!(ctx, before);
    // Also where there is nothing to withdraw.
    let mut ctx = withdrawal(owner, 100, id(2), 7);
    assert_eq!(
        withdraw(&mut ctx, 500),
        Err(PlatformError::Access(AccessError::SignerMismatch))
    );
}

#[test]
fn withdraw_into_the_paying_bank_fails() {
    let owner = id(1);
    let mut ctx = withdrawal(owner, 1_500, owner, 7);
    ctx.accounts.dest = ctx.accounts.donation;
    let before = ctx;
    assert_eq!(
        withdraw(&mut ctx, 500),
        Err(PlatformError::Access(AccessError::DuplicateAccount))
    );
    assert_eq!(ctx, before);
}

#[test]
fn withdraw_that_the_destination_cannot_hold_fails() {
    let owner = id(1);
    let mut ctx = withdrawal(owner, 1_500, owner, u64::MAX - 999);
    let before = ctx;
    assert_eq!(
        withdraw(&mut ctx, 500),
        Err(PlatformError::Transfer(TransferError::BalanceOverflow))
    );
    assert_eq!(ctx, before);
}
