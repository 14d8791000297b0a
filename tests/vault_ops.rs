use treasury::derivation::verify_derivation;
use treasury::identity::Identity;
use treasury::vault::{
    create_treasury, deposit, initialize_treasury, settle_deposit, settle_withdrawal, withdraw, Account, Deposit,
    ErrorCode, InitializeTreasury, TreasuryAccount, Withdraw,
};

fn program() -> Identity {
    Identity::new([7u8; 32])
}

fn owner() -> Identity {
    Identity::new([1u8; 32])
}

fn stranger() -> Identity {
    Identity::new([2u8; 32])
}

fn create(authority: Identity, name: &str) -> TreasuryAccount {
    let (address, _) = treasury::derivation::derive(&program(), &authority, name).expect("an address exists");
    let mut ctx = InitializeTreasury {
        program_id: program(),
        authority,
        treasury_key: address,
        treasury: None,
    };
    assert_eq!(initialize_treasury(&mut ctx, name.to_string()), Ok(()));
    ctx.treasury.expect("the vault was created")
}

fn funded(authority: Identity, name: &str, lamports: u64) -> TreasuryAccount {
    let mut vault = create(authority, name);
    vault.lamports = lamports;
    vault
}

fn withdrawal(vault: TreasuryAccount, signer: Identity) -> Withdraw {
    Withdraw {
        program_id: program(),
        authority: signer,
        treasury: vault,
        recipient: Account { key: Identity::new([9u8; 32]), lamports: 5 },
    }
}

#[test]
fn identity_compares_every_byte() {
    let mut bytes = [3u8; 32];
    let a = Identity::new(bytes);
    assert!(a.same_as(&Identity::new(bytes)));
    bytes[31] = 4;
    assert!(!a.same_as(&Identity::new(bytes)));
}

#[test]
fn derive_twice_gives_the_same_address() {
    let first = treasury::derivation::derive(&program(), &owner(), "savings");
    let second = treasury::derivation::derive(&program(), &owner(), "savings");
    let (a, b) = first.expect("an address exists");
    let (c, d) = second.expect("an address exists");
    assert!(a.same_as(&c));
    assert_eq!(b, d);
    assert!(!a.same_as(&owner()));
    assert!(!a.same_as(&program()));
    assert!(verify_derivation(&program(), &owner(), "savings", b, &a));
}

#[test]
fn derive_separates_names_and_owners() {
    let (a, _) = treasury::derivation::derive(&program(), &owner(), "savings").unwrap();
    let (b, _) = treasury::derivation::derive(&program(), &owner(), "spending").unwrap();
    let (c, _) = treasury::derivation::derive(&program(), &stranger(), "savings").unwrap();
    assert!(!a.same_as(&b));
    assert!(!a.same_as(&c));
    assert!(!verify_derivation(&program(), &stranger(), "savings", 255, &a));
    assert!(!verify_derivation(&program(), &owner(), "spending", 255, &a));
}

#[test]
fn initialize_writes_the_record() {
    let vault = create(owner(), "savings");
    let (address, bump) = treasury::derivation::derive(&program(), &owner(), "savings").unwrap();
    assert!(vault.data.authority.same_as(&owner()));
    assert_eq!(vault.data.name, "savings");
    assert_eq!(vault.data.bump, bump);
    assert_eq!(vault.lamports, 0);
    assert!(vault.key.same_as(&address));
}

#[test]
fn initialize_rejects_a_name_of_51_bytes() {
    let name = "n".repeat(51);
    let mut ctx = InitializeTreasury {
        program_id: program(),
        authority: owner(),
        treasury_key: Identity::new([5u8; 32]),
        treasury: None,
    };
    assert_eq!(initialize_treasury(&mut ctx, name), Err(ErrorCode::NameTooLong));
    assert!(ctx.treasury.is_none());
}

#[test]
fn create_accepts_a_name_of_50_bytes() {
    let name = "n".repeat(50);
    let key = Identity::new([5u8; 32]);
    let mut ctx = InitializeTreasury {
        program_id: program(),
        authority: owner(),
        treasury_key: key,
        treasury: None,
    };
    assert_eq!(create_treasury(&mut ctx, name.clone(), Some((key, 250))), Ok(()));
    let vault = ctx.treasury.unwrap();
    assert_eq!(vault.data.name, name);
    assert_eq!(vault.data.bump, 250);
}

#[test]
fn create_rejects_a_search_that_found_nothing() {
    let mut ctx = InitializeTreasury {
        program_id: program(),
        authority: owner(),
        treasury_key: Identity::new([5u8; 32]),
        treasury: None,
    };
    assert_eq!(create_treasury(&mut ctx, "a".to_string(), None), Err(ErrorCode::InvalidDerivation));
    assert!(ctx.treasury.is_none());
}

#[test]
fn initialize_rejects_another_address() {
    let mut ctx = InitializeTreasury {
        program_id: program(),
        authority: owner(),
        treasury_key: Identity::new([5u8; 32]),
        treasury: None,
    };
    assert_eq!(
        initialize_treasury(&mut ctx, "savings".to_string()),
        Err(ErrorCode::InvalidDerivation)
    );
    assert!(ctx.treasury.is_none());
}

#[test]
fn second_initialize_is_a_duplicate() {
    let first = create(owner(), "savings");
    let mut ctx = InitializeTreasury {
        program_id: program(),
        authority: owner(),
        treasury_key: first.key,
        treasury: Some(first.clone()),
    };
    assert_eq!(
        initialize_treasury(&mut ctx, "savings".to_string()),
        Err(ErrorCode::DuplicateRecord)
    );
    let kept = ctx.treasury.unwrap();
    assert_eq!(kept.data.name, "savings");
    assert!(kept.data.authority.same_as(&owner()));
    assert_eq!(kept.data.bump, first.data.bump);
    assert_eq!(kept.lamports, 0);
}

#[test]
fn deposits_add_up_to_their_total() {
    let mut vault = create(owner(), "savings");
    let amounts = [10u64, 25, 0, 65];
    let mut depositors = [100u64, 30, 7, 65];
    for (i, amount) in amounts.iter().enumerate() {
        let mut ctx = Deposit {
            program_id: program(),
            treasury: vault,
            depositor: Account { key: Identity::new([i as u8 + 20; 32]), lamports: depositors[i] },
        };
        assert_eq!(deposit(&mut ctx, *amount), Ok(()));
        depositors[i] = ctx.depositor.lamports;
        vault = ctx.treasury;
    }
    assert_eq!(vault.lamports, 100);
    assert_eq!(depositors, [90, 5, 7, 0]);
}

#[test]
fn deposit_beyond_the_depositor_balance_fails() {
    let vault = funded(owner(), "savings", 40);
    let mut ctx = Deposit {
        program_id: program(),
        treasury: vault,
        depositor: Account { key: stranger(), lamports: 9 },
    };
    assert_eq!(deposit(&mut ctx, 10), Err(ErrorCode::InsufficientFunds));
    assert_eq!(ctx.treasury.lamports, 40);
    assert_eq!(ctx.depositor.lamports, 9);
}

#[test]
fn withdraw_by_a_stranger_is_unauthorized() {
    let mut ctx = withdrawal(funded(owner(), "savings", 100), stranger());
    let to = ctx.recipient.key;
    assert_eq!(withdraw(&mut ctx, 10, to), Err(ErrorCode::Unauthorized));
    assert_eq!(ctx.treasury.lamports, 100);
    assert_eq!(ctx.recipient.lamports, 5);
}

#[test]
fn withdraw_beyond_the_balance_fails() {
    let mut ctx = withdrawal(funded(owner(), "savings", 50), owner());
    let to = ctx.recipient.key;
    assert_eq!(withdraw(&mut ctx, 51, to), Err(ErrorCode::InsufficientFunds));
    assert_eq!(ctx.treasury.lamports, 50);
    assert_eq!(ctx.recipient.lamports, 5);
}

#[test]
fn withdraw_by_the_authority_moves_the_amount() {
    let mut ctx = withdrawal(funded(owner(), "savings", 100), owner());
    let to = ctx.recipient.key;
    assert_eq!(withdraw(&mut ctx, 30, to), Ok(()));
    assert_eq!(ctx.treasury.lamports, 70);
    assert_eq!(ctx.recipient.lamports, 35);
    assert_eq!(withdraw(&mut ctx, 70, to), Ok(()));
    assert_eq!(ctx.treasury.lamports, 0);
    assert_eq!(ctx.recipient.lamports, 105);
}

#[test]
fn withdraw_to_an_empty_recipient() {
    let mut ctx = withdrawal(funded(owner(), "savings", 8), owner());
    ctx.recipient.lamports = 0;
    let to = ctx.recipient.key;
    assert_eq!(withdraw(&mut ctx, 8, to), Ok(()));
    assert_eq!(ctx.recipient.lamports, 8);
    assert_eq!(ctx.treasury.lamports, 0);
}

#[test]
fn withdraw_from_a_tampered_record_fails() {
    let mut vault = funded(owner(), "savings", 100);
    vault.data.name = "spending".to_string();
    let mut ctx = withdrawal(vault, owner());
    let to = ctx.recipient.key;
    assert_eq!(withdraw(&mut ctx, 10, to), Err(ErrorCode::InvalidDerivation));
    assert_eq!(ctx.treasury.lamports, 100);

    let mut moved = funded(owner(), "savings", 100);
    moved.key = Identity::new([6u8; 32]);
    let mut ctx = withdrawal(moved, stranger());
    assert_eq!(withdraw(&mut ctx, 10, to), Err(ErrorCode::InvalidDerivation));
    assert_eq!(ctx.treasury.lamports, 100);
}

#[test]
fn settle_checks_in_order() {
    let vault = TreasuryAccount {
        key: Identity::new([6u8; 32]),
        lamports: 20,
        data: create(owner(), "savings").data,
    };
    let mut ctx = withdrawal(vault.clone(), stranger());
    assert_eq!(settle_withdrawal(&mut ctx, 50, false), Err(ErrorCode::InvalidDerivation));
    assert_eq!(settle_withdrawal(&mut ctx, 50, true), Err(ErrorCode::Unauthorized));
    let mut ctx = withdrawal(vault, owner());
    assert_eq!(settle_withdrawal(&mut ctx, 50, true), Err(ErrorCode::InsufficientFunds));
    assert_eq!(settle_withdrawal(&mut ctx, 20, true), Ok(()));
    assert_eq!(ctx.treasury.lamports, 0);
    assert_eq!(ctx.recipient.lamports, 25);
}

#[test]
fn deposit_into_a_misplaced_vault_fails() {
    let mut vault = funded(owner(), "savings", 40);
    vault.key = Identity::new([6u8; 32]);
    let mut ctx = Deposit {
        program_id: program(),
        treasury: vault,
        depositor: Account { key: stranger(), lamports: 90 },
    };
    assert_eq!(deposit(&mut ctx, 10), Err(ErrorCode::InvalidDerivation));
    assert_eq!(ctx.treasury.lamports, 40);
    assert_eq!(ctx.depositor.lamports, 90);
}

#[test]
fn deposit_under_another_program_fails() {
    let vault = funded(owner(), "savings", 40);
    let mut ctx = Deposit {
        program_id: Identity::new([8u8; 32]),
        treasury: vault,
        depositor: Account { key: stranger(), lamports: 90 },
    };
    assert_eq!(deposit(&mut ctx, 10), Err(ErrorCode::InvalidDerivation));
    assert_eq!(ctx.treasury.lamports, 40);
}

#[test]
fn settle_deposit_checks_in_order() {
    let vault = funded(owner(), "savings", 1);
    let mut ctx = Deposit {
        program_id: program(),
        treasury: vault,
        depositor: Account { key: stranger(), lamports: 3 },
    };
    assert_eq!(settle_deposit(&mut ctx, 5, false), Err(ErrorCode::InvalidDerivation));
    assert_eq!(settle_deposit(&mut ctx, 5, true), Err(ErrorCode::InsufficientFunds));
    assert_eq!(settle_deposit(&mut ctx, 3, true), Ok(()));
    assert_eq!(ctx.treasury.lamports, 4);
    assert_eq!(ctx.depositor.lamports, 0);
}

#[test]
fn a_name_of_32_bytes_gets_a_vault() {
    let name = "m".repeat(32);
    let vault = create(owner(), &name);
    assert_eq!(vault.data.name, name);
}

#[test]
fn names_past_one_seed_get_a_vault() {
    for len in [33usize, 50] {
        let name = "m".repeat(len);
        let vault = funded(owner(), &name, 60);
        assert_eq!(vault.data.name, name);
        let mut ctx = withdrawal(vault, owner());
        let to = ctx.recipient.key;
        assert_eq!(withdraw(&mut ctx, 60, to), Ok(()));
        assert_eq!(ctx.treasury.lamports, 0);
        assert_eq!(ctx.recipient.lamports, 65);
    }
}

#[test]
fn names_sharing_a_first_seed_get_distinct_vaults() {
    let long = "m".repeat(40);
    let longer = "m".repeat(41);
    let (a, _) = treasury::derivation::derive(&program(), &owner(), &long).unwrap();
    let (b, _) = treasury::derivation::derive(&program(), &owner(), &longer).unwrap();
    assert!(!a.same_as(&b));
}

#[test]
fn only_the_derived_bump_re_derives_the_address() {
    let (address, bump) = treasury::derivation::derive(&program(), &owner(), "savings").unwrap();
    assert!(verify_derivation(&program(), &owner(), "savings", bump, &address));
    for other in 0..=255u8 {
        if other != bump {
            assert!(!verify_derivation(&program(), &owner(), "savings", other, &address));
        }
    }
}
