use tokrizer::accounts::{
    AccountRef, AddNftAccounts, CreateVaultAccounts, FractionalizeAccounts, MintNftAccounts,
    SendShareAccounts, bind_fractionalize, bind_mint_nft,
};
use tokrizer::calls::Call;
use tokrizer::errors::{AccountRole, TokrError};
use tokrizer::keys::{
    Address, address_eq, associated_holding_address, find_derived_address, native_mint_id,
    rent_exempt_minimum, token_program_id,
};
use tokrizer::processor::{
    add_nft_to_vault, create_vault, fractionalize, mint_nft, process, send_share,
};
use tokrizer::semantics::apply_call;
use tokrizer::state::{AccountRecord, Ledger, MintRecord, VaultState};

fn addr(n: u8) -> Address {
    Address([n; 32])
}

fn derive(seeds: &[&[u8]], program: &Address) -> (Address, u8) {
    let parts: Vec<Vec<u8>> = seeds.iter().map(|s| s.to_vec()).collect();
    find_derived_address(&parts, program).expect("derivation should find a bump")
}

struct MintSetup {
    program_id: Address,
    payer: Address,
    destination: Address,
    accounts: MintNftAccounts,
    bump: u8,
}

fn mint_setup(destination: Address) -> MintSetup {
    let program_id = addr(9);
    let payer = addr(1);
    let metadata_program = addr(7);
    let seed = b"myseed";
    let (mint, bump) = derive(&[seed, &payer.0, &destination.0], &program_id);
    let (metadata_account, _) = derive(
        &[b"metadata", &metadata_program.0, &mint.0],
        &metadata_program,
    );
    let token_account = associated_holding_address(&destination, &mint);
    let accounts = MintNftAccounts {
        payer,
        destination,
        creator: addr(3),
        mint,
        metadata_account,
        token_account,
        token_program: token_program_id(),
        metadata_program,
        system_program: addr(0),
        rent_sysvar: addr(11),
    };
    MintSetup { program_id, payer, destination, accounts, bump }
}

fn run_mint_nft(ledger: &Ledger, setup: &MintSetup) -> Result<Ledger, TokrError> {
    mint_nft(
        ledger,
        &setup.accounts,
        String::from("A Token"),
        String::from("TOK"),
        String::from("https://example.invalid/meta.json"),
        setup.bump,
        String::from("myseed"),
        &setup.program_id,
    )
}

#[test]
fn derivation_is_deterministic_and_moves_the_input() {
    let program = addr(9);
    let payer = addr(1);
    let (k1, b1) = derive(&[b"myseed", &payer.0, &addr(2).0], &program);
    let (k2, b2) = derive(&[b"myseed", &payer.0, &addr(2).0], &program);
    assert_eq!(k1.0, k2.0);
    assert_eq!(b1, b2);
    // The derived key is a fresh address, not any seed handed in.
    assert_ne!(k1.0, payer.0);
    assert_ne!(k1.0, addr(2).0);
    assert_ne!(k1.0, program.0);
    // A different seed gives a different address.
    let (k3, _) = derive(&[b"other", &payer.0, &addr(2).0], &program);
    assert_ne!(k1.0, k3.0);
}

#[test]
fn derivation_matches_host_primitive() {
    let program = addr(9);
    let expected = solana_program::pubkey::Pubkey::find_program_address(
        &[b"myseed", &addr(1).0, &addr(2).0],
        &solana_program::pubkey::Pubkey::new_from_array(program.0),
    );
    let (k, b) = derive(&[b"myseed", &addr(1).0, &addr(2).0], &program);
    assert_eq!(k.0, expected.0.to_bytes());
    assert_eq!(b, expected.1);
}

#[test]
fn associated_holding_matches_host_primitive() {
    let wallet = addr(4);
    let mint = addr(5);
    let ours = associated_holding_address(&wallet, &mint);
    let theirs = spl_associated_token_account::get_associated_token_address(
        &solana_program::pubkey::Pubkey::new_from_array(wallet.0),
        &solana_program::pubkey::Pubkey::new_from_array(mint.0),
    );
    assert_eq!(ours.0, theirs.to_bytes());
    assert_ne!(ours.0, wallet.0);
    assert_ne!(ours.0, mint.0);
}

#[test]
fn rent_threshold_matches_host_schedule() {
    let expected = solana_program::rent::Rent::default().minimum_balance(82);
    assert_eq!(rent_exempt_minimum(82), expected);
    assert!(rent_exempt_minimum(82) > 0);
    assert!(rent_exempt_minimum(205) > rent_exempt_minimum(42));
}

#[test]
fn mint_nft_creates_supply_one() {
    let setup = mint_setup(addr(2));
    let ledger = Ledger::new();
    let after = run_mint_nft(&ledger, &setup).expect("mint workflow should succeed");
    match after.get(&setup.accounts.mint) {
        Some(AccountRecord::Mint(m)) => {
            assert_eq!(m.supply, 1);
            assert_eq!(m.decimals, 0);
            assert!(address_eq(&m.mint_authority, &setup.payer));
        }
        _ => panic!("mint record missing"),
    }
    match after.get(&setup.accounts.token_account) {
        Some(AccountRecord::Holding(h)) => {
            assert_eq!(h.amount, 1);
            assert!(address_eq(&h.mint, &setup.accounts.mint));
            assert!(address_eq(&h.owner, &setup.destination));
        }
        _ => panic!("holding record missing"),
    }
    match after.get(&setup.accounts.metadata_account) {
        Some(AccountRecord::Metadata(md)) => {
            assert_eq!(md.name, "A Token");
            assert_eq!(md.symbol, "TOK");
            assert!(md.creator_verified);
            assert_eq!(md.creator_share, 100);
        }
        _ => panic!("metadata record missing"),
    }
}

#[test]
fn second_unit_through_same_mint_fails() {
    let setup = mint_setup(addr(2));
    let ledger = Ledger::new();
    let mut after = run_mint_nft(&ledger, &setup).expect("mint workflow should succeed");
    let again = apply_call(
        &mut after,
        &Call::MintUnits {
            mint: setup.accounts.mint,
            destination: setup.accounts.token_account,
            authority: setup.payer,
            amount: 1,
        },
    );
    assert_eq!(again, Err(TokrError::MaxSupplyExceeded));
}

#[test]
fn mint_nft_wrong_mint_address_aborts_without_side_effects() {
    let mut setup = mint_setup(addr(2));
    setup.accounts.mint = addr(42);
    let ledger = Ledger::new();
    let r = run_mint_nft(&ledger, &setup);
    assert_eq!(r.err(), Some(TokrError::DerivationMismatch(AccountRole::Mint)));
    // The input ledger is untouched: the caller still holds it, empty.
    assert!(ledger.get(&addr(42)).is_none());
}

#[test]
fn mint_nft_wrong_bump_aborts() {
    let mut setup = mint_setup(addr(2));
    setup.bump = setup.bump.wrapping_add(1);
    let r = run_mint_nft(&Ledger::new(), &setup);
    assert_eq!(r.err(), Some(TokrError::BumpMismatch(AccountRole::Mint)));
}

#[test]
fn mint_nft_wrong_token_program_aborts() {
    let mut setup = mint_setup(addr(2));
    setup.accounts.token_program = addr(12);
    let r = run_mint_nft(&Ledger::new(), &setup);
    assert_eq!(r.err(), Some(TokrError::WrongProgramAccount(AccountRole::TokenProgram)));
}

#[test]
fn mint_nft_overlong_seed_is_unavailable() {
    let setup = mint_setup(addr(2));
    let long_seed = "x".repeat(33);
    let r = mint_nft(
        &Ledger::new(),
        &setup.accounts,
        String::from("A"),
        String::from("B"),
        String::from("C"),
        setup.bump,
        long_seed,
        &setup.program_id,
    );
    assert_eq!(r.err(), Some(TokrError::DerivationUnavailable(AccountRole::Mint)));
}

#[test]
fn mint_nft_twice_hits_account_in_use() {
    let setup = mint_setup(addr(2));
    let once = run_mint_nft(&Ledger::new(), &setup).expect("first mint should succeed");
    let twice = run_mint_nft(&once, &setup);
    assert_eq!(twice.err(), Some(TokrError::AccountInUse));
}

struct VaultSetup {
    program_id: Address,
    accounts: CreateVaultAccounts,
    bump: u8,
}

fn vault_setup() -> VaultSetup {
    let program_id = addr(9);
    let payer = addr(1);
    let vault_authority = addr(4);
    let vault_mint_authority = addr(5);
    let token_vault_program = addr(6);
    let (vault, bump) = derive(&[&payer.0, &token_vault_program.0, b"vaultseed"], &program_id);
    let (external_pricing, _) = derive(&[b"external", &vault.0, &payer.0], &program_id);
    let (fraction_mint, _) = derive(&[b"fraction", &vault.0, &payer.0], &program_id);
    let fraction_treasury = associated_holding_address(&vault_mint_authority, &fraction_mint);
    let redeem_treasury = associated_holding_address(&vault_mint_authority, &native_mint_id());
    let accounts = CreateVaultAccounts {
        payer,
        vault_authority,
        vault,
        vault_mint_authority,
        external_pricing,
        fraction_mint,
        redeem_treasury,
        fraction_treasury,
        token_vault_program,
        token_program: token_program_id(),
        system_program: addr(0),
        rent_sysvar: addr(11),
        ata_program: addr(13),
        native_mint: native_mint_id(),
    };
    VaultSetup { program_id, accounts, bump }
}

fn ledger_with_native_mint() -> Ledger {
    let mut l = Ledger::new();
    l.set(
        native_mint_id(),
        AccountRecord::Mint(MintRecord {
            supply: 0,
            decimals: 9,
            mint_authority: addr(0),
            freeze_authority: None,
        }),
    );
    l
}

fn run_create_vault(ledger: &Ledger, setup: &VaultSetup) -> Result<Ledger, TokrError> {
    create_vault(ledger, &setup.accounts, String::from("vaultseed"), setup.bump, &setup.program_id)
}

#[test]
fn create_vault_starts_inactive_with_empty_treasuries() {
    let setup = vault_setup();
    let after = run_create_vault(&ledger_with_native_mint(), &setup)
        .expect("vault workflow should succeed");
    match after.get(&setup.accounts.vault) {
        Some(AccountRecord::Vault(v)) => {
            assert_eq!(v.state, VaultState::Inactive);
            assert!(!v.allow_further_share_creation);
            assert_eq!(v.token_type_count, 0);
            assert!(address_eq(&v.authority, &setup.accounts.vault_authority));
        }
        _ => panic!("vault record missing"),
    }
    for treasury in [&setup.accounts.fraction_treasury, &setup.accounts.redeem_treasury] {
        match after.get(treasury) {
            Some(AccountRecord::Holding(h)) => assert_eq!(h.amount, 0),
            _ => panic!("treasury record missing"),
        }
    }
}

fn fractionalize_accounts(setup: &VaultSetup) -> FractionalizeAccounts {
    FractionalizeAccounts {
        payer: setup.accounts.payer,
        vault_authority: setup.accounts.vault_authority,
        vault: setup.accounts.vault,
        vault_mint_authority: setup.accounts.vault_mint_authority,
        fraction_mint: setup.accounts.fraction_mint,
        fraction_treasury: setup.accounts.fraction_treasury,
        token_vault_program: setup.accounts.token_vault_program,
    }
}

#[test]
fn fractionalize_activates_and_mints_shares() {
    let setup = vault_setup();
    let vaulted = run_create_vault(&ledger_with_native_mint(), &setup).unwrap();
    let f = fractionalize_accounts(&setup);
    let active = fractionalize(&vaulted, &f, 100, &setup.program_id)
        .expect("first fractionalize should succeed");
    match active.get(&setup.accounts.vault) {
        Some(AccountRecord::Vault(v)) => assert_eq!(v.state, VaultState::Active),
        _ => panic!("vault record missing"),
    }
    match active.get(&setup.accounts.fraction_treasury) {
        Some(AccountRecord::Holding(h)) => assert_eq!(h.amount, 100),
        _ => panic!("treasury record missing"),
    }
    match active.get(&setup.accounts.fraction_mint) {
        Some(AccountRecord::Mint(m)) => assert_eq!(m.supply, 100),
        _ => panic!("fraction mint record missing"),
    }

    // Further issuance was disallowed at initialization: a second call
    // fails and the ledger the caller holds is unchanged.
    let second = fractionalize(&active, &f, 7, &setup.program_id);
    assert_eq!(second.err(), Some(TokrError::SharesIssuanceForbidden));
    match active.get(&setup.accounts.fraction_treasury) {
        Some(AccountRecord::Holding(h)) => assert_eq!(h.amount, 100),
        _ => panic!("treasury record missing"),
    }
}

#[test]
fn fractionalize_without_vault_record_fails() {
    let setup = vault_setup();
    let f = fractionalize_accounts(&setup);
    let r = fractionalize(&Ledger::new(), &f, 100, &setup.program_id);
    assert_eq!(r.err(), Some(TokrError::WrongAccountKind(AccountRole::Vault)));
}

fn send_share_accounts(
    setup: &VaultSetup,
    nft_mint: &Address,
    destination: &Address,
    program_id: &Address,
) -> SendShareAccounts {
    let (transfer_authority, _) =
        derive(&[b"transfer", &setup.accounts.vault.0, &nft_mint.0], program_id);
    SendShareAccounts {
        mint: *nft_mint,
        payer: setup.accounts.payer,
        destination: *destination,
        destination_ata: associated_holding_address(destination, &setup.accounts.fraction_mint),
        transfer_authority,
        vault: setup.accounts.vault,
        vault_authority: setup.accounts.vault_authority,
        fraction_mint: setup.accounts.fraction_mint,
        fraction_treasury: setup.accounts.fraction_treasury,
        token_vault_program: setup.accounts.token_vault_program,
        token_program: token_program_id(),
        system_program: addr(0),
        rent_sysvar: addr(11),
    }
}

#[test]
fn send_share_creates_destination_and_conserves_shares() {
    let setup = vault_setup();
    let vaulted = run_create_vault(&ledger_with_native_mint(), &setup).unwrap();
    let f = fractionalize_accounts(&setup);
    let active = fractionalize(&vaulted, &f, 100, &setup.program_id).unwrap();
    let destination = addr(8);
    let nft_mint = addr(10);
    let s = send_share_accounts(&setup, &nft_mint, &destination, &setup.program_id);
    assert!(active.get(&s.destination_ata).is_none());
    let sent = send_share(&active, &s, 40, &setup.program_id)
        .expect("send share should succeed");
    let dest_amount = match sent.get(&s.destination_ata) {
        Some(AccountRecord::Holding(h)) => {
            assert!(address_eq(&h.owner, &destination));
            h.amount
        }
        _ => panic!("destination holding missing"),
    };
    let treasury_amount = match sent.get(&s.fraction_treasury) {
        Some(AccountRecord::Holding(h)) => h.amount,
        _ => panic!("treasury record missing"),
    };
    assert_eq!(dest_amount, 40);
    assert_eq!(treasury_amount, 60);
    assert_eq!(dest_amount + treasury_amount, 100);
}

#[test]
fn send_share_into_the_treasury_itself_changes_nothing() {
    // When the destination owner is the vault's mint-authority delegate,
    // its canonical holding for the fractional mint is the treasury
    // itself: the withdrawal moves shares nowhere and conserves them.
    let setup = vault_setup();
    let vaulted = run_create_vault(&ledger_with_native_mint(), &setup).unwrap();
    let f = fractionalize_accounts(&setup);
    let active = fractionalize(&vaulted, &f, 100, &setup.program_id).unwrap();
    let s = send_share_accounts(
        &setup,
        &addr(10),
        &setup.accounts.vault_mint_authority,
        &setup.program_id,
    );
    assert_eq!(s.destination_ata.0, setup.accounts.fraction_treasury.0);
    let sent = send_share(&active, &s, 25, &setup.program_id)
        .expect("self-directed withdrawal should succeed");
    match sent.get(&setup.accounts.fraction_treasury) {
        Some(AccountRecord::Holding(h)) => assert_eq!(h.amount, 100),
        _ => panic!("treasury record missing"),
    }
}

#[test]
fn send_share_more_than_treasury_fails() {
    let setup = vault_setup();
    let vaulted = run_create_vault(&ledger_with_native_mint(), &setup).unwrap();
    let f = fractionalize_accounts(&setup);
    let active = fractionalize(&vaulted, &f, 100, &setup.program_id).unwrap();
    let s = send_share_accounts(&setup, &addr(10), &addr(8), &setup.program_id);
    let r = send_share(&active, &s, 101, &setup.program_id);
    assert_eq!(r.err(), Some(TokrError::InsufficientTreasury));
}

fn add_nft_accounts(setup: &VaultSetup, nft_mint: &Address, program_id: &Address) -> AddNftAccounts {
    let (transfer_authority, _) =
        derive(&[b"transfer", &setup.accounts.vault.0, &nft_mint.0], program_id);
    let (token_store, _) = derive(&[b"store", &setup.accounts.vault.0, &nft_mint.0], program_id);
    AddNftAccounts {
        mint: *nft_mint,
        payer: setup.accounts.payer,
        token_account: associated_holding_address(&setup.accounts.payer, nft_mint),
        transfer_authority,
        vault_authority: setup.accounts.vault_authority,
        vault: setup.accounts.vault,
        vault_mint_authority: setup.accounts.vault_mint_authority,
        token_store,
        safety_deposit_box: addr(33),
        token_vault_program: setup.accounts.token_vault_program,
        token_program: token_program_id(),
        system_program: addr(0),
        rent_sysvar: addr(11),
        ata_program: addr(13),
    }
}

#[test]
fn deposit_then_activation_then_deposit_is_rejected() {
    // Mint an NFT to the payer, vault it while inactive, fractionalize,
    // then try to deposit a second NFT: the state guard rejects it.
    let setup = vault_setup();
    let nft = mint_setup(addr(1));
    let l0 = ledger_with_native_mint();
    let l1 = run_mint_nft(&l0, &nft).expect("mint should succeed");
    let l2 = run_create_vault(&l1, &setup).expect("vault creation should succeed");

    let deposit = add_nft_accounts(&setup, &nft.accounts.mint, &setup.program_id);
    let l3 = add_nft_to_vault(&l2, &deposit, &setup.program_id)
        .expect("deposit into inactive vault should succeed");
    match l3.get(&deposit.token_store) {
        Some(AccountRecord::Holding(h)) => assert_eq!(h.amount, 1),
        _ => panic!("token store missing"),
    }
    match l3.get(&deposit.token_account) {
        Some(AccountRecord::Holding(h)) => assert_eq!(h.amount, 0),
        _ => panic!("source holding missing"),
    }
    match l3.get(&deposit.safety_deposit_box) {
        Some(AccountRecord::DepositBox(b)) => {
            assert!(address_eq(&b.store, &deposit.token_store));
            assert_eq!(b.order, 0);
        }
        _ => panic!("safety deposit box missing"),
    }
    match l3.get(&setup.accounts.vault) {
        Some(AccountRecord::Vault(v)) => assert_eq!(v.token_type_count, 1),
        _ => panic!("vault record missing"),
    }

    let f = fractionalize_accounts(&setup);
    let l4 = fractionalize(&l3, &f, 100, &setup.program_id).expect("activation should succeed");

    // A second NFT, freshly minted, can no longer be deposited.
    let program_id = setup.program_id;
    let payer = addr(1);
    let (mint2, bump2) = derive(&[b"second", &payer.0, &payer.0], &program_id);
    let metadata_program = addr(7);
    let (meta2, _) = derive(&[b"metadata", &metadata_program.0, &mint2.0], &metadata_program);
    let accounts2 = MintNftAccounts {
        payer,
        destination: payer,
        creator: addr(3),
        mint: mint2,
        metadata_account: meta2,
        token_account: associated_holding_address(&payer, &mint2),
        token_program: token_program_id(),
        metadata_program,
        system_program: addr(0),
        rent_sysvar: addr(11),
    };
    let l5 = mint_nft(
        &l4,
        &accounts2,
        String::from("Second"),
        String::from("SEC"),
        String::from("uri"),
        bump2,
        String::from("second"),
        &program_id,
    )
    .expect("second mint should succeed");
    let deposit2 = add_nft_accounts(&setup, &mint2, &setup.program_id);
    let r = add_nft_to_vault(&l5, &deposit2, &setup.program_id);
    assert_eq!(r.err(), Some(TokrError::VaultShouldBeInactive));
}

#[test]
fn create_account_underfunded_or_oversized_fails() {
    let mut l = Ledger::new();
    let r = apply_call(
        &mut l,
        &Call::CreateAccount {
            payer: addr(1),
            new_address: addr(2),
            lamports: 0,
            space: 82,
            owner: token_program_id(),
        },
    );
    assert_eq!(r, Err(TokrError::InsufficientFunding));
    let r = apply_call(
        &mut l,
        &Call::CreateAccount {
            payer: addr(1),
            new_address: addr(2),
            lamports: u64::MAX,
            space: 20_000_000,
            owner: token_program_id(),
        },
    );
    assert_eq!(r, Err(TokrError::AccountSpaceTooLarge));
}

#[test]
fn process_dispatches_and_validates_accounts() {
    let setup = vault_setup();
    let vaulted = run_create_vault(&ledger_with_native_mint(), &setup).unwrap();
    let f = fractionalize_accounts(&setup);
    let data = tokrizer::instruction::encode_instruction(
        &tokrizer::instruction::TokrizerInstruction::Fractionalize(
            tokrizer::instruction::FractionalizeArgs { number_of_shares: 100 },
        ),
    );

    let refs = vec![
        AccountRef { address: f.payer, is_signer: true, is_writable: true },
        AccountRef { address: f.vault_authority, is_signer: true, is_writable: false },
        AccountRef { address: f.vault, is_signer: false, is_writable: true },
        AccountRef { address: f.vault_mint_authority, is_signer: false, is_writable: false },
        AccountRef { address: f.fraction_mint, is_signer: false, is_writable: true },
        AccountRef { address: f.fraction_treasury, is_signer: false, is_writable: true },
        AccountRef { address: f.token_vault_program, is_signer: false, is_writable: false },
    ];
    let after = process(&vaulted, &setup.program_id, &refs, &data)
        .expect("dispatched fractionalize should succeed");
    match after.get(&setup.accounts.fraction_treasury) {
        Some(AccountRecord::Holding(h)) => assert_eq!(h.amount, 100),
        _ => panic!("treasury record missing"),
    }

    // Garbage data is rejected before any account is read.
    let r = process(&vaulted, &setup.program_id, &refs, &vec![99u8, 1, 2]);
    assert_eq!(r.err(), Some(TokrError::InvalidInstructionData));

    // A short account list fails fast with a labeled error.
    let r = process(&vaulted, &setup.program_id, &refs[..3].to_vec(), &data);
    assert_eq!(r.err(), Some(TokrError::WrongAccountCount));

    // A vault authority that did not sign is refused.
    let mut unsigned = refs.clone();
    unsigned[1].is_signer = false;
    let r = process(&vaulted, &setup.program_id, &unsigned, &data);
    assert_eq!(r.err(), Some(TokrError::MissingSigner(AccountRole::VaultAuthority)));
}

#[test]
fn binding_checks_count_and_signers() {
    let refs: Vec<AccountRef> = (0..10)
        .map(|i| AccountRef { address: addr(i as u8), is_signer: i == 0, is_writable: false })
        .collect();
    assert!(bind_mint_nft(&refs).is_ok());
    let r = bind_mint_nft(&refs[..9].to_vec());
    assert_eq!(r.err(), Some(TokrError::WrongAccountCount));
    let mut unsigned = refs.clone();
    unsigned[0].is_signer = false;
    let r = bind_mint_nft(&unsigned);
    assert_eq!(r.err(), Some(TokrError::MissingSigner(AccountRole::Payer)));
    let r = bind_fractionalize(&refs);
    assert_eq!(r.err(), Some(TokrError::WrongAccountCount));
}
