use tokrizer::calls::Call;
use tokrizer::errors::{AccountRole, TokrError};
use tokrizer::keys::Address;
use tokrizer::semantics::apply_call;
use tokrizer::state::{
    AccountRecord, Delegation, HoldingRecord, Ledger, MintRecord, VaultRecord, VaultState,
};

fn addr(n: u8) -> Address {
    Address([n; 32])
}

fn mint_rec(supply: u64, decimals: u8, authority: Address) -> AccountRecord {
    AccountRecord::Mint(MintRecord {
        supply,
        decimals,
        mint_authority: authority,
        freeze_authority: None,
    })
}

fn holding(mint: Address, owner: Address, amount: u64) -> AccountRecord {
    AccountRecord::Holding(HoldingRecord { mint, owner, amount, delegation: None })
}

fn vault_rec(state: VaultState, allow_further: bool) -> AccountRecord {
    AccountRecord::Vault(VaultRecord {
        state,
        authority: addr(4),
        fraction_mint: addr(20),
        redeem_treasury: addr(21),
        fraction_treasury: addr(22),
        pricing_lookup: addr(23),
        allow_further_share_creation: allow_further,
        token_type_count: 0,
    })
}

#[test]
fn mint_units_checks_authority_and_destination_mint() {
    let mut l = Ledger::new();
    l.set(addr(10), mint_rec(0, 6, addr(1)));
    l.set(addr(11), holding(addr(10), addr(2), 0));
    l.set(addr(12), holding(addr(99), addr(2), 0));

    let r = apply_call(&mut l, &Call::MintUnits {
        mint: addr(10),
        destination: addr(11),
        authority: addr(3),
        amount: 5,
    });
    assert_eq!(r, Err(TokrError::WrongAuthority));

    let r = apply_call(&mut l, &Call::MintUnits {
        mint: addr(10),
        destination: addr(12),
        authority: addr(1),
        amount: 5,
    });
    assert_eq!(r, Err(TokrError::WrongMint));

    let r = apply_call(&mut l, &Call::MintUnits {
        mint: addr(10),
        destination: addr(11),
        authority: addr(1),
        amount: 5,
    });
    assert_eq!(r, Ok(()));
    match l.get(&addr(10)) {
        Some(AccountRecord::Mint(m)) => assert_eq!(m.supply, 5),
        _ => panic!("mint record missing"),
    }
}

#[test]
fn counters_do_not_wrap() {
    let mut l = Ledger::new();
    l.set(addr(10), mint_rec(u64::MAX, 6, addr(1)));
    l.set(addr(11), holding(addr(10), addr(2), 0));
    let r = apply_call(&mut l, &Call::MintUnits {
        mint: addr(10),
        destination: addr(11),
        authority: addr(1),
        amount: 1,
    });
    assert_eq!(r, Err(TokrError::AmountOverflow));
}

#[test]
fn approve_checks_owner() {
    let mut l = Ledger::new();
    l.set(addr(11), holding(addr(10), addr(2), 1));
    let r = apply_call(&mut l, &Call::ApproveDelegate {
        source: addr(11),
        delegate: addr(5),
        owner: addr(9),
        amount: 1,
    });
    assert_eq!(r, Err(TokrError::WrongOwner));
    let r = apply_call(&mut l, &Call::ApproveDelegate {
        source: addr(11),
        delegate: addr(5),
        owner: addr(2),
        amount: 1,
    });
    assert_eq!(r, Ok(()));
}

#[test]
fn deposit_needs_delegation_and_balance() {
    let mut l = Ledger::new();
    l.set(addr(30), vault_rec(VaultState::Inactive, false));
    l.set(addr(11), holding(addr(10), addr(2), 1));
    l.set(addr(12), holding(addr(10), addr(5), 0));

    let deposit = |l: &mut Ledger, amount: u64| {
        apply_call(l, &Call::AddTokenToVault {
            safety_deposit_box: addr(33),
            token_account: addr(11),
            store: addr(12),
            vault: addr(30),
            vault_authority: addr(4),
            payer: addr(2),
            transfer_authority: addr(6),
            amount,
        })
    };

    // No delegation has been approved yet.
    assert_eq!(deposit(&mut l, 1), Err(TokrError::MissingDelegate));

    l.set(
        addr(11),
        AccountRecord::Holding(HoldingRecord {
            mint: addr(10),
            owner: addr(2),
            amount: 1,
            delegation: Some(Delegation { delegate: addr(6), amount: 2 }),
        }),
    );
    // Delegated more than the holding has.
    assert_eq!(deposit(&mut l, 2), Err(TokrError::InsufficientBalance));
    assert_eq!(deposit(&mut l, 1), Ok(()));
    match l.get(&addr(12)) {
        Some(AccountRecord::Holding(h)) => assert_eq!(h.amount, 1),
        _ => panic!("store record missing"),
    }
    match l.get(&addr(33)) {
        Some(AccountRecord::DepositBox(_)) => {}
        _ => panic!("deposit box missing"),
    }
}

#[test]
fn share_calls_need_an_active_vault() {
    let mut l = Ledger::new();
    l.set(addr(30), vault_rec(VaultState::Inactive, true));
    l.set(addr(20), mint_rec(0, 0, addr(5)));
    l.set(addr(22), holding(addr(20), addr(5), 0));
    l.set(addr(40), holding(addr(20), addr(8), 0));

    let r = apply_call(&mut l, &Call::MintShares {
        fraction_treasury: addr(22),
        fraction_mint: addr(20),
        vault: addr(30),
        fraction_mint_authority: addr(5),
        vault_authority: addr(4),
        number_of_shares: 10,
    });
    assert_eq!(r, Err(TokrError::VaultShouldBeActive));

    let r = apply_call(&mut l, &Call::WithdrawShares {
        destination: addr(40),
        fraction_treasury: addr(22),
        vault: addr(30),
        transfer_authority: addr(6),
        vault_authority: addr(4),
        number_of_shares: 1,
    });
    assert_eq!(r, Err(TokrError::VaultShouldBeActive));

    // Activation itself must name the vault's own treasury and mint.
    let r = apply_call(&mut l, &Call::ActivateVault {
        vault: addr(30),
        fraction_mint: addr(77),
        fraction_treasury: addr(22),
        fraction_mint_authority: addr(5),
        vault_authority: addr(4),
        number_of_shares: 10,
    });
    assert_eq!(r, Err(TokrError::WrongMint));

    let r = apply_call(&mut l, &Call::ActivateVault {
        vault: addr(30),
        fraction_mint: addr(20),
        fraction_treasury: addr(22),
        fraction_mint_authority: addr(5),
        vault_authority: addr(4),
        number_of_shares: 10,
    });
    assert_eq!(r, Ok(()));
    match l.get(&addr(30)) {
        Some(AccountRecord::Vault(v)) => assert_eq!(v.state, VaultState::Active),
        _ => panic!("vault record missing"),
    }
}

#[test]
fn uninitialized_roles_are_labeled() {
    let mut l = Ledger::new();
    let r = apply_call(&mut l, &Call::InitializeHolding {
        account: addr(2),
        mint: addr(10),
        owner: addr(5),
    });
    assert_eq!(r, Err(TokrError::WrongAccountKind(AccountRole::HoldingAccount)));
    let r = apply_call(&mut l, &Call::InitializeMint {
        mint: addr(10),
        mint_authority: addr(1),
        freeze_authority: None,
        decimals: 0,
    });
    assert_eq!(r, Err(TokrError::WrongAccountKind(AccountRole::Mint)));
}
