//! The meaning of each cross-contract call, stated over the ledger view,
//! and a verified executor that applies a planned call sequence to the
//! ledger model.  These are the call contracts of the external
//! collaborators (host account allocation, token ledger, metadata
//! registry, vault program) that the orchestrator depends on: each
//! `apply_*_model` function says on which ledgers the collaborator
//! succeeds, which error it raises otherwise, and what the ledger holds
//! afterwards.  Signature checking and fee accounting stay with the host
//! and are not part of the model.

use vstd::prelude::*;
use crate::errors::{AccountRole, TokrError};
use crate::keys::{
    Address, address_eq, ata_of, associated_holding_address, derivation_of, find_derived_address,
    metadata_prefix, metadata_prefix_bytes, rent_exempt_min, rent_exempt_minimum, seeds_view,
    spl_token_id_bytes, token_program_id, address_bytes,
};
use crate::state::{
    AccountRecord, DelegationV, DepositBoxRecV, HoldingRecV, Ledger, MetadataRecV, MintRecV,
    PriceRecV, RawRecV, RecV, VaultRecV, VaultState, Delegation, DepositBoxRecord, HoldingRecord,
    MetadataRecord, MintRecord, PriceRecord, RawRecord, VaultRecord,
};
use crate::calls::{Call, CallV, PlannedCall, PlannedCallV, calls_view};

verus! {

/// Byte size of a mint record.
pub const MINT_ACCOUNT_LEN: u64 = 82;

/// Byte size of a holding-account record.
pub const HOLDING_ACCOUNT_LEN: u64 = 165;

/// Byte size of a vault record.
pub const VAULT_ACCOUNT_LEN: u64 = 205;

/// Byte size of an external price record.
pub const PRICE_ACCOUNT_LEN: u64 = 42;

/// The largest account the host allots.
pub const MAX_ACCOUNT_SPACE: u64 = 10_485_760;

/// The ledger holds an allocated, still-uninitialized account at `a`,
/// owned by `owner` and sized `space`.
pub open spec fn raw_for(l: Map<Seq<u8>, RecV>, a: Seq<u8>, owner: Seq<u8>, space: u64) -> bool {
    l.contains_key(a) && match l[a] {
        RecV::Raw(r) => r.owner == owner && r.space == space,
        _ => false,
    }
}

/// The mint record at `a`, if any.
pub open spec fn mint_at(l: Map<Seq<u8>, RecV>, a: Seq<u8>) -> Option<MintRecV> {
    if l.contains_key(a) {
        match l[a] {
            RecV::Mint(m) => Some(m),
            _ => None,
        }
    } else {
        None
    }
}

/// The holding record at `a`, if any.
pub open spec fn holding_at(l: Map<Seq<u8>, RecV>, a: Seq<u8>) -> Option<HoldingRecV> {
    if l.contains_key(a) {
        match l[a] {
            RecV::Holding(h) => Some(h),
            _ => None,
        }
    } else {
        None
    }
}

/// The vault record at `a`, if any.
pub open spec fn vault_at(l: Map<Seq<u8>, RecV>, a: Seq<u8>) -> Option<VaultRecV> {
    if l.contains_key(a) {
        match l[a] {
            RecV::Vault(v) => Some(v),
            _ => None,
        }
    } else {
        None
    }
}

/// The price record at `a`, if any.
pub open spec fn price_at(l: Map<Seq<u8>, RecV>, a: Seq<u8>) -> Option<PriceRecV> {
    if l.contains_key(a) {
        match l[a] {
            RecV::Price(p) => Some(p),
            _ => None,
        }
    } else {
        None
    }
}

/// Host account allocation: fails on an oversized request, an address
/// already in use, or funding below the storage-exemption threshold.
pub open spec fn apply_create_account_model(
    l: Map<Seq<u8>, RecV>,
    payer: Seq<u8>,
    new_address: Seq<u8>,
    lamports: u64,
    space: u64,
    owner: Seq<u8>,
) -> Result<Map<Seq<u8>, RecV>, TokrError> {
    if space > MAX_ACCOUNT_SPACE {
        Err(TokrError::AccountSpaceTooLarge)
    } else if l.contains_key(new_address) {
        Err(TokrError::AccountInUse)
    } else if lamports < rent_exempt_min(space) {
        Err(TokrError::InsufficientFunding)
    } else {
        Ok(l.insert(new_address, RecV::Raw(RawRecV { space, owner })))
    }
}

/// Token ledger, initialize-mint: the target must be an allocated
/// mint-sized account owned by the token program.
pub open spec fn apply_initialize_mint_model(
    l: Map<Seq<u8>, RecV>,
    mint: Seq<u8>,
    mint_authority: Seq<u8>,
    freeze_authority: Option<Seq<u8>>,
    decimals: u8,
) -> Result<Map<Seq<u8>, RecV>, TokrError> {
    if raw_for(l, mint, spl_token_id_bytes(), MINT_ACCOUNT_LEN) {
        Ok(
            l.insert(
                mint,
                RecV::Mint(MintRecV { supply: 0, decimals, mint_authority, freeze_authority }),
            ),
        )
    } else {
        Err(TokrError::WrongAccountKind(AccountRole::Mint))
    }
}

/// Token ledger, initialize-holding-account: the target must be an
/// allocated holding-sized account owned by the token program, and the
/// mint must exist.
pub open spec fn apply_initialize_holding_model(
    l: Map<Seq<u8>, RecV>,
    account: Seq<u8>,
    mint: Seq<u8>,
    owner: Seq<u8>,
) -> Result<Map<Seq<u8>, RecV>, TokrError> {
    if !raw_for(l, account, spl_token_id_bytes(), HOLDING_ACCOUNT_LEN) {
        Err(TokrError::WrongAccountKind(AccountRole::HoldingAccount))
    } else if mint_at(l, mint) is None {
        Err(TokrError::WrongAccountKind(AccountRole::Mint))
    } else {
        Ok(l.insert(account, RecV::Holding(HoldingRecV { mint, owner, amount: 0, delegation: None })))
    }
}

/// Associated-holding creation: the canonical address for the owner and
/// mint is derived, must be free, and the mint must exist.
pub open spec fn apply_create_associated_model(
    l: Map<Seq<u8>, RecV>,
    payer: Seq<u8>,
    wallet: Seq<u8>,
    mint: Seq<u8>,
) -> Result<Map<Seq<u8>, RecV>, TokrError> {
    if mint_at(l, mint) is None {
        Err(TokrError::WrongAccountKind(AccountRole::Mint))
    } else if l.contains_key(ata_of(wallet, mint)) {
        Err(TokrError::AccountInUse)
    } else {
        Ok(
            l.insert(
                ata_of(wallet, mint),
                RecV::Holding(HoldingRecV { mint, owner: wallet, amount: 0, delegation: None }),
            ),
        )
    }
}

/// Metadata registry, attach-metadata: the record's address must equal
/// its re-derivation from the domain tag, registry program and mint; the
/// mint must exist with the calling authority; the record must be new.
/// The single creator is attached verified with a 100 share.
pub open spec fn apply_attach_metadata_model(
    l: Map<Seq<u8>, RecV>,
    metadata_program: Seq<u8>,
    metadata_account: Seq<u8>,
    mint: Seq<u8>,
    mint_authority: Seq<u8>,
    update_authority: Seq<u8>,
    name: Seq<char>,
    symbol: Seq<char>,
    uri: Seq<char>,
    creator: Seq<u8>,
) -> Result<Map<Seq<u8>, RecV>, TokrError> {
    match derivation_of(seq![metadata_prefix_bytes(), metadata_program, mint], metadata_program) {
        None => Err(TokrError::DerivationUnavailable(AccountRole::MetadataAccount)),
        Some(kb) => {
            if kb.0 != metadata_account {
                Err(TokrError::DerivationMismatch(AccountRole::MetadataAccount))
            } else {
                match mint_at(l, mint) {
                    None => Err(TokrError::WrongAccountKind(AccountRole::Mint)),
                    Some(m) => {
                        if m.mint_authority != mint_authority {
                            Err(TokrError::WrongAuthority)
                        } else if l.contains_key(metadata_account) {
                            Err(TokrError::AccountInUse)
                        } else {
                            Ok(
                                l.insert(
                                    metadata_account,
                                    RecV::Metadata(
                                        MetadataRecV {
                                            mint,
                                            update_authority,
                                            name,
                                            symbol,
                                            uri,
                                            creator,
                                            creator_verified: true,
                                            creator_share: 100,
                                        },
                                    ),
                                ),
                            )
                        }
                    },
                }
            }
        },
    }
}

/// Token ledger, mint-units: only the mint authority may mint; the
/// destination must hold the same mint; counters must not overflow; and a
/// non-fungible mint (zero decimals) never exceeds a total supply of one.
pub open spec fn apply_mint_units_model(
    l: Map<Seq<u8>, RecV>,
    mint: Seq<u8>,
    destination: Seq<u8>,
    authority: Seq<u8>,
    amount: u64,
) -> Result<Map<Seq<u8>, RecV>, TokrError> {
    match mint_at(l, mint) {
        None => Err(TokrError::WrongAccountKind(AccountRole::Mint)),
        Some(m) => match holding_at(l, destination) {
            None => Err(TokrError::WrongAccountKind(AccountRole::HoldingAccount)),
            Some(h) => {
                if m.mint_authority != authority {
                    Err(TokrError::WrongAuthority)
                } else if h.mint != mint {
                    Err(TokrError::WrongMint)
                } else if m.supply as int + amount as int > u64::MAX as int {
                    Err(TokrError::AmountOverflow)
                } else if m.decimals == 0 && m.supply as int + amount as int > 1 {
                    Err(TokrError::MaxSupplyExceeded)
                } else if h.amount as int + amount as int > u64::MAX as int {
                    Err(TokrError::AmountOverflow)
                } else {
                    Ok(
                        l.insert(mint, RecV::Mint(MintRecV { supply: (m.supply + amount) as u64, ..m }))
                            .insert(
                            destination,
                            RecV::Holding(HoldingRecV { amount: (h.amount + amount) as u64, ..h }),
                        ),
                    )
                }
            },
        },
    }
}

/// Token ledger, approve-delegate: the source holding's owner delegates a
/// bounded amount to the delegate.
pub open spec fn apply_approve_delegate_model(
    l: Map<Seq<u8>, RecV>,
    source: Seq<u8>,
    delegate: Seq<u8>,
    owner: Seq<u8>,
    amount: u64,
) -> Result<Map<Seq<u8>, RecV>, TokrError> {
    match holding_at(l, source) {
        None => Err(TokrError::WrongAccountKind(AccountRole::HoldingAccount)),
        Some(h) => {
            if h.owner != owner {
                Err(TokrError::WrongOwner)
            } else {
                Ok(
                    l.insert(
                        source,
                        RecV::Holding(
                            HoldingRecV { delegation: Some(DelegationV { delegate, amount }), ..h },
                        ),
                    ),
                )
            }
        },
    }
}

/// Vault program, update-external-price-record: initializes an allocated
/// price-sized account owned by the vault program, or updates an existing
/// price record.
pub open spec fn apply_update_external_price_model(
    l: Map<Seq<u8>, RecV>,
    vault_program: Seq<u8>,
    account: Seq<u8>,
    price_per_share: u64,
    price_mint: Seq<u8>,
    allowed_to_combine: bool,
) -> Result<Map<Seq<u8>, RecV>, TokrError> {
    if raw_for(l, account, vault_program, PRICE_ACCOUNT_LEN) || price_at(l, account) is Some {
        Ok(l.insert(account, RecV::Price(PriceRecV { price_per_share, price_mint, allowed_to_combine })))
    } else {
        Err(TokrError::WrongAccountKind(AccountRole::ExternalPricing))
    }
}

/// Vault program, init-vault: the vault target must be an allocated
/// vault-sized account owned by the vault program; the fractional mint
/// must exist with no supply; both treasuries must exist empty, the
/// fraction treasury holding the fractional mint; the price record must
/// exist.  The vault starts inactive with no deposits.
pub open spec fn apply_init_vault_model(
    l: Map<Seq<u8>, RecV>,
    vault_program: Seq<u8>,
    fraction_mint: Seq<u8>,
    redeem_treasury: Seq<u8>,
    fraction_treasury: Seq<u8>,
    vault: Seq<u8>,
    vault_authority: Seq<u8>,
    pricing_lookup: Seq<u8>,
    allow_further_share_creation: bool,
) -> Result<Map<Seq<u8>, RecV>, TokrError> {
    if !raw_for(l, vault, vault_program, VAULT_ACCOUNT_LEN) {
        Err(TokrError::WrongAccountKind(AccountRole::Vault))
    } else {
        match mint_at(l, fraction_mint) {
            None => Err(TokrError::WrongAccountKind(AccountRole::FractionMint)),
            Some(fm) => {
                if fm.supply != 0 {
                    Err(TokrError::WrongAccountKind(AccountRole::FractionMint))
                } else {
                    match (holding_at(l, redeem_treasury), holding_at(l, fraction_treasury)) {
                        (Some(rt), Some(ft)) => {
                            if rt.amount != 0 || ft.amount != 0 {
                                Err(TokrError::WrongAccountKind(AccountRole::RedeemTreasury))
                            } else if ft.mint != fraction_mint {
                                Err(TokrError::WrongMint)
                            } else if price_at(l, pricing_lookup) is None {
                                Err(TokrError::WrongAccountKind(AccountRole::ExternalPricing))
                            } else {
                                Ok(
                                    l.insert(
                                        vault,
                                        RecV::Vault(
                                            VaultRecV {
                                                state: VaultState::Inactive,
                                                authority: vault_authority,
                                                fraction_mint,
                                                redeem_treasury,
                                                fraction_treasury,
                                                pricing_lookup,
                                                allow_further_share_creation,
                                                token_type_count: 0,
                                            },
                                        ),
                                    ),
                                )
                            }
                        },
                        (None, _) => Err(TokrError::WrongAccountKind(AccountRole::RedeemTreasury)),
                        (_, None) => Err(TokrError::WrongAccountKind(AccountRole::FractionTreasury)),
                    }
                }
            },
        }
    }
}

/// Vault program, add-token-to-inactive-vault: rejected unless the vault
/// is still inactive and the call is made by its authority; moves the
/// delegated amount from the source holding into the store and records a
/// new safety deposit box.
pub open spec fn apply_add_token_model(
    l: Map<Seq<u8>, RecV>,
    safety_deposit_box: Seq<u8>,
    token_account: Seq<u8>,
    store: Seq<u8>,
    vault: Seq<u8>,
    vault_authority: Seq<u8>,
    transfer_authority: Seq<u8>,
    amount: u64,
) -> Result<Map<Seq<u8>, RecV>, TokrError> {
    match vault_at(l, vault) {
        None => Err(TokrError::WrongAccountKind(AccountRole::Vault)),
        Some(v) => {
            if v.state != VaultState::Inactive {
                Err(TokrError::VaultShouldBeInactive)
            } else if v.authority != vault_authority {
                Err(TokrError::WrongAuthority)
            } else {
                match holding_at(l, token_account) {
                    None => Err(TokrError::WrongAccountKind(AccountRole::HoldingAccount)),
                    Some(h) => {
                        if token_account == store {
                            Err(TokrError::WrongAccountKind(AccountRole::TokenStore))
                        } else {
                            match h.delegation {
                                None => Err(TokrError::MissingDelegate),
                                Some(d) => {
                                    if d.delegate != transfer_authority || d.amount < amount {
                                        Err(TokrError::MissingDelegate)
                                    } else if h.amount < amount {
                                        Err(TokrError::InsufficientBalance)
                                    } else {
                                        match holding_at(l, store) {
                                            None => Err(
                                                TokrError::WrongAccountKind(AccountRole::TokenStore),
                                            ),
                                            Some(s) => {
                                                if s.mint != h.mint {
                                                    Err(TokrError::WrongMint)
                                                } else if l.contains_key(safety_deposit_box) {
                                                    Err(TokrError::AccountInUse)
                                                } else if s.amount as int + amount as int
                                                    > u64::MAX as int {
                                                    Err(TokrError::AmountOverflow)
                                                } else if v.token_type_count == u8::MAX {
                                                    Err(TokrError::AmountOverflow)
                                                } else {
                                                    Ok(
                                                        l.insert(
                                                            token_account,
                                                            RecV::Holding(
                                                                HoldingRecV {
                                                                    amount: (h.amount - amount) as u64,
                                                                    delegation: if d.amount == amount {
                                                                        None
                                                                    } else {
                                                                        Some(
                                                                            DelegationV {
                                                                                delegate: d.delegate,
                                                                                amount: (d.amount
                                                                                    - amount) as u64,
                                                                            },
                                                                        )
                                                                    },
                                                                    ..h
                                                                },
                                                            ),
                                                        ).insert(
                                                            store,
                                                            RecV::Holding(
                                                                HoldingRecV {
                                                                    amount: (s.amount + amount) as u64,
                                                                    ..s
                                                                },
                                                            ),
                                                        ).insert(
                                                            vault,
                                                            RecV::Vault(
                                                                VaultRecV {
                                                                    token_type_count: (
                                                                    v.token_type_count + 1) as u8,
                                                                    ..v
                                                                },
                                                            ),
                                                        ).insert(
                                                            safety_deposit_box,
                                                            RecV::DepositBox(
                                                                DepositBoxRecV {
                                                                    vault,
                                                                    token_mint: h.mint,
                                                                    store,
                                                                    order: v.token_type_count,
                                                                },
                                                            ),
                                                        ),
                                                    )
                                                }
                                            },
                                        }
                                    }
                                },
                            }
                        }
                    },
                }
            }
        },
    }
}

/// Vault program, activate-vault: rejected unless the vault is still
/// inactive and the call is made by its authority; transitions the vault
/// to active and mints the initial share supply into the fraction
/// treasury.
pub open spec fn apply_activate_vault_model(
    l: Map<Seq<u8>, RecV>,
    vault: Seq<u8>,
    fraction_mint: Seq<u8>,
    fraction_treasury: Seq<u8>,
    vault_authority: Seq<u8>,
    number_of_shares: u64,
) -> Result<Map<Seq<u8>, RecV>, TokrError> {
    match vault_at(l, vault) {
        None => Err(TokrError::WrongAccountKind(AccountRole::Vault)),
        Some(v) => {
            if v.state != VaultState::Inactive {
                Err(TokrError::VaultShouldBeInactive)
            } else if v.authority != vault_authority {
                Err(TokrError::WrongAuthority)
            } else if fraction_mint != v.fraction_mint || fraction_treasury != v.fraction_treasury {
                Err(TokrError::WrongMint)
            } else {
                match (mint_at(l, fraction_mint), holding_at(l, fraction_treasury)) {
                    (Some(fm), Some(ft)) => {
                        if ft.mint != fraction_mint {
                            Err(TokrError::WrongMint)
                        } else if fm.supply as int + number_of_shares as int > u64::MAX as int
                            || ft.amount as int + number_of_shares as int > u64::MAX as int {
                            Err(TokrError::AmountOverflow)
                        } else {
                            Ok(
                                l.insert(vault, RecV::Vault(VaultRecV { state: VaultState::Active, ..v }))
                                    .insert(
                                    fraction_mint,
                                    RecV::Mint(
                                        MintRecV { supply: (fm.supply + number_of_shares) as u64, ..fm },
                                    ),
                                ).insert(
                                    fraction_treasury,
                                    RecV::Holding(
                                        HoldingRecV {
                                            amount: (ft.amount + number_of_shares) as u64,
                                            ..ft
                                        },
                                    ),
                                ),
                            )
                        }
                    },
                    (None, _) => Err(TokrError::WrongAccountKind(AccountRole::FractionMint)),
                    (_, None) => Err(TokrError::WrongAccountKind(AccountRole::FractionTreasury)),
                }
            }
        },
    }
}

/// Vault program, mint-additional-shares: rejected unless the vault is
/// active and was initialized with further issuance allowed.
pub open spec fn apply_mint_shares_model(
    l: Map<Seq<u8>, RecV>,
    fraction_treasury: Seq<u8>,
    fraction_mint: Seq<u8>,
    vault: Seq<u8>,
    vault_authority: Seq<u8>,
    number_of_shares: u64,
) -> Result<Map<Seq<u8>, RecV>, TokrError> {
    match vault_at(l, vault) {
        None => Err(TokrError::WrongAccountKind(AccountRole::Vault)),
        Some(v) => {
            if v.state != VaultState::Active {
                Err(TokrError::VaultShouldBeActive)
            } else if !v.allow_further_share_creation {
                Err(TokrError::SharesIssuanceForbidden)
            } else if v.authority != vault_authority {
                Err(TokrError::WrongAuthority)
            } else if fraction_mint != v.fraction_mint || fraction_treasury != v.fraction_treasury {
                Err(TokrError::WrongMint)
            } else {
                match (mint_at(l, fraction_mint), holding_at(l, fraction_treasury)) {
                    (Some(fm), Some(ft)) => {
                        if ft.mint != fraction_mint {
                            Err(TokrError::WrongMint)
                        } else if fm.supply as int + number_of_shares as int > u64::MAX as int
                            || ft.amount as int + number_of_shares as int > u64::MAX as int {
                            Err(TokrError::AmountOverflow)
                        } else {
                            Ok(
                                l.insert(
                                    fraction_mint,
                                    RecV::Mint(
                                        MintRecV { supply: (fm.supply + number_of_shares) as u64, ..fm },
                                    ),
                                ).insert(
                                    fraction_treasury,
                                    RecV::Holding(
                                        HoldingRecV {
                                            amount: (ft.amount + number_of_shares) as u64,
                                            ..ft
                                        },
                                    ),
                                ),
                            )
                        }
                    },
                    (None, _) => Err(TokrError::WrongAccountKind(AccountRole::FractionMint)),
                    (_, None) => Err(TokrError::WrongAccountKind(AccountRole::FractionTreasury)),
                }
            }
        },
    }
}

/// Vault program, withdraw-shares: rejected unless the vault is active;
/// moves shares from the fraction treasury to an existing destination
/// holding of the same mint.  A withdrawal into the treasury itself
/// leaves the ledger unchanged.
pub open spec fn apply_withdraw_shares_model(
    l: Map<Seq<u8>, RecV>,
    destination: Seq<u8>,
    fraction_treasury: Seq<u8>,
    vault: Seq<u8>,
    vault_authority: Seq<u8>,
    number_of_shares: u64,
) -> Result<Map<Seq<u8>, RecV>, TokrError> {
    match vault_at(l, vault) {
        None => Err(TokrError::WrongAccountKind(AccountRole::Vault)),
        Some(v) => {
            if v.state != VaultState::Active {
                Err(TokrError::VaultShouldBeActive)
            } else if v.authority != vault_authority {
                Err(TokrError::WrongAuthority)
            } else if fraction_treasury != v.fraction_treasury {
                Err(TokrError::WrongAccountKind(AccountRole::FractionTreasury))
            } else {
                match (holding_at(l, fraction_treasury), holding_at(l, destination)) {
                    (Some(ft), Some(d)) => {
                        if d.mint != ft.mint {
                            Err(TokrError::WrongMint)
                        } else if ft.amount < number_of_shares {
                            Err(TokrError::InsufficientTreasury)
                        } else if destination == fraction_treasury {
                            Ok(l)
                        } else if d.amount as int + number_of_shares as int > u64::MAX as int {
                            Err(TokrError::AmountOverflow)
                        } else {
                            Ok(
                                l.insert(
                                    fraction_treasury,
                                    RecV::Holding(
                                        HoldingRecV {
                                            amount: (ft.amount - number_of_shares) as u64,
                                            ..ft
                                        },
                                    ),
                                ).insert(
                                    destination,
                                    RecV::Holding(
                                        HoldingRecV {
                                            amount: (d.amount + number_of_shares) as u64,
                                            ..d
                                        },
                                    ),
                                ),
                            )
                        }
                    },
                    (None, _) => Err(TokrError::WrongAccountKind(AccountRole::FractionTreasury)),
                    (_, None) => Err(TokrError::WrongAccountKind(AccountRole::DestinationHolding)),
                }
            }
        },
    }
}

/// The meaning of one call.
pub open spec fn apply_model(l: Map<Seq<u8>, RecV>, c: CallV) -> Result<
    Map<Seq<u8>, RecV>,
    TokrError,
> {
    match c {
        CallV::CreateAccount { payer, new_address, lamports, space, owner } =>
            apply_create_account_model(l, payer, new_address, lamports, space, owner),
        CallV::InitializeMint { mint, mint_authority, freeze_authority, decimals } =>
            apply_initialize_mint_model(l, mint, mint_authority, freeze_authority, decimals),
        CallV::InitializeHolding { account, mint, owner } => apply_initialize_holding_model(
            l,
            account,
            mint,
            owner,
        ),
        CallV::CreateAssociatedHolding { payer, wallet, mint } => apply_create_associated_model(
            l,
            payer,
            wallet,
            mint,
        ),
        CallV::AttachMetadata {
            metadata_program,
            metadata_account,
            mint,
            mint_authority,
            payer,
            update_authority,
            name,
            symbol,
            uri,
            creator,
        } => apply_attach_metadata_model(
            l,
            metadata_program,
            metadata_account,
            mint,
            mint_authority,
            update_authority,
            name,
            symbol,
            uri,
            creator,
        ),
        CallV::MintUnits { mint, destination, authority, amount } => apply_mint_units_model(
            l,
            mint,
            destination,
            authority,
            amount,
        ),
        CallV::ApproveDelegate { source, delegate, owner, amount } => apply_approve_delegate_model(
            l,
            source,
            delegate,
            owner,
            amount,
        ),
        CallV::UpdateExternalPrice {
            vault_program,
            account,
            price_per_share,
            price_mint,
            allowed_to_combine,
        } => apply_update_external_price_model(
            l,
            vault_program,
            account,
            price_per_share,
            price_mint,
            allowed_to_combine,
        ),
        CallV::InitVault {
            vault_program,
            fraction_mint,
            redeem_treasury,
            fraction_treasury,
            vault,
            vault_authority,
            pricing_lookup,
            allow_further_share_creation,
        } => apply_init_vault_model(
            l,
            vault_program,
            fraction_mint,
            redeem_treasury,
            fraction_treasury,
            vault,
            vault_authority,
            pricing_lookup,
            allow_further_share_creation,
        ),
        CallV::AddTokenToVault {
            safety_deposit_box,
            token_account,
            store,
            vault,
            vault_authority,
            payer,
            transfer_authority,
            amount,
        } => apply_add_token_model(
            l,
            safety_deposit_box,
            token_account,
            store,
            vault,
            vault_authority,
            transfer_authority,
            amount,
        ),
        CallV::ActivateVault {
            vault,
            fraction_mint,
            fraction_treasury,
            fraction_mint_authority,
            vault_authority,
            number_of_shares,
        } => apply_activate_vault_model(
            l,
            vault,
            fraction_mint,
            fraction_treasury,
            vault_authority,
            number_of_shares,
        ),
        CallV::MintShares {
            fraction_treasury,
            fraction_mint,
            vault,
            fraction_mint_authority,
            vault_authority,
            number_of_shares,
        } => apply_mint_shares_model(
            l,
            fraction_treasury,
            fraction_mint,
            vault,
            vault_authority,
            number_of_shares,
        ),
        CallV::WithdrawShares {
            destination,
            fraction_treasury,
            vault,
            transfer_authority,
            vault_authority,
            number_of_shares,
        } => apply_withdraw_shares_model(
            l,
            destination,
            fraction_treasury,
            vault,
            vault_authority,
            number_of_shares,
        ),
    }
}

/// The meaning of a planned sequence: calls apply in order; the first
/// error aborts the whole run.
pub open spec fn run_model(l: Map<Seq<u8>, RecV>, calls: Seq<PlannedCallV>) -> Result<
    Map<Seq<u8>, RecV>,
    TokrError,
> decreases calls.len() {
    if calls.len() == 0 {
        Ok(l)
    } else {
        match apply_model(l, calls[0].call) {
            Ok(l2) => run_model(l2, calls.skip(1)),
            Err(e) => Err(e),
        }
    }
}

/// The mint record at `a` as a copied value, if any.
pub fn get_mint(l: &Ledger, a: &Address) -> (r: Option<MintRecord>)
    ensures
        match r {
            Some(m) => mint_at(l@, a@) == Some(m@),
            None => mint_at(l@, a@) is None,
        },
{
    match l.get(a) {
        Some(AccountRecord::Mint(m)) => Some(*m),
        _ => None,
    }
}

/// The holding record at `a` as a copied value, if any.
pub fn get_holding(l: &Ledger, a: &Address) -> (r: Option<HoldingRecord>)
    ensures
        match r {
            Some(h) => holding_at(l@, a@) == Some(h@),
            None => holding_at(l@, a@) is None,
        },
{
    match l.get(a) {
        Some(AccountRecord::Holding(h)) => Some(*h),
        _ => None,
    }
}

/// The vault record at `a` as a copied value, if any.
pub fn get_vault(l: &Ledger, a: &Address) -> (r: Option<VaultRecord>)
    ensures
        match r {
            Some(v) => vault_at(l@, a@) == Some(v@),
            None => vault_at(l@, a@) is None,
        },
{
    match l.get(a) {
        Some(AccountRecord::Vault(v)) => Some(*v),
        _ => None,
    }
}

/// Whether `a` holds a price record.
pub fn is_price(l: &Ledger, a: &Address) -> (r: bool)
    ensures
        r == (price_at(l@, a@) is Some),
{
    match l.get(a) {
        Some(AccountRecord::Price(_)) => true,
        _ => false,
    }
}

/// Whether `a` holds an allocated, uninitialized account owned by `owner`
/// and sized `space`.
pub fn is_raw_for(l: &Ledger, a: &Address, owner: &Address, space: u64) -> (r: bool)
    ensures
        r == raw_for(l@, a@, owner@, space),
{
    match l.get(a) {
        Some(AccountRecord::Raw(x)) => x.space == space && address_eq(&x.owner, owner),
        _ => false,
    }
}

/// Apply one call to the ledger model.  On success the ledger holds
/// exactly what the call's model says; on failure the error is the
/// model's and the ledger is unchanged.
pub fn apply_call(l: &mut Ledger, c: &Call) -> (r: Result<(), TokrError>)
    ensures
        match r {
            Ok(_) => apply_model(old(l)@, c@) == Ok::<Map<Seq<u8>, RecV>, TokrError>(final(l)@),
            Err(e) => apply_model(old(l)@, c@) == Err::<Map<Seq<u8>, RecV>, TokrError>(e)
                && final(l)@ == old(l)@,
        },
{
    match c {
        Call::CreateAccount { payer, new_address, lamports, space, owner } => {
            if *space > MAX_ACCOUNT_SPACE {
                return Err(TokrError::AccountSpaceTooLarge);
            }
            if l.contains(new_address) {
                return Err(TokrError::AccountInUse);
            }
            let min = rent_exempt_minimum(*space);
            if *lamports < min {
                return Err(TokrError::InsufficientFunding);
            }
            l.set(*new_address, AccountRecord::Raw(RawRecord { space: *space, owner: *owner }));
            Ok(())
        },
        Call::InitializeMint { mint, mint_authority, freeze_authority, decimals } => {
            let token_program = token_program_id();
            if !is_raw_for(l, mint, &token_program, MINT_ACCOUNT_LEN) {
                return Err(TokrError::WrongAccountKind(AccountRole::Mint));
            }
            l.set(
                *mint,
                AccountRecord::Mint(
                    MintRecord {
                        supply: 0,
                        decimals: *decimals,
                        mint_authority: *mint_authority,
                        freeze_authority: *freeze_authority,
                    },
                ),
            );
            Ok(())
        },
        Call::InitializeHolding { account, mint, owner } => {
            let token_program = token_program_id();
            if !is_raw_for(l, account, &token_program, HOLDING_ACCOUNT_LEN) {
                return Err(TokrError::WrongAccountKind(AccountRole::HoldingAccount));
            }
            if get_mint(l, mint).is_none() {
                return Err(TokrError::WrongAccountKind(AccountRole::Mint));
            }
            l.set(
                *account,
                AccountRecord::Holding(
                    HoldingRecord { mint: *mint, owner: *owner, amount: 0, delegation: None },
                ),
            );
            Ok(())
        },
        Call::CreateAssociatedHolding { payer, wallet, mint } => {
            if get_mint(l, mint).is_none() {
                return Err(TokrError::WrongAccountKind(AccountRole::Mint));
            }
            let ata = associated_holding_address(wallet, mint);
            if l.contains(&ata) {
                return Err(TokrError::AccountInUse);
            }
            l.set(
                ata,
                AccountRecord::Holding(
                    HoldingRecord { mint: *mint, owner: *wallet, amount: 0, delegation: None },
                ),
            );
            Ok(())
        },
        Call::AttachMetadata {
            metadata_program,
            metadata_account,
            mint,
            mint_authority,
            payer,
            update_authority,
            name,
            symbol,
            uri,
            creator,
        } => {
            let mut seeds: Vec<Vec<u8>> = Vec::new();
            seeds.push(metadata_prefix());
            seeds.push(address_bytes(metadata_program));
            seeds.push(address_bytes(mint));
            proof {
                assert(seeds_view(seeds@) =~= seq![
                    metadata_prefix_bytes(),
                    metadata_program@,
                    mint@,
                ]);
            }
            let kb = match find_derived_address(&seeds, metadata_program) {
                Some(kb) => kb,
                None => {
                    return Err(TokrError::DerivationUnavailable(AccountRole::MetadataAccount));
                },
            };
            if !address_eq(&kb.0, metadata_account) {
                return Err(TokrError::DerivationMismatch(AccountRole::MetadataAccount));
            }
            let m = match get_mint(l, mint) {
                Some(m) => m,
                None => { return Err(TokrError::WrongAccountKind(AccountRole::Mint)) },
            };
            if !address_eq(&m.mint_authority, mint_authority) {
                return Err(TokrError::WrongAuthority);
            }
            if l.contains(metadata_account) {
                return Err(TokrError::AccountInUse);
            }
            l.set(
                *metadata_account,
                AccountRecord::Metadata(
                    MetadataRecord {
                        mint: *mint,
                        update_authority: *update_authority,
                        name: name.as_str().to_owned(),
                        symbol: symbol.as_str().to_owned(),
                        uri: uri.as_str().to_owned(),
                        creator: *creator,
                        creator_verified: true,
                        creator_share: 100,
                    },
                ),
            );
            Ok(())
        },
        Call::MintUnits { mint, destination, authority, amount } => {
            let m = match get_mint(l, mint) {
                Some(m) => m,
                None => { return Err(TokrError::WrongAccountKind(AccountRole::Mint)) },
            };
            let h = match get_holding(l, destination) {
                Some(h) => h,
                None => { return Err(TokrError::WrongAccountKind(AccountRole::HoldingAccount)) },
            };
            if !address_eq(&m.mint_authority, authority) {
                return Err(TokrError::WrongAuthority);
            }
            if !address_eq(&h.mint, mint) {
                return Err(TokrError::WrongMint);
            }
            if m.supply > u64::MAX - *amount {
                return Err(TokrError::AmountOverflow);
            }
            if m.decimals == 0 && m.supply + *amount > 1 {
                return Err(TokrError::MaxSupplyExceeded);
            }
            if h.amount > u64::MAX - *amount {
                return Err(TokrError::AmountOverflow);
            }
            l.set(
                *mint,
                AccountRecord::Mint(MintRecord { supply: m.supply + *amount, ..m }),
            );
            l.set(
                *destination,
                AccountRecord::Holding(HoldingRecord { amount: h.amount + *amount, ..h }),
            );
            Ok(())
        },
        Call::ApproveDelegate { source, delegate, owner, amount } => {
            let h = match get_holding(l, source) {
                Some(h) => h,
                None => { return Err(TokrError::WrongAccountKind(AccountRole::HoldingAccount)) },
            };
            if !address_eq(&h.owner, owner) {
                return Err(TokrError::WrongOwner);
            }
            l.set(
                *source,
                AccountRecord::Holding(
                    HoldingRecord {
                        delegation: Some(Delegation { delegate: *delegate, amount: *amount }),
                        ..h
                    },
                ),
            );
            Ok(())
        },
        Call::UpdateExternalPrice {
            vault_program,
            account,
            price_per_share,
            price_mint,
            allowed_to_combine,
        } => {
            let raw_ok = is_raw_for(l, account, vault_program, PRICE_ACCOUNT_LEN);
            if !(raw_ok || is_price(l, account)) {
                return Err(TokrError::WrongAccountKind(AccountRole::ExternalPricing));
            }
            l.set(
                *account,
                AccountRecord::Price(
                    PriceRecord {
                        price_per_share: *price_per_share,
                        price_mint: *price_mint,
                        allowed_to_combine: *allowed_to_combine,
                    },
                ),
            );
            Ok(())
        },
        Call::InitVault {
            vault_program,
            fraction_mint,
            redeem_treasury,
            fraction_treasury,
            vault,
            vault_authority,
            pricing_lookup,
            allow_further_share_creation,
        } => {
            if !is_raw_for(l, vault, vault_program, VAULT_ACCOUNT_LEN) {
                return Err(TokrError::WrongAccountKind(AccountRole::Vault));
            }
            let fm = match get_mint(l, fraction_mint) {
                Some(m) => m,
                None => { return Err(TokrError::WrongAccountKind(AccountRole::FractionMint)) },
            };
            if fm.supply != 0 {
                return Err(TokrError::WrongAccountKind(AccountRole::FractionMint));
            }
            let rt = match get_holding(l, redeem_treasury) {
                Some(h) => h,
                None => { return Err(TokrError::WrongAccountKind(AccountRole::RedeemTreasury)) },
            };
            let ft = match get_holding(l, fraction_treasury) {
                Some(h) => h,
                None => { return Err(TokrError::WrongAccountKind(AccountRole::FractionTreasury)) },
            };
            if rt.amount != 0 || ft.amount != 0 {
                return Err(TokrError::WrongAccountKind(AccountRole::RedeemTreasury));
            }
            if !address_eq(&ft.mint, fraction_mint) {
                return Err(TokrError::WrongMint);
            }
            if !is_price(l, pricing_lookup) {
                return Err(TokrError::WrongAccountKind(AccountRole::ExternalPricing));
            }
            l.set(
                *vault,
                AccountRecord::Vault(
                    VaultRecord {
                        state: VaultState::Inactive,
                        authority: *vault_authority,
                        fraction_mint: *fraction_mint,
                        redeem_treasury: *redeem_treasury,
                        fraction_treasury: *fraction_treasury,
                        pricing_lookup: *pricing_lookup,
                        allow_further_share_creation: *allow_further_share_creation,
                        token_type_count: 0,
                    },
                ),
            );
            Ok(())
        },
        Call::AddTokenToVault {
            safety_deposit_box,
            token_account,
            store,
            vault,
            vault_authority,
            payer,
            transfer_authority,
            amount,
        } => {
            let v = match get_vault(l, vault) {
                Some(v) => v,
                None => { return Err(TokrError::WrongAccountKind(AccountRole::Vault)) },
            };
            if v.state != VaultState::Inactive {
                return Err(TokrError::VaultShouldBeInactive);
            }
            if !address_eq(&v.authority, vault_authority) {
                return Err(TokrError::WrongAuthority);
            }
            let h = match get_holding(l, token_account) {
                Some(h) => h,
                None => { return Err(TokrError::WrongAccountKind(AccountRole::HoldingAccount)) },
            };
            if address_eq(token_account, store) {
                return Err(TokrError::WrongAccountKind(AccountRole::TokenStore));
            }
            let d = match h.delegation {
                Some(d) => d,
                None => { return Err(TokrError::MissingDelegate) },
            };
            if !address_eq(&d.delegate, transfer_authority) || d.amount < *amount {
                return Err(TokrError::MissingDelegate);
            }
            if h.amount < *amount {
                return Err(TokrError::InsufficientBalance);
            }
            let s = match get_holding(l, store) {
                Some(s) => s,
                None => { return Err(TokrError::WrongAccountKind(AccountRole::TokenStore)) },
            };
            if !address_eq(&s.mint, &h.mint) {
                return Err(TokrError::WrongMint);
            }
            if l.contains(safety_deposit_box) {
                return Err(TokrError::AccountInUse);
            }
            if s.amount > u64::MAX - *amount {
                return Err(TokrError::AmountOverflow);
            }
            if v.token_type_count == u8::MAX {
                return Err(TokrError::AmountOverflow);
            }
            let new_delegation = if d.amount == *amount {
                None
            } else {
                Some(Delegation { delegate: d.delegate, amount: d.amount - *amount })
            };
            l.set(
                *token_account,
                AccountRecord::Holding(
                    HoldingRecord { amount: h.amount - *amount, delegation: new_delegation, ..h },
                ),
            );
            l.set(
                *store,
                AccountRecord::Holding(HoldingRecord { amount: s.amount + *amount, ..s }),
            );
            l.set(
                *vault,
                AccountRecord::Vault(
                    VaultRecord { token_type_count: v.token_type_count + 1, ..v },
                ),
            );
            l.set(
                *safety_deposit_box,
                AccountRecord::DepositBox(
                    DepositBoxRecord {
                        vault: *vault,
                        token_mint: h.mint,
                        store: *store,
                        order: v.token_type_count,
                    },
                ),
            );
            Ok(())
        },
        Call::ActivateVault {
            vault,
            fraction_mint,
            fraction_treasury,
            fraction_mint_authority,
            vault_authority,
            number_of_shares,
        } => {
            let v = match get_vault(l, vault) {
                Some(v) => v,
                None => { return Err(TokrError::WrongAccountKind(AccountRole::Vault)) },
            };
            if v.state != VaultState::Inactive {
                return Err(TokrError::VaultShouldBeInactive);
            }
            if !address_eq(&v.authority, vault_authority) {
                return Err(TokrError::WrongAuthority);
            }
            if !address_eq(fraction_mint, &v.fraction_mint)
                || !address_eq(fraction_treasury, &v.fraction_treasury) {
                return Err(TokrError::WrongMint);
            }
            let fm = match get_mint(l, fraction_mint) {
                Some(m) => m,
                None => { return Err(TokrError::WrongAccountKind(AccountRole::FractionMint)) },
            };
            let ft = match get_holding(l, fraction_treasury) {
                Some(h) => h,
                None => { return Err(TokrError::WrongAccountKind(AccountRole::FractionTreasury)) },
            };
            if !address_eq(&ft.mint, fraction_mint) {
                return Err(TokrError::WrongMint);
            }
            if fm.supply > u64::MAX - *number_of_shares || ft.amount > u64::MAX
                - *number_of_shares {
                return Err(TokrError::AmountOverflow);
            }
            l.set(
                *vault,
                AccountRecord::Vault(VaultRecord { state: VaultState::Active, ..v }),
            );
            l.set(
                *fraction_mint,
                AccountRecord::Mint(MintRecord { supply: fm.supply + *number_of_shares, ..fm }),
            );
            l.set(
                *fraction_treasury,
                AccountRecord::Holding(
                    HoldingRecord { amount: ft.amount + *number_of_shares, ..ft },
                ),
            );
            Ok(())
        },
        Call::MintShares {
            fraction_treasury,
            fraction_mint,
            vault,
            fraction_mint_authority,
            vault_authority,
            number_of_shares,
        } => {
            let v = match get_vault(l, vault) {
                Some(v) => v,
                None => { return Err(TokrError::WrongAccountKind(AccountRole::Vault)) },
            };
            if v.state != VaultState::Active {
                return Err(TokrError::VaultShouldBeActive);
            }
            if !v.allow_further_share_creation {
                return Err(TokrError::SharesIssuanceForbidden);
            }
            if !address_eq(&v.authority, vault_authority) {
                return Err(TokrError::WrongAuthority);
            }
            if !address_eq(fraction_mint, &v.fraction_mint)
                || !address_eq(fraction_treasury, &v.fraction_treasury) {
                return Err(TokrError::WrongMint);
            }
            let fm = match get_mint(l, fraction_mint) {
                Some(m) => m,
                None => { return Err(TokrError::WrongAccountKind(AccountRole::FractionMint)) },
            };
            let ft = match get_holding(l, fraction_treasury) {
                Some(h) => h,
                None => { return Err(TokrError::WrongAccountKind(AccountRole::FractionTreasury)) },
            };
            if !address_eq(&ft.mint, fraction_mint) {
                return Err(TokrError::WrongMint);
            }
            if fm.supply > u64::MAX - *number_of_shares || ft.amount > u64::MAX
                - *number_of_shares {
                return Err(TokrError::AmountOverflow);
            }
            l.set(
                *fraction_mint,
                AccountRecord::Mint(MintRecord { supply: fm.supply + *number_of_shares, ..fm }),
            );
            l.set(
                *fraction_treasury,
                AccountRecord::Holding(
                    HoldingRecord { amount: ft.amount + *number_of_shares, ..ft },
                ),
            );
            Ok(())
        },
        Call::WithdrawShares {
            destination,
            fraction_treasury,
            vault,
            transfer_authority,
            vault_authority,
            number_of_shares,
        } => {
            let v = match get_vault(l, vault) {
                Some(v) => v,
                None => { return Err(TokrError::WrongAccountKind(AccountRole::Vault)) },
            };
            if v.state != VaultState::Active {
                return Err(TokrError::VaultShouldBeActive);
            }
            if !address_eq(&v.authority, vault_authority) {
                return Err(TokrError::WrongAuthority);
            }
            if !address_eq(fraction_treasury, &v.fraction_treasury) {
                return Err(TokrError::WrongAccountKind(AccountRole::FractionTreasury));
            }
            let ft = match get_holding(l, fraction_treasury) {
                Some(h) => h,
                None => { return Err(TokrError::WrongAccountKind(AccountRole::FractionTreasury)) },
            };
            let d = match get_holding(l, destination) {
                Some(h) => h,
                None => {
                    return Err(TokrError::WrongAccountKind(AccountRole::DestinationHolding));
                },
            };
            if !address_eq(&d.mint, &ft.mint) {
                return Err(TokrError::WrongMint);
            }
            if ft.amount < *number_of_shares {
                return Err(TokrError::InsufficientTreasury);
            }
            if address_eq(destination, fraction_treasury) {
                return Ok(());
            }
            if d.amount > u64::MAX - *number_of_shares {
                return Err(TokrError::AmountOverflow);
            }
            l.set(
                *fraction_treasury,
                AccountRecord::Holding(
                    HoldingRecord { amount: ft.amount - *number_of_shares, ..ft },
                ),
            );
            l.set(
                *destination,
                AccountRecord::Holding(
                    HoldingRecord { amount: d.amount + *number_of_shares, ..d },
                ),
            );
            Ok(())
        },
    }
}

/// Run a planned call sequence against the ledger model.  On success the
/// ledger holds exactly what the sequence's model says; on failure the
/// error is the model's, and the caller discards the partially updated
/// scratch ledger.
pub fn run_calls(l: &mut Ledger, calls: &Vec<PlannedCall>) -> (r: Result<(), TokrError>)
    ensures
        match r {
            Ok(_) => run_model(old(l)@, calls_view(calls@)) == Ok::<Map<Seq<u8>, RecV>, TokrError>(
                final(l)@,
            ),
            Err(e) => run_model(old(l)@, calls_view(calls@)) == Err::<Map<Seq<u8>, RecV>, TokrError>(
                e,
            ),
        },
{
    let ghost all = calls_view(calls@);
    proof {
        assert(all.skip(0) =~= all);
    }
    let mut i: usize = 0;
    while i < calls.len()
        invariant
            0 <= i <= calls.len(),
            all == calls_view(calls@),
            run_model(old(l)@, all) == run_model(l@, all.skip(i as int)),
        decreases calls.len() - i,
    {
        let ghost before = l@;
        match apply_call(l, &calls[i].call) {
            Ok(_) => {},
            Err(e) => {
                proof {
                    assert(all.skip(i as int)[0] == all[i as int]);
                    assert(all[i as int].call == calls@[i as int]@.call);
                }
                return Err(e);
            },
        }
        proof {
            assert(all.skip(i as int)[0] == all[i as int]);
            assert(all[i as int].call == calls@[i as int]@.call);
            assert(all.skip(i as int).skip(1) =~= all.skip(i as int + 1));
        }
        i = i + 1;
    }
    proof {
        assert(all.skip(i as int) =~= Seq::<PlannedCallV>::empty());
    }
    Ok(())
}

} // verus!
