//! Adapters to the collaborating programs: thin trusted wrappers that
//! build each cross-contract call's wire payload, and the verified
//! dispatch from a planned call to its payload.

use vstd::prelude::*;
use vstd::pervasive::unreached;
use borsh::BorshSerialize;
use solana_program::instruction::Instruction;
use crate::accounts::AccountRef;
use crate::calls::Call;
use crate::codec::u64_le;
use crate::keys::Address;

verus! {

#[verifier::external_type_specification]
#[verifier::external_body]
pub struct ExInstruction(Instruction);

/// The host's account-allocation program address, all zero bytes.
pub open spec fn system_program_id_bytes() -> Seq<u8> {
    Seq::new(32, |i: int| 0u8)
}

/// Relies on `solana_program::system_program::id()`: the well-known
/// all-zeros address.
#[verifier::external_body]
pub fn system_program_id() -> (r: Address)
    ensures
        r@ == system_program_id_bytes(),
{
    Address(solana_program::system_program::id().to_bytes())
}

/// The rent-schedule service account's address.
pub open spec fn rent_sysvar_id_bytes() -> Seq<u8> {
    seq![
        6u8, 167, 213, 23, 25, 44, 92, 81, 33, 140, 201, 76, 61, 74, 241, 127, 88, 218, 238, 8,
        155, 161, 253, 68, 227, 219, 217, 138, 0, 0, 0, 0,
    ]
}

/// Relies on `solana_program::sysvar::rent::id()`: the rent schedule's
/// well-known address, declared in its source in base-58 form as
/// `SysvarRent111111111111111111111111111111111` and stated here as its
/// raw bytes.
#[verifier::external_body]
pub fn rent_sysvar_id() -> (r: Address)
    ensures
        r@ == rent_sysvar_id_bytes(),
{
    Address(solana_program::sysvar::rent::id().to_bytes())
}

/// Relies on `solana_program::system_instruction::create_account`, which
/// builds the host's account-allocation payload.
#[verifier::external_body]
fn build_create_account(
    payer: &Address,
    new_address: &Address,
    lamports: u64,
    space: u64,
    owner: &Address,
) -> Instruction {
    solana_program::system_instruction::create_account(
        &solana_program::pubkey::Pubkey::new_from_array(payer.0),
        &solana_program::pubkey::Pubkey::new_from_array(new_address.0),
        lamports,
        space,
        &solana_program::pubkey::Pubkey::new_from_array(owner.0),
    )
}

/// Relies on `spl_token::instruction::initialize_mint`: called with the
/// token program's own address it never fails (its only error is a wrong
/// program address).
#[verifier::external_body]
fn build_initialize_mint(
    mint: &Address,
    mint_authority: &Address,
    freeze_authority: &Option<Address>,
    decimals: u8,
) -> (r: Option<Instruction>)
    ensures
        r is Some,
{
    let freeze = freeze_authority.as_ref().map(|a| solana_program::pubkey::Pubkey::new_from_array(a.0));
    spl_token::instruction::initialize_mint(
        &spl_token::id(),
        &solana_program::pubkey::Pubkey::new_from_array(mint.0),
        &solana_program::pubkey::Pubkey::new_from_array(mint_authority.0),
        freeze.as_ref(),
        decimals,
    ).ok()
}

/// Relies on `spl_token::instruction::initialize_account`: called with
/// the token program's own address it never fails.
#[verifier::external_body]
fn build_initialize_holding(account: &Address, mint: &Address, owner: &Address) -> (r: Option<
    Instruction,
>)
    ensures
        r is Some,
{
    spl_token::instruction::initialize_account(
        &spl_token::id(),
        &solana_program::pubkey::Pubkey::new_from_array(account.0),
        &solana_program::pubkey::Pubkey::new_from_array(mint.0),
        &solana_program::pubkey::Pubkey::new_from_array(owner.0),
    ).ok()
}

/// Relies on
/// `spl_associated_token_account::instruction::create_associated_token_account`,
/// which builds the canonical holding-account creation payload.
#[verifier::external_body]
fn build_create_associated_holding(payer: &Address, wallet: &Address, mint: &Address) -> Instruction {
    spl_associated_token_account::instruction::create_associated_token_account(
        &solana_program::pubkey::Pubkey::new_from_array(payer.0),
        &solana_program::pubkey::Pubkey::new_from_array(wallet.0),
        &solana_program::pubkey::Pubkey::new_from_array(mint.0),
    )
}

/// Relies on `mpl_token_metadata::instruction::create_metadata_accounts_v2`,
/// which builds the attach-metadata payload with the given single
/// creator.
#[verifier::external_body]
#[allow(deprecated)]
fn build_attach_metadata(
    metadata_program: &Address,
    metadata_account: &Address,
    mint: &Address,
    mint_authority: &Address,
    payer: &Address,
    update_authority: &Address,
    name: &String,
    symbol: &String,
    uri: &String,
    creator: &Address,
    creator_verified: bool,
    creator_share: u8,
    seller_fee_basis_points: u16,
    is_mutable: bool,
) -> Instruction {
    let pk = solana_program::pubkey::Pubkey::new_from_array;
    let creators = vec![mpl_token_metadata::state::Creator {
        address: pk(creator.0),
        verified: creator_verified,
        share: creator_share,
    }];
    mpl_token_metadata::instruction::create_metadata_accounts_v2(
        pk(metadata_program.0), pk(metadata_account.0), pk(mint.0), pk(mint_authority.0),
        pk(payer.0), pk(update_authority.0), name.clone(), symbol.clone(), uri.clone(),
        Some(creators), seller_fee_basis_points, false, is_mutable, None, None,
    )
}

/// Relies on `spl_token::instruction::mint_to`: called with the token
/// program's own address and no multisig signers it never fails.
#[verifier::external_body]
fn build_mint_units(mint: &Address, destination: &Address, authority: &Address, amount: u64) -> (r:
    Option<Instruction>)
    ensures
        r is Some,
{
    spl_token::instruction::mint_to(
        &spl_token::id(),
        &solana_program::pubkey::Pubkey::new_from_array(mint.0),
        &solana_program::pubkey::Pubkey::new_from_array(destination.0),
        &solana_program::pubkey::Pubkey::new_from_array(authority.0),
        &[],
        amount,
    ).ok()
}

/// Relies on `spl_token::instruction::approve`: called with the token
/// program's own address and no multisig signers it never fails.
#[verifier::external_body]
fn build_approve_delegate(source: &Address, delegate: &Address, owner: &Address, amount: u64) -> (r:
    Option<Instruction>)
    ensures
        r is Some,
{
    spl_token::instruction::approve(
        &spl_token::id(),
        &solana_program::pubkey::Pubkey::new_from_array(source.0),
        &solana_program::pubkey::Pubkey::new_from_array(delegate.0),
        &solana_program::pubkey::Pubkey::new_from_array(owner.0),
        &[],
        amount,
    ).ok()
}

/// Relies on
/// `mpl_token_vault::instruction::create_update_external_price_account_instruction`.
#[verifier::external_body]
fn build_update_external_price(
    vault_program: &Address,
    account: &Address,
    price_per_share: u64,
    price_mint: &Address,
    allowed_to_combine: bool,
) -> Instruction {
    mpl_token_vault::instruction::create_update_external_price_account_instruction(
        solana_program::pubkey::Pubkey::new_from_array(vault_program.0),
        solana_program::pubkey::Pubkey::new_from_array(account.0),
        price_per_share,
        solana_program::pubkey::Pubkey::new_from_array(price_mint.0),
        allowed_to_combine,
    )
}

/// Relies on `mpl_token_vault::instruction::create_init_vault_instruction`.
#[verifier::external_body]
fn build_init_vault(
    vault_program: &Address,
    fraction_mint: &Address,
    redeem_treasury: &Address,
    fraction_treasury: &Address,
    vault: &Address,
    vault_authority: &Address,
    pricing_lookup: &Address,
    allow_further_share_creation: bool,
) -> Instruction {
    mpl_token_vault::instruction::create_init_vault_instruction(
        solana_program::pubkey::Pubkey::new_from_array(vault_program.0),
        solana_program::pubkey::Pubkey::new_from_array(fraction_mint.0),
        solana_program::pubkey::Pubkey::new_from_array(redeem_treasury.0),
        solana_program::pubkey::Pubkey::new_from_array(fraction_treasury.0),
        solana_program::pubkey::Pubkey::new_from_array(vault.0),
        solana_program::pubkey::Pubkey::new_from_array(vault_authority.0),
        solana_program::pubkey::Pubkey::new_from_array(pricing_lookup.0),
        allow_further_share_creation,
    )
}

/// Relies on `mpl_token_vault::instruction::create_activate_vault_instruction`.
#[verifier::external_body]
fn build_activate_vault(
    vault_program: &Address,
    vault: &Address,
    fraction_mint: &Address,
    fraction_treasury: &Address,
    fraction_mint_authority: &Address,
    vault_authority: &Address,
    number_of_shares: u64,
) -> Instruction {
    mpl_token_vault::instruction::create_activate_vault_instruction(
        solana_program::pubkey::Pubkey::new_from_array(vault_program.0),
        solana_program::pubkey::Pubkey::new_from_array(vault.0),
        solana_program::pubkey::Pubkey::new_from_array(fraction_mint.0),
        solana_program::pubkey::Pubkey::new_from_array(fraction_treasury.0),
        solana_program::pubkey::Pubkey::new_from_array(fraction_mint_authority.0),
        solana_program::pubkey::Pubkey::new_from_array(vault_authority.0),
        number_of_shares,
    )
}

/// Relies on `mpl_token_vault::instruction::create_mint_shares_instruction`.
#[verifier::external_body]
fn build_mint_shares(
    vault_program: &Address,
    fraction_treasury: &Address,
    fraction_mint: &Address,
    vault: &Address,
    fraction_mint_authority: &Address,
    vault_authority: &Address,
    number_of_shares: u64,
) -> Instruction {
    mpl_token_vault::instruction::create_mint_shares_instruction(
        solana_program::pubkey::Pubkey::new_from_array(vault_program.0),
        solana_program::pubkey::Pubkey::new_from_array(fraction_treasury.0),
        solana_program::pubkey::Pubkey::new_from_array(fraction_mint.0),
        solana_program::pubkey::Pubkey::new_from_array(vault.0),
        solana_program::pubkey::Pubkey::new_from_array(fraction_mint_authority.0),
        solana_program::pubkey::Pubkey::new_from_array(vault_authority.0),
        number_of_shares,
    )
}

/// Relies on `mpl_token_vault::instruction::create_withdraw_shares_instruction`.
#[verifier::external_body]
fn build_withdraw_shares(
    vault_program: &Address,
    destination: &Address,
    fraction_treasury: &Address,
    vault: &Address,
    transfer_authority: &Address,
    vault_authority: &Address,
    number_of_shares: u64,
) -> Instruction {
    mpl_token_vault::instruction::create_withdraw_shares_instruction(
        solana_program::pubkey::Pubkey::new_from_array(vault_program.0),
        solana_program::pubkey::Pubkey::new_from_array(destination.0),
        solana_program::pubkey::Pubkey::new_from_array(fraction_treasury.0),
        solana_program::pubkey::Pubkey::new_from_array(vault.0),
        solana_program::pubkey::Pubkey::new_from_array(transfer_authority.0),
        solana_program::pubkey::Pubkey::new_from_array(vault_authority.0),
        number_of_shares,
    )
}

/// Relies on borsh serialization of
/// `mpl_token_vault::instruction::VaultInstruction::AddTokenToInactiveVault`:
/// one tag byte for the enum's second variant, then the amount in
/// little-endian.
#[verifier::external_body]
fn add_token_payload(amount: u64) -> (r: Vec<u8>)
    ensures
        r@ == seq![1u8] + u64_le(amount),
{
    mpl_token_vault::instruction::VaultInstruction::AddTokenToInactiveVault(
        mpl_token_vault::instruction::AmountArgs { amount },
    ).try_to_vec().unwrap()
}

/// Relies on `solana_program::instruction::Instruction` and
/// `AccountMeta`: packs an address list and a payload into one
/// instruction value.
#[verifier::external_body]
fn make_instruction(program_id: &Address, metas: &Vec<AccountRef>, data: Vec<u8>) -> Instruction {
    let accounts = metas.iter().map(|m| solana_program::instruction::AccountMeta {
        pubkey: solana_program::pubkey::Pubkey::new_from_array(m.address.0),
        is_signer: m.is_signer,
        is_writable: m.is_writable,
    }).collect();
    Instruction {
        program_id: solana_program::pubkey::Pubkey::new_from_array(program_id.0),
        accounts,
        data,
    }
}

/// The add-token-to-inactive-vault payload, built by hand: the vault
/// program's own builder for this call orders its accounts wrongly, so
/// the account list is laid out here, with the payload bytes under an
/// exact contract.
pub fn create_add_token_to_inactive_vault_instruction2(
    program_id: Address,
    safety_deposit_box: Address,
    token_account: Address,
    store: Address,
    vault: Address,
    vault_authority: Address,
    payer: Address,
    transfer_authority: Address,
    amount: u64,
) -> Instruction {
    let spl = crate::keys::token_program_id();
    let rent = rent_sysvar_id();
    let system = system_program_id();
    let mut metas: Vec<AccountRef> = Vec::new();
    metas.push(AccountRef { address: safety_deposit_box, is_signer: false, is_writable: true });
    metas.push(AccountRef { address: token_account, is_signer: false, is_writable: true });
    metas.push(AccountRef { address: store, is_signer: false, is_writable: true });
    metas.push(AccountRef { address: vault, is_signer: false, is_writable: true });
    metas.push(AccountRef { address: vault_authority, is_signer: true, is_writable: true });
    metas.push(AccountRef { address: payer, is_signer: true, is_writable: true });
    metas.push(AccountRef { address: transfer_authority, is_signer: true, is_writable: false });
    metas.push(AccountRef { address: spl, is_signer: false, is_writable: false });
    metas.push(AccountRef { address: rent, is_signer: false, is_writable: false });
    metas.push(AccountRef { address: system, is_signer: false, is_writable: false });
    let data = add_token_payload(amount);
    make_instruction(&program_id, &metas, data)
}

/// The wire payload of one planned call.
pub fn instruction_for(call: &Call, vault_program: &Address) -> (r: Instruction) {
    match call {
        Call::CreateAccount { payer, new_address, lamports, space, owner } => build_create_account(
            payer,
            new_address,
            *lamports,
            *space,
            owner,
        ),
        Call::InitializeMint { mint, mint_authority, freeze_authority, decimals } => {
            match build_initialize_mint(mint, mint_authority, freeze_authority, *decimals) {
                Some(i) => i,
                None => unreached(),
            }
        },
        Call::InitializeHolding { account, mint, owner } => {
            match build_initialize_holding(account, mint, owner) {
                Some(i) => i,
                None => unreached(),
            }
        },
        Call::CreateAssociatedHolding { payer, wallet, mint } => build_create_associated_holding(
            payer,
            wallet,
            mint,
        ),
        Call::AttachMetadata {
            metadata_program,
            metadata_account,
            mint,
            mint_authority,
            payer,
            update_authority,
            name,
            symbol,
            uri,
            creator,
        } => build_attach_metadata(
            metadata_program,
            metadata_account,
            mint,
            mint_authority,
            payer,
            update_authority,
            name,
            symbol,
            uri,
            creator,
            true,
            100,
            0,
            false,
        ),
        Call::MintUnits { mint, destination, authority, amount } => {
            match build_mint_units(mint, destination, authority, *amount) {
                Some(i) => i,
                None => unreached(),
            }
        },
        Call::ApproveDelegate { source, delegate, owner, amount } => {
            match build_approve_delegate(source, delegate, owner, *amount) {
                Some(i) => i,
                None => unreached(),
            }
        },
        Call::UpdateExternalPrice {
            vault_program,
            account,
            price_per_share,
            price_mint,
            allowed_to_combine,
        } => build_update_external_price(
            vault_program,
            account,
            *price_per_share,
            price_mint,
            *allowed_to_combine,
        ),
        Call::InitVault {
            vault_program,
            fraction_mint,
            redeem_treasury,
            fraction_treasury,
            vault,
            vault_authority,
            pricing_lookup,
            allow_further_share_creation,
        } => build_init_vault(
            vault_program,
            fraction_mint,
            redeem_treasury,
            fraction_treasury,
            vault,
            vault_authority,
            pricing_lookup,
            *allow_further_share_creation,
        ),
        Call::AddTokenToVault {
            safety_deposit_box,
            token_account,
            store,
            vault,
            vault_authority,
            payer,
            transfer_authority,
            amount,
        } => create_add_token_to_inactive_vault_instruction2(
            *vault_program,
            *safety_deposit_box,
            *token_account,
            *store,
            *vault,
            *vault_authority,
            *payer,
            *transfer_authority,
            *amount,
        ),
        Call::ActivateVault {
            vault,
            fraction_mint,
            fraction_treasury,
            fraction_mint_authority,
            vault_authority,
            number_of_shares,
        } => build_activate_vault(
            vault_program,
            vault,
            fraction_mint,
            fraction_treasury,
            fraction_mint_authority,
            vault_authority,
            *number_of_shares,
        ),
        Call::MintShares {
            fraction_treasury,
            fraction_mint,
            vault,
            fraction_mint_authority,
            vault_authority,
            number_of_shares,
        } => build_mint_shares(
            vault_program,
            fraction_treasury,
            fraction_mint,
            vault,
            fraction_mint_authority,
            vault_authority,
            *number_of_shares,
        ),
        Call::WithdrawShares {
            destination,
            fraction_treasury,
            vault,
            transfer_authority,
            vault_authority,
            number_of_shares,
        } => build_withdraw_shares(
            vault_program,
            destination,
            fraction_treasury,
            vault,
            transfer_authority,
            vault_authority,
            *number_of_shares,
        ),
    }
}

} // verus!
