//! The workflow orchestrator: five workflows, each of which re-derives
//! and validates every derived-address role, then issues a fixed sequence
//! of cross-contract calls.  Each workflow function takes the ledger
//! model, plans its call sequence, and returns the ledger after the whole
//! sequence, or the first error with no partial mutation.

use vstd::prelude::*;
use vstd::utf8::encode_utf8;
use vstd::string::StrSliceExecFns;
use crate::accounts::{
    AddNftAccounts, AddNftAccountsV, CreateVaultAccounts, CreateVaultAccountsV,
    FractionalizeAccounts, FractionalizeAccountsV, MintNftAccounts, MintNftAccountsV,
    SendShareAccounts, SendShareAccountsV,
};
use crate::calls::{Call, CallV, PlannedCall, PlannedCallV, calls_view};
use crate::errors::{AccountRole, TokrError};
use crate::instruction::{MintArgs, MintArgsV, VaultArgs, VaultArgsV, FractionalizeArgs};
use crate::keys::{
    Address, SignerSeeds, address_bytes, address_eq, associated_holding_address, ata_of,
    derivation_of, find_derived_address, metadata_prefix, metadata_prefix_bytes, native_mint_id,
    native_mint_id_bytes, rent_exempt_min, rent_exempt_minimum, seeds_view, spl_token_id_bytes,
    token_program_id,
};
use crate::semantics::{
    HOLDING_ACCOUNT_LEN, MINT_ACCOUNT_LEN, PRICE_ACCOUNT_LEN, VAULT_ACCOUNT_LEN, apply_model,
    get_holding, get_vault, holding_at, run_calls, run_model, vault_at,
};
use crate::state::{Ledger, RecV, VaultState};

verus! {

/// The domain tag of the external price record derivation.
pub open spec fn external_tag() -> Seq<u8> {
    seq![101u8, 120, 116, 101, 114, 110, 97, 108]
}

/// The domain tag of the fractional mint derivation.
pub open spec fn fraction_tag() -> Seq<u8> {
    seq![102u8, 114, 97, 99, 116, 105, 111, 110]
}

/// The domain tag of the transfer authority derivation.
pub open spec fn transfer_tag() -> Seq<u8> {
    seq![116u8, 114, 97, 110, 115, 102, 101, 114]
}

/// The domain tag of the token store derivation.
pub open spec fn store_tag() -> Seq<u8> {
    seq![115u8, 116, 111, 114, 101]
}

/// The bytes of the external price domain tag.
pub fn external_tag_bytes() -> (r: Vec<u8>)
    ensures
        r@ == external_tag(),
{
    let r = vec![101u8, 120, 116, 101, 114, 110, 97, 108];
    proof {
        assert(r@ =~= external_tag());
    }
    r
}

/// The bytes of the fractional mint domain tag.
pub fn fraction_tag_bytes() -> (r: Vec<u8>)
    ensures
        r@ == fraction_tag(),
{
    let r = vec![102u8, 114, 97, 99, 116, 105, 111, 110];
    proof {
        assert(r@ =~= fraction_tag());
    }
    r
}

/// The bytes of the transfer authority domain tag.
pub fn transfer_tag_bytes() -> (r: Vec<u8>)
    ensures
        r@ == transfer_tag(),
{
    let r = vec![116u8, 114, 97, 110, 115, 102, 101, 114];
    proof {
        assert(r@ =~= transfer_tag());
    }
    r
}

/// The bytes of the token store domain tag.
pub fn store_tag_bytes() -> (r: Vec<u8>)
    ensures
        r@ == store_tag(),
{
    let r = vec![115u8, 116, 111, 114, 101];
    proof {
        assert(r@ =~= store_tag());
    }
    r
}

/// Three ordered seed parts, for a derivation.
fn seeds3(a: Vec<u8>, b: Vec<u8>, c: Vec<u8>) -> (r: Vec<Vec<u8>>)
    ensures
        seeds_view(r@) == seq![a@, b@, c@],
{
    let ghost av = a@;
    let ghost bv = b@;
    let ghost cv = c@;
    let mut r: Vec<Vec<u8>> = Vec::new();
    r.push(a);
    r.push(b);
    r.push(c);
    proof {
        assert(seeds_view(r@) =~= seq![av, bv, cv]);
    }
    r
}

/// Three ordered seed parts and the trailing bump, as signer seed
/// material.
fn signer3(a: Vec<u8>, b: Vec<u8>, c: Vec<u8>, bump: u8) -> (r: SignerSeeds)
    ensures
        r@ == seq![a@, b@, c@, seq![bump]],
{
    let ghost av = a@;
    let ghost bv = b@;
    let ghost cv = c@;
    let mut parts: Vec<Vec<u8>> = Vec::new();
    parts.push(a);
    parts.push(b);
    parts.push(c);
    let bump_part = vec![bump];
    proof {
        assert(bump_part@ =~= seq![bump]);
    }
    parts.push(bump_part);
    let r = SignerSeeds { parts };
    proof {
        assert(r@ =~= seq![av, bv, cv, seq![bump]]);
    }
    r
}

/// One signer for a planned call.
fn one_signer(s: SignerSeeds) -> (r: Vec<SignerSeeds>)
    ensures
        r@.len() == 1,
        r@[0]@ == s@,
{
    let mut r: Vec<SignerSeeds> = Vec::new();
    r.push(s);
    r
}

/// The view a workflow result denotes.
pub open spec fn res_view(r: Result<Ledger, TokrError>) -> Result<Map<Seq<u8>, RecV>, TokrError> {
    match r {
        Ok(l) => Ok(l@),
        Err(e) => Err(e),
    }
}

/// The derivation seed parts of the mint: mint seed label bytes, payer,
/// destination.
pub open spec fn mint_seed_parts(args: MintArgsV, a: MintNftAccountsV) -> Seq<Seq<u8>> {
    seq![encode_utf8(args.mint_seed), a.payer, a.destination]
}

/// The planned call sequence of the mint-NFT workflow, or the validation
/// error that aborts it before any call is issued: the supplied mint must
/// equal its re-derivation with the supplied bump; the supplied metadata
/// record address must equal its re-derivation; the supplied holding
/// account must be the canonical one for the destination; and the token
/// program role must hold the token program.
pub open spec fn mint_nft_plan(a: MintNftAccountsV, args: MintArgsV, pid: Seq<u8>) -> Result<
    Seq<PlannedCallV>,
    TokrError,
> {
    match derivation_of(mint_seed_parts(args, a), pid) {
        None => Err(TokrError::DerivationUnavailable(AccountRole::Mint)),
        Some(kb) => {
            if kb.0 != a.mint {
                Err(TokrError::DerivationMismatch(AccountRole::Mint))
            } else if kb.1 != args.mint_bump {
                Err(TokrError::BumpMismatch(AccountRole::Mint))
            } else {
                match derivation_of(
                    seq![metadata_prefix_bytes(), a.metadata_program, a.mint],
                    a.metadata_program,
                ) {
                    None => Err(TokrError::DerivationUnavailable(AccountRole::MetadataAccount)),
                    Some(mk) => {
                        if mk.0 != a.metadata_account {
                            Err(TokrError::DerivationMismatch(AccountRole::MetadataAccount))
                        } else if ata_of(a.destination, a.mint) != a.token_account {
                            Err(TokrError::DerivationMismatch(AccountRole::HoldingAccount))
                        } else if a.token_program != spl_token_id_bytes() {
                            Err(TokrError::WrongProgramAccount(AccountRole::TokenProgram))
                        } else {
                            Ok(
                                seq![
                                    PlannedCallV {
                                        call: CallV::CreateAccount {
                                            payer: a.payer,
                                            new_address: a.mint,
                                            lamports: rent_exempt_min(MINT_ACCOUNT_LEN),
                                            space: MINT_ACCOUNT_LEN,
                                            owner: spl_token_id_bytes(),
                                        },
                                        signers: seq![
                                            mint_seed_parts(args, a).push(seq![args.mint_bump])
                                        ],
                                    },
                                    PlannedCallV {
                                        call: CallV::InitializeMint {
                                            mint: a.mint,
                                            mint_authority: a.payer,
                                            freeze_authority: Some(pid),
                                            decimals: 0,
                                        },
                                        signers: seq![
                                            mint_seed_parts(args, a).push(seq![args.mint_bump])
                                        ],
                                    },
                                    PlannedCallV {
                                        call: CallV::CreateAssociatedHolding {
                                            payer: a.payer,
                                            wallet: a.destination,
                                            mint: a.mint,
                                        },
                                        signers: Seq::empty(),
                                    },
                                    PlannedCallV {
                                        call: CallV::AttachMetadata {
                                            metadata_program: a.metadata_program,
                                            metadata_account: a.metadata_account,
                                            mint: a.mint,
                                            mint_authority: a.payer,
                                            payer: a.payer,
                                            update_authority: a.payer,
                                            name: args.name,
                                            symbol: args.symbol,
                                            uri: args.uri,
                                            creator: a.creator,
                                        },
                                        signers: seq![
                                            seq![
                                                metadata_prefix_bytes(),
                                                a.metadata_program,
                                                a.mint,
                                                seq![mk.1],
                                            ]
                                        ],
                                    },
                                    PlannedCallV {
                                        call: CallV::MintUnits {
                                            mint: a.mint,
                                            destination: a.token_account,
                                            authority: a.payer,
                                            amount: 1,
                                        },
                                        signers: Seq::empty(),
                                    },
                                ],
                            )
                        }
                    },
                }
            }
        },
    }
}

/// Plan the mint-NFT workflow: validate every derived role, then lay out
/// the call sequence.
pub fn plan_mint_nft(accounts: &MintNftAccounts, args: &MintArgs, program_id: &Address) -> (r:
    Result<Vec<PlannedCall>, TokrError>)
    ensures
        match r {
            Ok(p) => mint_nft_plan(accounts@, args@, program_id@) == Ok::<
                Seq<PlannedCallV>,
                TokrError,
            >(calls_view(p@)),
            Err(e) => mint_nft_plan(accounts@, args@, program_id@) == Err::<
                Seq<PlannedCallV>,
                TokrError,
            >(e),
        },
{
    let seeds = seeds3(
        args.mint_seed.as_str().as_bytes_vec(),
        address_bytes(&accounts.payer),
        address_bytes(&accounts.destination),
    );
    proof {
        assert(seeds_view(seeds@) =~= mint_seed_parts(args@, accounts@));
    }
    let kb = match find_derived_address(&seeds, program_id) {
        Some(kb) => kb,
        None => { return Err(TokrError::DerivationUnavailable(AccountRole::Mint)) },
    };
    if !address_eq(&kb.0, &accounts.mint) {
        return Err(TokrError::DerivationMismatch(AccountRole::Mint));
    }
    if kb.1 != args.mint_bump {
        return Err(TokrError::BumpMismatch(AccountRole::Mint));
    }
    let meta_seeds = seeds3(
        metadata_prefix(),
        address_bytes(&accounts.metadata_program),
        address_bytes(&accounts.mint),
    );
    proof {
        assert(seeds_view(meta_seeds@) =~= seq![
            metadata_prefix_bytes(),
            accounts.metadata_program@,
            accounts.mint@,
        ]);
    }
    let mk = match find_derived_address(&meta_seeds, &accounts.metadata_program) {
        Some(mk) => mk,
        None => { return Err(TokrError::DerivationUnavailable(AccountRole::MetadataAccount)) },
    };
    if !address_eq(&mk.0, &accounts.metadata_account) {
        return Err(TokrError::DerivationMismatch(AccountRole::MetadataAccount));
    }
    let ata = associated_holding_address(&accounts.destination, &accounts.mint);
    if !address_eq(&ata, &accounts.token_account) {
        return Err(TokrError::DerivationMismatch(AccountRole::HoldingAccount));
    }
    let spl = token_program_id();
    if !address_eq(&accounts.token_program, &spl) {
        return Err(TokrError::WrongProgramAccount(AccountRole::TokenProgram));
    }
    let lamports = rent_exempt_minimum(MINT_ACCOUNT_LEN);

    let mut plan: Vec<PlannedCall> = Vec::new();
    plan.push(
        PlannedCall {
            call: Call::CreateAccount {
                payer: accounts.payer,
                new_address: accounts.mint,
                lamports,
                space: MINT_ACCOUNT_LEN,
                owner: spl,
            },
            signers: one_signer(
                signer3(
                    args.mint_seed.as_str().as_bytes_vec(),
                    address_bytes(&accounts.payer),
                    address_bytes(&accounts.destination),
                    args.mint_bump,
                ),
            ),
        },
    );
    plan.push(
        PlannedCall {
            call: Call::InitializeMint {
                mint: accounts.mint,
                mint_authority: accounts.payer,
                freeze_authority: Some(*program_id),
                decimals: 0,
            },
            signers: one_signer(
                signer3(
                    args.mint_seed.as_str().as_bytes_vec(),
                    address_bytes(&accounts.payer),
                    address_bytes(&accounts.destination),
                    args.mint_bump,
                ),
            ),
        },
    );
    plan.push(
        PlannedCall {
            call: Call::CreateAssociatedHolding {
                payer: accounts.payer,
                wallet: accounts.destination,
                mint: accounts.mint,
            },
            signers: Vec::new(),
        },
    );
    plan.push(
        PlannedCall {
            call: Call::AttachMetadata {
                metadata_program: accounts.metadata_program,
                metadata_account: accounts.metadata_account,
                mint: accounts.mint,
                mint_authority: accounts.payer,
                payer: accounts.payer,
                update_authority: accounts.payer,
                name: args.name.as_str().to_owned(),
                symbol: args.symbol.as_str().to_owned(),
                uri: args.uri.as_str().to_owned(),
                creator: accounts.creator,
            },
            signers: one_signer(
                signer3(
                    metadata_prefix(),
                    address_bytes(&accounts.metadata_program),
                    address_bytes(&accounts.mint),
                    mk.1,
                ),
            ),
        },
    );
    plan.push(
        PlannedCall {
            call: Call::MintUnits {
                mint: accounts.mint,
                destination: accounts.token_account,
                authority: accounts.payer,
                amount: 1,
            },
            signers: Vec::new(),
        },
    );
    proof {
        let expected = mint_nft_plan(accounts@, args@, program_id@)->Ok_0;
        assert(calls_view(plan@).len() == 5);
        assert(calls_view(plan@)[0].signers =~~= expected[0].signers);
        assert(calls_view(plan@)[1].signers =~~= expected[1].signers);
        assert(calls_view(plan@)[2].signers =~~= expected[2].signers);
        assert(calls_view(plan@)[3].signers =~~= expected[3].signers);
        assert(calls_view(plan@)[4].signers =~~= expected[4].signers);
        assert(calls_view(plan@) =~~= expected);
    }
    Ok(plan)
}

/// The mint-NFT workflow model: the planned sequence applied to the
/// ledger, or the validation error with the ledger untouched.
pub open spec fn mint_nft_model(
    l: Map<Seq<u8>, RecV>,
    a: MintNftAccountsV,
    args: MintArgsV,
    pid: Seq<u8>,
) -> Result<Map<Seq<u8>, RecV>, TokrError> {
    match mint_nft_plan(a, args, pid) {
        Ok(p) => run_model(l, p),
        Err(e) => Err(e),
    }
}

/// Mint a non-fungible token: create and initialize the mint at its
/// derived address, create the destination's canonical holding account,
/// attach the metadata record at its derived address, and mint exactly
/// one unit.  On error the returned ledger model is unchanged (the
/// caller keeps `ledger`); on success the result is exactly what the
/// workflow model says.
pub fn mint_nft(
    ledger: &Ledger,
    accounts: &MintNftAccounts,
    name: String,
    symbol: String,
    uri: String,
    mint_bump: u8,
    mint_seed: String,
    program_id: &Address,
) -> (r: Result<Ledger, TokrError>)
    ensures
        res_view(r) == mint_nft_model(
            ledger@,
            accounts@,
            MintArgsV { name: name@, symbol: symbol@, uri: uri@, mint_bump, mint_seed: mint_seed@ },
            program_id@,
        ),
{
    let args = MintArgs { name, symbol, uri, mint_bump, mint_seed };
    let plan = match plan_mint_nft(accounts, &args, program_id) {
        Ok(p) => p,
        Err(e) => { return Err(e) },
    };
    let mut scratch = ledger.duplicate();
    match run_calls(&mut scratch, &plan) {
        Ok(_) => Ok(scratch),
        Err(e) => Err(e),
    }
}

/// The planned call sequence of the create-vault workflow, or the
/// validation error that aborts it: the vault address and bump, the
/// external price record and the fractional mint must equal their
/// re-derivations; both treasuries must be the canonical holding accounts
/// of the vault's mint-authority delegate; and the token program role
/// must hold the token program.  Every creation of a derived-owned
/// address is signed with that address's own seed material.
pub open spec fn create_vault_plan(a: CreateVaultAccountsV, args: VaultArgsV, pid: Seq<u8>) -> Result<
    Seq<PlannedCallV>,
    TokrError,
> {
    match derivation_of(seq![a.payer, a.token_vault_program, encode_utf8(args.vault_seed)], pid) {
        None => Err(TokrError::DerivationUnavailable(AccountRole::Vault)),
        Some(vk) => {
            if vk.0 != a.vault {
                Err(TokrError::DerivationMismatch(AccountRole::Vault))
            } else if vk.1 != args.vault_bump {
                Err(TokrError::BumpMismatch(AccountRole::Vault))
            } else {
                match derivation_of(seq![external_tag(), a.vault, a.payer], pid) {
                    None => Err(TokrError::DerivationUnavailable(AccountRole::ExternalPricing)),
                    Some(ek) => {
                        if ek.0 != a.external_pricing {
                            Err(TokrError::DerivationMismatch(AccountRole::ExternalPricing))
                        } else {
                            match derivation_of(seq![fraction_tag(), a.vault, a.payer], pid) {
                                None => Err(
                                    TokrError::DerivationUnavailable(AccountRole::FractionMint),
                                ),
                                Some(fk) => {
                                    if fk.0 != a.fraction_mint {
                                        Err(TokrError::DerivationMismatch(AccountRole::FractionMint))
                                    } else if ata_of(a.vault_mint_authority, a.fraction_mint)
                                        != a.fraction_treasury {
                                        Err(
                                            TokrError::DerivationMismatch(
                                                AccountRole::FractionTreasury,
                                            ),
                                        )
                                    } else if ata_of(a.vault_mint_authority, native_mint_id_bytes())
                                        != a.redeem_treasury {
                                        Err(TokrError::DerivationMismatch(AccountRole::RedeemTreasury))
                                    } else if a.token_program != spl_token_id_bytes() {
                                        Err(TokrError::WrongProgramAccount(AccountRole::TokenProgram))
                                    } else {
                                        Ok(create_vault_calls(a, args, ek.1, fk.1))
                                    }
                                },
                            }
                        }
                    },
                }
            }
        },
    }
}

/// The eight calls of the create-vault workflow, once validated.
pub open spec fn create_vault_calls(
    a: CreateVaultAccountsV,
    args: VaultArgsV,
    external_bump: u8,
    fraction_bump: u8,
) -> Seq<PlannedCallV> {
    seq![
        PlannedCallV {
            call: CallV::CreateAccount {
                payer: a.payer,
                new_address: a.external_pricing,
                lamports: rent_exempt_min(PRICE_ACCOUNT_LEN),
                space: PRICE_ACCOUNT_LEN,
                owner: a.token_vault_program,
            },
            signers: seq![seq![external_tag(), a.vault, a.payer, seq![external_bump]]],
        },
        PlannedCallV {
            call: CallV::UpdateExternalPrice {
                vault_program: a.token_vault_program,
                account: a.external_pricing,
                price_per_share: 0,
                price_mint: native_mint_id_bytes(),
                allowed_to_combine: true,
            },
            signers: seq![seq![external_tag(), a.vault, a.payer, seq![external_bump]]],
        },
        PlannedCallV {
            call: CallV::CreateAccount {
                payer: a.payer,
                new_address: a.fraction_mint,
                lamports: rent_exempt_min(MINT_ACCOUNT_LEN),
                space: MINT_ACCOUNT_LEN,
                owner: spl_token_id_bytes(),
            },
            signers: seq![seq![fraction_tag(), a.vault, a.payer, seq![fraction_bump]]],
        },
        PlannedCallV {
            call: CallV::InitializeMint {
                mint: a.fraction_mint,
                mint_authority: a.vault_mint_authority,
                freeze_authority: Some(a.vault_mint_authority),
                decimals: 0,
            },
            signers: seq![seq![fraction_tag(), a.vault, a.payer, seq![fraction_bump]]],
        },
        PlannedCallV {
            call: CallV::CreateAssociatedHolding {
                payer: a.payer,
                wallet: a.vault_mint_authority,
                mint: a.fraction_mint,
            },
            signers: Seq::empty(),
        },
        PlannedCallV {
            call: CallV::CreateAssociatedHolding {
                payer: a.payer,
                wallet: a.vault_mint_authority,
                mint: native_mint_id_bytes(),
            },
            signers: Seq::empty(),
        },
        PlannedCallV {
            call: CallV::CreateAccount {
                payer: a.payer,
                new_address: a.vault,
                lamports: rent_exempt_min(VAULT_ACCOUNT_LEN),
                space: VAULT_ACCOUNT_LEN,
                owner: a.token_vault_program,
            },
            signers: seq![
                seq![a.payer, a.token_vault_program, encode_utf8(args.vault_seed), seq![
                    args.vault_bump
                ]]
            ],
        },
        PlannedCallV {
            call: CallV::InitVault {
                vault_program: a.token_vault_program,
                fraction_mint: a.fraction_mint,
                redeem_treasury: a.redeem_treasury,
                fraction_treasury: a.fraction_treasury,
                vault: a.vault,
                vault_authority: a.vault_authority,
                pricing_lookup: a.external_pricing,
                allow_further_share_creation: false,
            },
            signers: seq![
                seq![a.payer, a.token_vault_program, encode_utf8(args.vault_seed), seq![
                    args.vault_bump
                ]]
            ],
        },
    ]
}

/// Plan the create-vault workflow.
pub fn plan_create_vault(accounts: &CreateVaultAccounts, args: &VaultArgs, program_id: &Address) -> (r:
    Result<Vec<PlannedCall>, TokrError>)
    ensures
        match r {
            Ok(p) => create_vault_plan(accounts@, args@, program_id@) == Ok::<
                Seq<PlannedCallV>,
                TokrError,
            >(calls_view(p@)),
            Err(e) => create_vault_plan(accounts@, args@, program_id@) == Err::<
                Seq<PlannedCallV>,
                TokrError,
            >(e),
        },
{
    let seeds = seeds3(
        address_bytes(&accounts.payer),
        address_bytes(&accounts.token_vault_program),
        args.vault_seed.as_str().as_bytes_vec(),
    );
    proof {
        assert(seeds_view(seeds@) =~= seq![
            accounts.payer@,
            accounts.token_vault_program@,
            encode_utf8(args.vault_seed@),
        ]);
    }
    let vk = match find_derived_address(&seeds, program_id) {
        Some(vk) => vk,
        None => { return Err(TokrError::DerivationUnavailable(AccountRole::Vault)) },
    };
    if !address_eq(&vk.0, &accounts.vault) {
        return Err(TokrError::DerivationMismatch(AccountRole::Vault));
    }
    if vk.1 != args.vault_bump {
        return Err(TokrError::BumpMismatch(AccountRole::Vault));
    }
    let eseeds = seeds3(
        external_tag_bytes(),
        address_bytes(&accounts.vault),
        address_bytes(&accounts.payer),
    );
    proof {
        assert(seeds_view(eseeds@) =~= seq![external_tag(), accounts.vault@, accounts.payer@]);
    }
    let ek = match find_derived_address(&eseeds, program_id) {
        Some(ek) => ek,
        None => { return Err(TokrError::DerivationUnavailable(AccountRole::ExternalPricing)) },
    };
    if !address_eq(&ek.0, &accounts.external_pricing) {
        return Err(TokrError::DerivationMismatch(AccountRole::ExternalPricing));
    }
    let fseeds = seeds3(
        fraction_tag_bytes(),
        address_bytes(&accounts.vault),
        address_bytes(&accounts.payer),
    );
    proof {
        assert(seeds_view(fseeds@) =~= seq![fraction_tag(), accounts.vault@, accounts.payer@]);
    }
    let fk = match find_derived_address(&fseeds, program_id) {
        Some(fk) => fk,
        None => { return Err(TokrError::DerivationUnavailable(AccountRole::FractionMint)) },
    };
    if !address_eq(&fk.0, &accounts.fraction_mint) {
        return Err(TokrError::DerivationMismatch(AccountRole::FractionMint));
    }
    let fraction_ata = associated_holding_address(
        &accounts.vault_mint_authority,
        &accounts.fraction_mint,
    );
    if !address_eq(&fraction_ata, &accounts.fraction_treasury) {
        return Err(TokrError::DerivationMismatch(AccountRole::FractionTreasury));
    }
    let native = native_mint_id();
    let redeem_ata = associated_holding_address(&accounts.vault_mint_authority, &native);
    if !address_eq(&redeem_ata, &accounts.redeem_treasury) {
        return Err(TokrError::DerivationMismatch(AccountRole::RedeemTreasury));
    }
    let spl = token_program_id();
    if !address_eq(&accounts.token_program, &spl) {
        return Err(TokrError::WrongProgramAccount(AccountRole::TokenProgram));
    }

    let mut plan: Vec<PlannedCall> = Vec::new();
    plan.push(
        PlannedCall {
            call: Call::CreateAccount {
                payer: accounts.payer,
                new_address: accounts.external_pricing,
                lamports: rent_exempt_minimum(PRICE_ACCOUNT_LEN),
                space: PRICE_ACCOUNT_LEN,
                owner: accounts.token_vault_program,
            },
            signers: one_signer(
                signer3(
                    external_tag_bytes(),
                    address_bytes(&accounts.vault),
                    address_bytes(&accounts.payer),
                    ek.1,
                ),
            ),
        },
    );
    plan.push(
        PlannedCall {
            call: Call::UpdateExternalPrice {
                vault_program: accounts.token_vault_program,
                account: accounts.external_pricing,
                price_per_share: 0,
                price_mint: native,
                allowed_to_combine: true,
            },
            signers: one_signer(
                signer3(
                    external_tag_bytes(),
                    address_bytes(&accounts.vault),
                    address_bytes(&accounts.payer),
                    ek.1,
                ),
            ),
        },
    );
    plan.push(
        PlannedCall {
            call: Call::CreateAccount {
                payer: accounts.payer,
                new_address: accounts.fraction_mint,
                lamports: rent_exempt_minimum(MINT_ACCOUNT_LEN),
                space: MINT_ACCOUNT_LEN,
                owner: spl,
            },
            signers: one_signer(
                signer3(
                    fraction_tag_bytes(),
                    address_bytes(&accounts.vault),
                    address_bytes(&accounts.payer),
                    fk.1,
                ),
            ),
        },
    );
    plan.push(
        PlannedCall {
            call: Call::InitializeMint {
                mint: accounts.fraction_mint,
                mint_authority: accounts.vault_mint_authority,
                freeze_authority: Some(accounts.vault_mint_authority),
                decimals: 0,
            },
            signers: one_signer(
                signer3(
                    fraction_tag_bytes(),
                    address_bytes(&accounts.vault),
                    address_bytes(&accounts.payer),
                    fk.1,
                ),
            ),
        },
    );
    plan.push(
        PlannedCall {
            call: Call::CreateAssociatedHolding {
                payer: accounts.payer,
                wallet: accounts.vault_mint_authority,
                mint: accounts.fraction_mint,
            },
            signers: Vec::new(),
        },
    );
    plan.push(
        PlannedCall {
            call: Call::CreateAssociatedHolding {
                payer: accounts.payer,
                wallet: accounts.vault_mint_authority,
                mint: native,
            },
            signers: Vec::new(),
        },
    );
    plan.push(
        PlannedCall {
            call: Call::CreateAccount {
                payer: accounts.payer,
                new_address: accounts.vault,
                lamports: rent_exempt_minimum(VAULT_ACCOUNT_LEN),
                space: VAULT_ACCOUNT_LEN,
                owner: accounts.token_vault_program,
            },
            signers: one_signer(
                signer3(
                    address_bytes(&accounts.payer),
                    address_bytes(&accounts.token_vault_program),
                    args.vault_seed.as_str().as_bytes_vec(),
                    args.vault_bump,
                ),
            ),
        },
    );
    plan.push(
        PlannedCall {
            call: Call::InitVault {
                vault_program: accounts.token_vault_program,
                fraction_mint: accounts.fraction_mint,
                redeem_treasury: accounts.redeem_treasury,
                fraction_treasury: accounts.fraction_treasury,
                vault: accounts.vault,
                vault_authority: accounts.vault_authority,
                pricing_lookup: accounts.external_pricing,
                allow_further_share_creation: false,
            },
            signers: one_signer(
                signer3(
                    address_bytes(&accounts.payer),
                    address_bytes(&accounts.token_vault_program),
                    args.vault_seed.as_str().as_bytes_vec(),
                    args.vault_bump,
                ),
            ),
        },
    );
    proof {
        let expected = create_vault_calls(accounts@, args@, ek.1, fk.1);
        assert(calls_view(plan@).len() == 8);
        assert(calls_view(plan@)[0].signers =~~= expected[0].signers);
        assert(calls_view(plan@)[1].signers =~~= expected[1].signers);
        assert(calls_view(plan@)[2].signers =~~= expected[2].signers);
        assert(calls_view(plan@)[3].signers =~~= expected[3].signers);
        assert(calls_view(plan@)[4].signers =~~= expected[4].signers);
        assert(calls_view(plan@)[5].signers =~~= expected[5].signers);
        assert(calls_view(plan@)[6].signers =~~= expected[6].signers);
        assert(calls_view(plan@)[7].signers =~~= expected[7].signers);
        assert(calls_view(plan@) =~~= expected);
    }
    Ok(plan)
}

/// The create-vault workflow model.
pub open spec fn create_vault_model(
    l: Map<Seq<u8>, RecV>,
    a: CreateVaultAccountsV,
    args: VaultArgsV,
    pid: Seq<u8>,
) -> Result<Map<Seq<u8>, RecV>, TokrError> {
    match create_vault_plan(a, args, pid) {
        Ok(p) => run_model(l, p),
        Err(e) => Err(e),
    }
}

/// Create a custodial vault: create and initialize the external price
/// record and the fractional mint at their derived addresses, create both
/// treasuries as canonical holding accounts of the vault's mint-authority
/// delegate, and initialize the vault, state inactive.
pub fn create_vault(
    ledger: &Ledger,
    accounts: &CreateVaultAccounts,
    vault_seed: String,
    vault_bump: u8,
    program_id: &Address,
) -> (r: Result<Ledger, TokrError>)
    ensures
        res_view(r) == create_vault_model(
            ledger@,
            accounts@,
            VaultArgsV { vault_seed: vault_seed@, vault_bump },
            program_id@,
        ),
{
    let args = VaultArgs { vault_seed, vault_bump };
    let plan = match plan_create_vault(accounts, &args, program_id) {
        Ok(p) => p,
        Err(e) => { return Err(e) },
    };
    let mut scratch = ledger.duplicate();
    match run_calls(&mut scratch, &plan) {
        Ok(_) => Ok(scratch),
        Err(e) => Err(e),
    }
}

/// The planned call sequence of the deposit-to-vault workflow, or the
/// validation error that aborts it: the transfer authority and the token
/// store must equal their re-derivations from the domain tags, the vault
/// and the deposited mint; the token program role must hold the token
/// program.
pub open spec fn add_nft_plan(a: AddNftAccountsV, pid: Seq<u8>) -> Result<
    Seq<PlannedCallV>,
    TokrError,
> {
    match derivation_of(seq![transfer_tag(), a.vault, a.mint], pid) {
        None => Err(TokrError::DerivationUnavailable(AccountRole::TransferAuthority)),
        Some(tk) => {
            if tk.0 != a.transfer_authority {
                Err(TokrError::DerivationMismatch(AccountRole::TransferAuthority))
            } else {
                match derivation_of(seq![store_tag(), a.vault, a.mint], pid) {
                    None => Err(TokrError::DerivationUnavailable(AccountRole::TokenStore)),
                    Some(sk) => {
                        if sk.0 != a.token_store {
                            Err(TokrError::DerivationMismatch(AccountRole::TokenStore))
                        } else if a.token_program != spl_token_id_bytes() {
                            Err(TokrError::WrongProgramAccount(AccountRole::TokenProgram))
                        } else {
                            Ok(add_nft_calls(a, tk.1, sk.1))
                        }
                    },
                }
            }
        },
    }
}

/// The four calls of the deposit-to-vault workflow, once validated.
pub open spec fn add_nft_calls(a: AddNftAccountsV, transfer_bump: u8, store_bump: u8) -> Seq<
    PlannedCallV,
> {
    seq![
        PlannedCallV {
            call: CallV::CreateAccount {
                payer: a.payer,
                new_address: a.token_store,
                lamports: rent_exempt_min(HOLDING_ACCOUNT_LEN),
                space: HOLDING_ACCOUNT_LEN,
                owner: spl_token_id_bytes(),
            },
            signers: seq![seq![store_tag(), a.vault, a.mint, seq![store_bump]]],
        },
        PlannedCallV {
            call: CallV::InitializeHolding {
                account: a.token_store,
                mint: a.mint,
                owner: a.vault_mint_authority,
            },
            signers: Seq::empty(),
        },
        PlannedCallV {
            call: CallV::ApproveDelegate {
                source: a.token_account,
                delegate: a.transfer_authority,
                owner: a.payer,
                amount: 1,
            },
            signers: Seq::empty(),
        },
        PlannedCallV {
            call: CallV::AddTokenToVault {
                safety_deposit_box: a.safety_deposit_box,
                token_account: a.token_account,
                store: a.token_store,
                vault: a.vault,
                vault_authority: a.vault_authority,
                payer: a.payer,
                transfer_authority: a.transfer_authority,
                amount: 1,
            },
            signers: seq![
                seq![transfer_tag(), a.vault, a.mint, seq![transfer_bump]],
                seq![store_tag(), a.vault, a.mint, seq![store_bump]],
            ],
        },
    ]
}

/// Plan the deposit-to-vault workflow.
pub fn plan_add_nft(accounts: &AddNftAccounts, program_id: &Address) -> (r: Result<
    Vec<PlannedCall>,
    TokrError,
>)
    ensures
        match r {
            Ok(p) => add_nft_plan(accounts@, program_id@) == Ok::<Seq<PlannedCallV>, TokrError>(
                calls_view(p@),
            ),
            Err(e) => add_nft_plan(accounts@, program_id@) == Err::<Seq<PlannedCallV>, TokrError>(
                e,
            ),
        },
{
    let tseeds = seeds3(
        transfer_tag_bytes(),
        address_bytes(&accounts.vault),
        address_bytes(&accounts.mint),
    );
    proof {
        assert(seeds_view(tseeds@) =~= seq![transfer_tag(), accounts.vault@, accounts.mint@]);
    }
    let tk = match find_derived_address(&tseeds, program_id) {
        Some(tk) => tk,
        None => { return Err(TokrError::DerivationUnavailable(AccountRole::TransferAuthority)) },
    };
    if !address_eq(&tk.0, &accounts.transfer_authority) {
        return Err(TokrError::DerivationMismatch(AccountRole::TransferAuthority));
    }
    let sseeds = seeds3(
        store_tag_bytes(),
        address_bytes(&accounts.vault),
        address_bytes(&accounts.mint),
    );
    proof {
        assert(seeds_view(sseeds@) =~= seq![store_tag(), accounts.vault@, accounts.mint@]);
    }
    let sk = match find_derived_address(&sseeds, program_id) {
        Some(sk) => sk,
        None => { return Err(TokrError::DerivationUnavailable(AccountRole::TokenStore)) },
    };
    if !address_eq(&sk.0, &accounts.token_store) {
        return Err(TokrError::DerivationMismatch(AccountRole::TokenStore));
    }
    let spl = token_program_id();
    if !address_eq(&accounts.token_program, &spl) {
        return Err(TokrError::WrongProgramAccount(AccountRole::TokenProgram));
    }

    let mut plan: Vec<PlannedCall> = Vec::new();
    plan.push(
        PlannedCall {
            call: Call::CreateAccount {
                payer: accounts.payer,
                new_address: accounts.token_store,
                lamports: rent_exempt_minimum(HOLDING_ACCOUNT_LEN),
                space: HOLDING_ACCOUNT_LEN,
                owner: spl,
            },
            signers: one_signer(
                signer3(
                    store_tag_bytes(),
                    address_bytes(&accounts.vault),
                    address_bytes(&accounts.mint),
                    sk.1,
                ),
            ),
        },
    );
    plan.push(
        PlannedCall {
            call: Call::InitializeHolding {
                account: accounts.token_store,
                mint: accounts.mint,
                owner: accounts.vault_mint_authority,
            },
            signers: Vec::new(),
        },
    );
    plan.push(
        PlannedCall {
            call: Call::ApproveDelegate {
                source: accounts.token_account,
                delegate: accounts.transfer_authority,
                owner: accounts.payer,
                amount: 1,
            },
            signers: Vec::new(),
        },
    );
    let mut both: Vec<SignerSeeds> = Vec::new();
    both.push(
        signer3(
            transfer_tag_bytes(),
            address_bytes(&accounts.vault),
            address_bytes(&accounts.mint),
            tk.1,
        ),
    );
    both.push(
        signer3(
            store_tag_bytes(),
            address_bytes(&accounts.vault),
            address_bytes(&accounts.mint),
            sk.1,
        ),
    );
    plan.push(
        PlannedCall {
            call: Call::AddTokenToVault {
                safety_deposit_box: accounts.safety_deposit_box,
                token_account: accounts.token_account,
                store: accounts.token_store,
                vault: accounts.vault,
                vault_authority: accounts.vault_authority,
                payer: accounts.payer,
                transfer_authority: accounts.transfer_authority,
                amount: 1,
            },
            signers: both,
        },
    );
    proof {
        let expected = add_nft_calls(accounts@, tk.1, sk.1);
        assert(calls_view(plan@).len() == 4);
        assert(calls_view(plan@)[0].signers =~~= expected[0].signers);
        assert(calls_view(plan@)[1].signers =~~= expected[1].signers);
        assert(calls_view(plan@)[2].signers =~~= expected[2].signers);
        assert(calls_view(plan@)[3].signers =~~= expected[3].signers);
        assert(calls_view(plan@) =~~= expected);
    }
    Ok(plan)
}

/// The deposit-to-vault workflow model.
pub open spec fn add_nft_model(l: Map<Seq<u8>, RecV>, a: AddNftAccountsV, pid: Seq<u8>) -> Result<
    Map<Seq<u8>, RecV>,
    TokrError,
> {
    match add_nft_plan(a, pid) {
        Ok(p) => run_model(l, p),
        Err(e) => Err(e),
    }
}

/// Deposit the NFT into the vault: create and initialize the derived
/// token store, delegate a single unit to the derived transfer authority,
/// and add the token to the still-inactive vault, recording its safety
/// deposit box.  The vault program rejects the deposit once the vault is
/// active.
pub fn add_nft_to_vault(ledger: &Ledger, accounts: &AddNftAccounts, program_id: &Address) -> (r:
    Result<Ledger, TokrError>)
    ensures
        res_view(r) == add_nft_model(ledger@, accounts@, program_id@),
{
    let plan = match plan_add_nft(accounts, program_id) {
        Ok(p) => p,
        Err(e) => { return Err(e) },
    };
    let mut scratch = ledger.duplicate();
    match run_calls(&mut scratch, &plan) {
        Ok(_) => Ok(scratch),
        Err(e) => Err(e),
    }
}

/// The single call of the fractionalize workflow: activate the vault if
/// it is still inactive, else mint additional shares.
pub open spec fn fractionalize_calls(
    a: FractionalizeAccountsV,
    number_of_shares: u64,
    st: VaultState,
) -> Seq<PlannedCallV> {
    if st == VaultState::Inactive {
        seq![
            PlannedCallV {
                call: CallV::ActivateVault {
                    vault: a.vault,
                    fraction_mint: a.fraction_mint,
                    fraction_treasury: a.fraction_treasury,
                    fraction_mint_authority: a.vault_mint_authority,
                    vault_authority: a.vault_authority,
                    number_of_shares,
                },
                signers: Seq::empty(),
            },
        ]
    } else {
        seq![
            PlannedCallV {
                call: CallV::MintShares {
                    fraction_treasury: a.fraction_treasury,
                    fraction_mint: a.fraction_mint,
                    vault: a.vault,
                    fraction_mint_authority: a.vault_mint_authority,
                    vault_authority: a.vault_authority,
                    number_of_shares,
                },
                signers: Seq::empty(),
            },
        ]
    }
}

/// Plan the fractionalize workflow from the vault's persisted state.
pub fn plan_fractionalize(
    accounts: &FractionalizeAccounts,
    number_of_shares: u64,
    state: VaultState,
) -> (r: Vec<PlannedCall>)
    ensures
        calls_view(r@) == fractionalize_calls(accounts@, number_of_shares, state),
{
    let mut plan: Vec<PlannedCall> = Vec::new();
    if state == VaultState::Inactive {
        plan.push(
            PlannedCall {
                call: Call::ActivateVault {
                    vault: accounts.vault,
                    fraction_mint: accounts.fraction_mint,
                    fraction_treasury: accounts.fraction_treasury,
                    fraction_mint_authority: accounts.vault_mint_authority,
                    vault_authority: accounts.vault_authority,
                    number_of_shares,
                },
                signers: Vec::new(),
            },
        );
    } else {
        plan.push(
            PlannedCall {
                call: Call::MintShares {
                    fraction_treasury: accounts.fraction_treasury,
                    fraction_mint: accounts.fraction_mint,
                    vault: accounts.vault,
                    fraction_mint_authority: accounts.vault_mint_authority,
                    vault_authority: accounts.vault_authority,
                    number_of_shares,
                },
                signers: Vec::new(),
            },
        );
    }
    proof {
        assert(calls_view(plan@) =~~= fractionalize_calls(accounts@, number_of_shares, state));
    }
    plan
}

/// The fractionalize workflow model: read the vault's persisted state;
/// if inactive, activating mints the initial share supply and the vault
/// becomes active; if already active, additional shares are minted, which
/// the vault program rejects when further issuance is disallowed.
pub open spec fn fractionalize_model(
    l: Map<Seq<u8>, RecV>,
    a: FractionalizeAccountsV,
    number_of_shares: u64,
) -> Result<Map<Seq<u8>, RecV>, TokrError> {
    match vault_at(l, a.vault) {
        None => Err(TokrError::WrongAccountKind(AccountRole::Vault)),
        Some(v) => run_model(l, fractionalize_calls(a, number_of_shares, v.state)),
    }
}

/// Split ownership of the vault into fungible shares.  The vault's
/// two-state machine decides the single branch point: an inactive vault
/// is activated, minting the initial supply into the fraction treasury;
/// an active vault mints additional shares, which fails when further
/// issuance was disallowed at initialization.
pub fn fractionalize(
    ledger: &Ledger,
    accounts: &FractionalizeAccounts,
    number_of_shares: u64,
    _program_id: &Address,
) -> (r: Result<Ledger, TokrError>)
    ensures
        res_view(r) == fractionalize_model(ledger@, accounts@, number_of_shares),
{
    let v = match get_vault(ledger, &accounts.vault) {
        Some(v) => v,
        None => { return Err(TokrError::WrongAccountKind(AccountRole::Vault)) },
    };
    let plan = plan_fractionalize(accounts, number_of_shares, v.state);
    let mut scratch = ledger.duplicate();
    match run_calls(&mut scratch, &plan) {
        Ok(_) => Ok(scratch),
        Err(e) => Err(e),
    }
}

/// The planned call sequence of the send-share workflow, or the
/// validation error that aborts it: the transfer authority must equal its
/// re-derivation; the destination holding must be the canonical one for
/// the destination owner; the token program role must hold the token
/// program.  When the destination holding does not yet exist it is
/// created before the withdrawal.
pub open spec fn send_share_plan(
    a: SendShareAccountsV,
    number_of_shares: u64,
    destination_exists: bool,
    pid: Seq<u8>,
) -> Result<Seq<PlannedCallV>, TokrError> {
    match derivation_of(seq![transfer_tag(), a.vault, a.mint], pid) {
        None => Err(TokrError::DerivationUnavailable(AccountRole::TransferAuthority)),
        Some(tk) => {
            if tk.0 != a.transfer_authority {
                Err(TokrError::DerivationMismatch(AccountRole::TransferAuthority))
            } else if ata_of(a.destination, a.fraction_mint) != a.destination_ata {
                Err(TokrError::DerivationMismatch(AccountRole::DestinationHolding))
            } else if a.token_program != spl_token_id_bytes() {
                Err(TokrError::WrongProgramAccount(AccountRole::TokenProgram))
            } else {
                Ok(send_share_calls(a, number_of_shares, destination_exists, tk.1))
            }
        },
    }
}

/// The calls of the send-share workflow, once validated.
pub open spec fn send_share_calls(
    a: SendShareAccountsV,
    number_of_shares: u64,
    destination_exists: bool,
    transfer_bump: u8,
) -> Seq<PlannedCallV> {
    let withdraw = PlannedCallV {
        call: CallV::WithdrawShares {
            destination: a.destination_ata,
            fraction_treasury: a.fraction_treasury,
            vault: a.vault,
            transfer_authority: a.transfer_authority,
            vault_authority: a.vault_authority,
            number_of_shares,
        },
        signers: seq![seq![transfer_tag(), a.vault, a.mint, seq![transfer_bump]]],
    };
    if destination_exists {
        seq![withdraw]
    } else {
        seq![
            PlannedCallV {
                call: CallV::CreateAssociatedHolding {
                    payer: a.payer,
                    wallet: a.destination,
                    mint: a.fraction_mint,
                },
                signers: Seq::empty(),
            },
            withdraw,
        ]
    }
}

/// Plan the send-share workflow.
pub fn plan_send_share(
    accounts: &SendShareAccounts,
    number_of_shares: u64,
    destination_exists: bool,
    program_id: &Address,
) -> (r: Result<Vec<PlannedCall>, TokrError>)
    ensures
        match r {
            Ok(p) => send_share_plan(accounts@, number_of_shares, destination_exists, program_id@)
                == Ok::<Seq<PlannedCallV>, TokrError>(calls_view(p@)),
            Err(e) => send_share_plan(accounts@, number_of_shares, destination_exists, program_id@)
                == Err::<Seq<PlannedCallV>, TokrError>(e),
        },
{
    let tseeds = seeds3(
        transfer_tag_bytes(),
        address_bytes(&accounts.vault),
        address_bytes(&accounts.mint),
    );
    proof {
        assert(seeds_view(tseeds@) =~= seq![transfer_tag(), accounts.vault@, accounts.mint@]);
    }
    let tk = match find_derived_address(&tseeds, program_id) {
        Some(tk) => tk,
        None => { return Err(TokrError::DerivationUnavailable(AccountRole::TransferAuthority)) },
    };
    if !address_eq(&tk.0, &accounts.transfer_authority) {
        return Err(TokrError::DerivationMismatch(AccountRole::TransferAuthority));
    }
    let ata = associated_holding_address(&accounts.destination, &accounts.fraction_mint);
    if !address_eq(&ata, &accounts.destination_ata) {
        return Err(TokrError::DerivationMismatch(AccountRole::DestinationHolding));
    }
    let spl = token_program_id();
    if !address_eq(&accounts.token_program, &spl) {
        return Err(TokrError::WrongProgramAccount(AccountRole::TokenProgram));
    }

    let mut plan: Vec<PlannedCall> = Vec::new();
    if !destination_exists {
        plan.push(
            PlannedCall {
                call: Call::CreateAssociatedHolding {
                    payer: accounts.payer,
                    wallet: accounts.destination,
                    mint: accounts.fraction_mint,
                },
                signers: Vec::new(),
            },
        );
    }
    plan.push(
        PlannedCall {
            call: Call::WithdrawShares {
                destination: accounts.destination_ata,
                fraction_treasury: accounts.fraction_treasury,
                vault: accounts.vault,
                transfer_authority: accounts.transfer_authority,
                vault_authority: accounts.vault_authority,
                number_of_shares,
            },
            signers: one_signer(
                signer3(
                    transfer_tag_bytes(),
                    address_bytes(&accounts.vault),
                    address_bytes(&accounts.mint),
                    tk.1,
                ),
            ),
        },
    );
    proof {
        let expected = send_share_calls(accounts@, number_of_shares, destination_exists, tk.1);
        if destination_exists {
            assert(calls_view(plan@).len() == 1);
            assert(calls_view(plan@)[0].signers =~~= expected[0].signers);
        } else {
            assert(calls_view(plan@).len() == 2);
            assert(calls_view(plan@)[0].signers =~~= expected[0].signers);
            assert(calls_view(plan@)[1].signers =~~= expected[1].signers);
        }
        assert(calls_view(plan@) =~~= expected);
    }
    Ok(plan)
}

/// The send-share workflow model: whether the destination holding exists
/// is probed on the ledger before the withdrawal is planned.
pub open spec fn send_share_model(
    l: Map<Seq<u8>, RecV>,
    a: SendShareAccountsV,
    number_of_shares: u64,
    pid: Seq<u8>,
) -> Result<Map<Seq<u8>, RecV>, TokrError> {
    match send_share_plan(a, number_of_shares, holding_at(l, a.destination_ata) is Some, pid) {
        Ok(p) => run_model(l, p),
        Err(e) => Err(e),
    }
}

/// Send shares from the fraction treasury to a destination: probe whether
/// the destination's canonical holding account exists, create it first if
/// absent, then withdraw the shares signed with the derived transfer
/// authority's seed material.
pub fn send_share(
    ledger: &Ledger,
    accounts: &SendShareAccounts,
    number_of_shares: u64,
    program_id: &Address,
) -> (r: Result<Ledger, TokrError>)
    ensures
        res_view(r) == send_share_model(ledger@, accounts@, number_of_shares, program_id@),
{
    let destination_exists = match get_holding(ledger, &accounts.destination_ata) {
        Some(_) => true,
        None => false,
    };
    let plan = match plan_send_share(accounts, number_of_shares, destination_exists, program_id) {
        Ok(p) => p,
        Err(e) => { return Err(e) },
    };
    let mut scratch = ledger.duplicate();
    match run_calls(&mut scratch, &plan) {
        Ok(_) => Ok(scratch),
        Err(e) => Err(e),
    }
}

/// What one whole invocation does to the ledger: decode the envelope,
/// bind the positional account list to the workflow's named roles, and
/// run that workflow; the first failure aborts the invocation with its
/// error and the ledger untouched.
pub open spec fn process_model(
    l: Map<Seq<u8>, RecV>,
    accts: Seq<crate::accounts::AccountRefV>,
    data: Seq<u8>,
    pid: Seq<u8>,
) -> Result<Map<Seq<u8>, RecV>, TokrError> {
    match crate::instruction::decode_model(data) {
        None => Err(TokrError::InvalidInstructionData),
        Some(iv) => match iv {
            crate::instruction::TokrizerInstructionV::MintTokrNft(args) => match crate::accounts::bind_mint_nft_model(
                accts,
            ) {
                Ok(a) => mint_nft_model(l, a, args, pid),
                Err(e) => Err(e),
            },
            crate::instruction::TokrizerInstructionV::CreateVault(args) => match crate::accounts::bind_create_vault_model(
                accts,
            ) {
                Ok(a) => create_vault_model(l, a, args, pid),
                Err(e) => Err(e),
            },
            crate::instruction::TokrizerInstructionV::AddNftToVault => match crate::accounts::bind_add_nft_model(
                accts,
            ) {
                Ok(a) => add_nft_model(l, a, pid),
                Err(e) => Err(e),
            },
            crate::instruction::TokrizerInstructionV::Fractionalize(args) => match crate::accounts::bind_fractionalize_model(
                accts,
            ) {
                Ok(a) => fractionalize_model(l, a, args.number_of_shares),
                Err(e) => Err(e),
            },
            crate::instruction::TokrizerInstructionV::SendShare(args) => match crate::accounts::bind_send_share_model(
                accts,
            ) {
                Ok(a) => send_share_model(l, a, args.number_of_shares, pid),
                Err(e) => Err(e),
            },
        },
    }
}

/// Decode one instruction envelope and run the workflow it names against
/// the supplied positional account list.
pub fn process(
    ledger: &Ledger,
    program_id: &Address,
    accounts: &Vec<crate::accounts::AccountRef>,
    instruction_data: &Vec<u8>,
) -> (r: Result<Ledger, TokrError>)
    ensures
        res_view(r) == process_model(
            ledger@,
            crate::accounts::refs_view(accounts@),
            instruction_data@,
            program_id@,
        ),
{
    let decoded = match crate::instruction::decode_instruction(instruction_data) {
        Some(i) => i,
        None => { return Err(TokrError::InvalidInstructionData) },
    };
    match decoded {
        crate::instruction::TokrizerInstruction::MintTokrNft(args) => {
            let bound = match crate::accounts::bind_mint_nft(accounts) {
                Ok(a) => a,
                Err(e) => { return Err(e) },
            };
            mint_nft(
                ledger,
                &bound,
                args.name,
                args.symbol,
                args.uri,
                args.mint_bump,
                args.mint_seed,
                program_id,
            )
        },
        crate::instruction::TokrizerInstruction::CreateVault(args) => {
            let bound = match crate::accounts::bind_create_vault(accounts) {
                Ok(a) => a,
                Err(e) => { return Err(e) },
            };
            create_vault(ledger, &bound, args.vault_seed, args.vault_bump, program_id)
        },
        crate::instruction::TokrizerInstruction::AddNftToVault => {
            let bound = match crate::accounts::bind_add_nft(accounts) {
                Ok(a) => a,
                Err(e) => { return Err(e) },
            };
            add_nft_to_vault(ledger, &bound, program_id)
        },
        crate::instruction::TokrizerInstruction::Fractionalize(args) => {
            let bound = match crate::accounts::bind_fractionalize(accounts) {
                Ok(a) => a,
                Err(e) => { return Err(e) },
            };
            fractionalize(ledger, &bound, args.number_of_shares, program_id)
        },
        crate::instruction::TokrizerInstruction::SendShare(args) => {
            let bound = match crate::accounts::bind_send_share(accounts) {
                Ok(a) => a,
                Err(e) => { return Err(e) },
            };
            send_share(ledger, &bound, args.number_of_shares, program_id)
        },
    }
}

} // verus!
