//! The orchestrator's laws: what each workflow guarantees of the ledger
//! model, proved from the workflow models and the collaborator call
//! contracts.

use vstd::prelude::*;
use vstd::utf8::encode_utf8;
use crate::accounts::{
    AddNftAccountsV, CreateVaultAccountsV, FractionalizeAccountsV, MintNftAccountsV,
    SendShareAccountsV,
};
use crate::calls::PlannedCallV;
use crate::errors::{AccountRole, TokrError};
use crate::instruction::{MintArgsV, VaultArgsV};
use crate::keys::{ata_of, derivation_of, metadata_prefix_bytes, native_mint_id_bytes, spl_token_id_bytes};
use crate::processor::{
    add_nft_model, add_nft_plan, create_vault_model, create_vault_plan, fractionalize_model,
    fractionalize_calls, mint_nft_model, mint_nft_plan, mint_seed_parts, send_share_model,
    send_share_plan, store_tag, transfer_tag,
};
use crate::semantics::{
    HOLDING_ACCOUNT_LEN, MINT_ACCOUNT_LEN, apply_add_token_model, apply_mint_units_model,
    apply_model, holding_at, mint_at, run_model, vault_at,
};
use crate::state::{
    DelegationV, HoldingRecV, MetadataRecV, MintRecV, RecV, VaultRecV, VaultState,
};

verus! {

/// After a successful mint-NFT workflow the mint exists with total
/// supply one, zero decimals, the payer as mint authority and the
/// program as freeze authority; the destination's canonical holding
/// account holds exactly that one unit; the metadata record is attached
/// with its single creator verified at a share of 100; and no other
/// ledger account changes.
pub proof fn lemma_mint_nft_success(
    l: Map<Seq<u8>, RecV>,
    a: MintNftAccountsV,
    args: MintArgsV,
    pid: Seq<u8>,
)
    requires
        derivation_of(mint_seed_parts(args, a), pid) == Some((a.mint, args.mint_bump)),
        derivation_of(
            seq![metadata_prefix_bytes(), a.metadata_program, a.mint],
            a.metadata_program,
        ) matches Some(mk) && mk.0 == a.metadata_account,
        ata_of(a.destination, a.mint) == a.token_account,
        a.token_program == spl_token_id_bytes(),
        !l.contains_key(a.mint),
        !l.contains_key(a.token_account),
        !l.contains_key(a.metadata_account),
        a.mint != a.token_account,
        a.mint != a.metadata_account,
        a.token_account != a.metadata_account,
    ensures
        mint_nft_model(l, a, args, pid) matches Ok(l2) && l2 == l.insert(
            a.mint,
            RecV::Mint(
                MintRecV {
                    supply: 1,
                    decimals: 0,
                    mint_authority: a.payer,
                    freeze_authority: Some(pid),
                },
            ),
        ).insert(
            a.token_account,
            RecV::Holding(
                HoldingRecV { mint: a.mint, owner: a.destination, amount: 1, delegation: None },
            ),
        ).insert(
            a.metadata_account,
            RecV::Metadata(
                MetadataRecV {
                    mint: a.mint,
                    update_authority: a.payer,
                    name: args.name,
                    symbol: args.symbol,
                    uri: args.uri,
                    creator: a.creator,
                    creator_verified: true,
                    creator_share: 100,
                },
            ),
        ),
        mint_at(mint_nft_model(l, a, args, pid)->Ok_0, a.mint) matches Some(m) && m.supply == 1
            && m.decimals == 0,
        holding_at(mint_nft_model(l, a, args, pid)->Ok_0, a.token_account) matches Some(h)
            && h.amount == 1 && h.mint == a.mint && h.owner == a.destination,
{
    let p = mint_nft_plan(a, args, pid)->Ok_0;
    assert(p.len() == 5);
    let mk = derivation_of(
        seq![metadata_prefix_bytes(), a.metadata_program, a.mint],
        a.metadata_program,
    )->0;

    let l1 = l.insert(
        a.mint,
        RecV::Raw(
            crate::state::RawRecV { space: MINT_ACCOUNT_LEN, owner: spl_token_id_bytes() },
        ),
    );
    assert(apply_model(l, p[0].call) == Ok::<Map<Seq<u8>, RecV>, TokrError>(l1));
    assert(run_model(l, p) == run_model(l1, p.skip(1)));

    let l2 = l1.insert(
        a.mint,
        RecV::Mint(
            MintRecV { supply: 0, decimals: 0, mint_authority: a.payer, freeze_authority: Some(pid) },
        ),
    );
    assert(p.skip(1)[0] == p[1]);
    assert(apply_model(l1, p[1].call) == Ok::<Map<Seq<u8>, RecV>, TokrError>(l2));
    assert(p.skip(1).skip(1) =~= p.skip(2));
    assert(run_model(l1, p.skip(1)) == run_model(l2, p.skip(2)));

    let l3 = l2.insert(
        a.token_account,
        RecV::Holding(
            HoldingRecV { mint: a.mint, owner: a.destination, amount: 0, delegation: None },
        ),
    );
    assert(p.skip(2)[0] == p[2]);
    assert(apply_model(l2, p[2].call) == Ok::<Map<Seq<u8>, RecV>, TokrError>(l3));
    assert(p.skip(2).skip(1) =~= p.skip(3));
    assert(run_model(l2, p.skip(2)) == run_model(l3, p.skip(3)));

    let l4 = l3.insert(
        a.metadata_account,
        RecV::Metadata(
            MetadataRecV {
                mint: a.mint,
                update_authority: a.payer,
                name: args.name,
                symbol: args.symbol,
                uri: args.uri,
                creator: a.creator,
                creator_verified: true,
                creator_share: 100,
            },
        ),
    );
    assert(p.skip(3)[0] == p[3]);
    assert(apply_model(l3, p[3].call) == Ok::<Map<Seq<u8>, RecV>, TokrError>(l4));
    assert(p.skip(3).skip(1) =~= p.skip(4));
    assert(run_model(l3, p.skip(3)) == run_model(l4, p.skip(4)));

    let l5 = l4.insert(
        a.mint,
        RecV::Mint(
            MintRecV { supply: 1, decimals: 0, mint_authority: a.payer, freeze_authority: Some(pid) },
        ),
    ).insert(
        a.token_account,
        RecV::Holding(
            HoldingRecV { mint: a.mint, owner: a.destination, amount: 1, delegation: None },
        ),
    );
    assert(p.skip(4)[0] == p[4]);
    assert(apply_model(l4, p[4].call) == Ok::<Map<Seq<u8>, RecV>, TokrError>(l5));
    assert(p.skip(4).skip(1) =~= p.skip(5));
    assert(run_model(l4, p.skip(4)) == run_model(l5, p.skip(5)));
    assert(p.skip(5) =~= Seq::<PlannedCallV>::empty());
    assert(run_model(l4, p.skip(4)) == run_model(l5, p.skip(5)));
    assert(run_model(l5, p.skip(5)) == Ok::<Map<Seq<u8>, RecV>, TokrError>(l5));

    assert(l5 =~= l.insert(
        a.mint,
        RecV::Mint(
            MintRecV { supply: 1, decimals: 0, mint_authority: a.payer, freeze_authority: Some(pid) },
        ),
    ).insert(
        a.token_account,
        RecV::Holding(
            HoldingRecV { mint: a.mint, owner: a.destination, amount: 1, delegation: None },
        ),
    ).insert(
        a.metadata_account,
        RecV::Metadata(
            MetadataRecV {
                mint: a.mint,
                update_authority: a.payer,
                name: args.name,
                symbol: args.symbol,
                uri: args.uri,
                creator: a.creator,
                creator_verified: true,
                creator_share: 100,
            },
        ),
    ));
}

/// A non-fungible mint never exceeds a total supply of one: once a unit
/// has been minted through a zero-decimals mint, minting any further
/// unit through it fails.
pub proof fn lemma_second_unit_rejected(
    l: Map<Seq<u8>, RecV>,
    mint: Seq<u8>,
    destination: Seq<u8>,
    authority: Seq<u8>,
    amount: u64,
)
    requires
        mint_at(l, mint) matches Some(m) && m.decimals == 0 && m.supply >= 1 && m.mint_authority
            == authority && m.supply + amount <= u64::MAX,
        holding_at(l, destination) matches Some(h) && h.mint == mint,
        amount >= 1,
    ensures
        apply_mint_units_model(l, mint, destination, authority, amount) == Err::<
            Map<Seq<u8>, RecV>,
            TokrError,
        >(TokrError::MaxSupplyExceeded),
{
}

/// A mint address that does not match its re-derivation aborts the
/// mint-NFT workflow with a derivation-mismatch error before any call is
/// planned or issued: no ledger account is touched on any ledger.
pub proof fn lemma_mint_nft_mismatch_no_effect(
    l: Map<Seq<u8>, RecV>,
    a: MintNftAccountsV,
    args: MintArgsV,
    pid: Seq<u8>,
)
    requires
        derivation_of(mint_seed_parts(args, a), pid) matches Some(kb) && kb.0 != a.mint,
    ensures
        mint_nft_model(l, a, args, pid) == Err::<Map<Seq<u8>, RecV>, TokrError>(
            TokrError::DerivationMismatch(AccountRole::Mint),
        ),
        mint_nft_plan(a, args, pid) is Err,
{
}

/// A bump that does not match the re-derived bump aborts the mint-NFT
/// workflow the same way.
pub proof fn lemma_mint_nft_bump_mismatch_no_effect(
    l: Map<Seq<u8>, RecV>,
    a: MintNftAccountsV,
    args: MintArgsV,
    pid: Seq<u8>,
)
    requires
        derivation_of(mint_seed_parts(args, a), pid) matches Some(kb) && kb.0 == a.mint && kb.1
            != args.mint_bump,
    ensures
        mint_nft_model(l, a, args, pid) == Err::<Map<Seq<u8>, RecV>, TokrError>(
            TokrError::BumpMismatch(AccountRole::Mint),
        ),
{
}

/// After a successful create-vault workflow the vault exists in the
/// inactive state, with no deposits, further issuance disallowed, and
/// both of its treasuries exist with balance zero.
#[verifier::rlimit(100)]
pub proof fn lemma_create_vault_success(
    l: Map<Seq<u8>, RecV>,
    a: CreateVaultAccountsV,
    args: VaultArgsV,
    pid: Seq<u8>,
)
    requires
        derivation_of(seq![a.payer, a.token_vault_program, encode_utf8(args.vault_seed)], pid)
            == Some((a.vault, args.vault_bump)),
        derivation_of(seq![crate::processor::external_tag(), a.vault, a.payer], pid)
            matches Some(ek) && ek.0 == a.external_pricing,
        derivation_of(seq![crate::processor::fraction_tag(), a.vault, a.payer], pid)
            matches Some(fk) && fk.0 == a.fraction_mint,
        ata_of(a.vault_mint_authority, a.fraction_mint) == a.fraction_treasury,
        ata_of(a.vault_mint_authority, native_mint_id_bytes()) == a.redeem_treasury,
        a.token_program == spl_token_id_bytes(),
        mint_at(l, native_mint_id_bytes()) is Some,
        !l.contains_key(a.vault),
        !l.contains_key(a.external_pricing),
        !l.contains_key(a.fraction_mint),
        !l.contains_key(a.fraction_treasury),
        !l.contains_key(a.redeem_treasury),
        a.vault != a.external_pricing,
        a.vault != a.fraction_mint,
        a.vault != a.fraction_treasury,
        a.vault != a.redeem_treasury,
        a.external_pricing != a.fraction_mint,
        a.external_pricing != a.fraction_treasury,
        a.external_pricing != a.redeem_treasury,
        a.fraction_mint != a.fraction_treasury,
        a.fraction_mint != a.redeem_treasury,
        a.fraction_treasury != a.redeem_treasury,
    ensures
        create_vault_model(l, a, args, pid) is Ok,
        vault_at(create_vault_model(l, a, args, pid)->Ok_0, a.vault) == Some(
            VaultRecV {
                state: VaultState::Inactive,
                authority: a.vault_authority,
                fraction_mint: a.fraction_mint,
                redeem_treasury: a.redeem_treasury,
                fraction_treasury: a.fraction_treasury,
                pricing_lookup: a.external_pricing,
                allow_further_share_creation: false,
                token_type_count: 0,
            },
        ),
        holding_at(create_vault_model(l, a, args, pid)->Ok_0, a.fraction_treasury) matches Some(ft)
            && ft.amount == 0,
        holding_at(create_vault_model(l, a, args, pid)->Ok_0, a.redeem_treasury) matches Some(rt)
            && rt.amount == 0,
{
    let ek = derivation_of(seq![crate::processor::external_tag(), a.vault, a.payer], pid)->0;
    let fk = derivation_of(seq![crate::processor::fraction_tag(), a.vault, a.payer], pid)->0;
    let p = create_vault_plan(a, args, pid)->Ok_0;
    assert(p =~= crate::processor::create_vault_calls(a, args, ek.1, fk.1));
    assert(p.len() == 8);

    let l1 = l.insert(
        a.external_pricing,
        RecV::Raw(
            crate::state::RawRecV {
                space: crate::semantics::PRICE_ACCOUNT_LEN,
                owner: a.token_vault_program,
            },
        ),
    );
    assert(apply_model(l, p[0].call) == Ok::<Map<Seq<u8>, RecV>, TokrError>(l1));
    assert(run_model(l, p) == run_model(l1, p.skip(1)));

    let l2 = l1.insert(
        a.external_pricing,
        RecV::Price(
            crate::state::PriceRecV {
                price_per_share: 0,
                price_mint: native_mint_id_bytes(),
                allowed_to_combine: true,
            },
        ),
    );
    assert(p.skip(1)[0] == p[1]);
    assert(apply_model(l1, p[1].call) == Ok::<Map<Seq<u8>, RecV>, TokrError>(l2));
    assert(p.skip(1).skip(1) =~= p.skip(2));
    assert(run_model(l1, p.skip(1)) == run_model(l2, p.skip(2)));

    let l3 = l2.insert(
        a.fraction_mint,
        RecV::Raw(
            crate::state::RawRecV { space: MINT_ACCOUNT_LEN, owner: spl_token_id_bytes() },
        ),
    );
    assert(p.skip(2)[0] == p[2]);
    assert(apply_model(l2, p[2].call) == Ok::<Map<Seq<u8>, RecV>, TokrError>(l3));
    assert(p.skip(2).skip(1) =~= p.skip(3));
    assert(run_model(l2, p.skip(2)) == run_model(l3, p.skip(3)));

    let l4 = l3.insert(
        a.fraction_mint,
        RecV::Mint(
            MintRecV {
                supply: 0,
                decimals: 0,
                mint_authority: a.vault_mint_authority,
                freeze_authority: Some(a.vault_mint_authority),
            },
        ),
    );
    assert(p.skip(3)[0] == p[3]);
    assert(apply_model(l3, p[3].call) == Ok::<Map<Seq<u8>, RecV>, TokrError>(l4));
    assert(p.skip(3).skip(1) =~= p.skip(4));
    assert(run_model(l3, p.skip(3)) == run_model(l4, p.skip(4)));

    let l5 = l4.insert(
        a.fraction_treasury,
        RecV::Holding(
            HoldingRecV {
                mint: a.fraction_mint,
                owner: a.vault_mint_authority,
                amount: 0,
                delegation: None,
            },
        ),
    );
    assert(p.skip(4)[0] == p[4]);
    assert(apply_model(l4, p[4].call) == Ok::<Map<Seq<u8>, RecV>, TokrError>(l5));
    assert(p.skip(4).skip(1) =~= p.skip(5));
    assert(run_model(l4, p.skip(4)) == run_model(l5, p.skip(5)));

    let l6 = l5.insert(
        a.redeem_treasury,
        RecV::Holding(
            HoldingRecV {
                mint: native_mint_id_bytes(),
                owner: a.vault_mint_authority,
                amount: 0,
                delegation: None,
            },
        ),
    );
    assert(p.skip(5)[0] == p[5]);
    assert(mint_at(l5, native_mint_id_bytes()) is Some);
    assert(apply_model(l5, p[5].call) == Ok::<Map<Seq<u8>, RecV>, TokrError>(l6));
    assert(p.skip(5).skip(1) =~= p.skip(6));
    assert(run_model(l5, p.skip(5)) == run_model(l6, p.skip(6)));

    let l7 = l6.insert(
        a.vault,
        RecV::Raw(
            crate::state::RawRecV {
                space: crate::semantics::VAULT_ACCOUNT_LEN,
                owner: a.token_vault_program,
            },
        ),
    );
    assert(p.skip(6)[0] == p[6]);
    assert(apply_model(l6, p[6].call) == Ok::<Map<Seq<u8>, RecV>, TokrError>(l7));
    assert(p.skip(6).skip(1) =~= p.skip(7));
    assert(run_model(l6, p.skip(6)) == run_model(l7, p.skip(7)));

    let l8 = l7.insert(
        a.vault,
        RecV::Vault(
            VaultRecV {
                state: VaultState::Inactive,
                authority: a.vault_authority,
                fraction_mint: a.fraction_mint,
                redeem_treasury: a.redeem_treasury,
                fraction_treasury: a.fraction_treasury,
                pricing_lookup: a.external_pricing,
                allow_further_share_creation: false,
                token_type_count: 0,
            },
        ),
    );
    assert(p.skip(7)[0] == p[7]);
    assert(apply_model(l7, p[7].call) == Ok::<Map<Seq<u8>, RecV>, TokrError>(l8));
    assert(p.skip(7).skip(1) =~= p.skip(8));
    assert(run_model(l7, p.skip(7)) == run_model(l8, p.skip(8)));
    assert(p.skip(8) =~= Seq::<PlannedCallV>::empty());
    assert(run_model(l8, p.skip(8)) == Ok::<Map<Seq<u8>, RecV>, TokrError>(l8));
    assert(run_model(l, p) == Ok::<Map<Seq<u8>, RecV>, TokrError>(l8));
}

/// Fractionalize on an inactive vault activates it and mints the share
/// count into the fraction treasury: afterwards the vault is active, the
/// treasury balance has grown by exactly the share count, and so has the
/// fractional mint's supply.
pub proof fn lemma_fractionalize_activates(
    l: Map<Seq<u8>, RecV>,
    a: FractionalizeAccountsV,
    number_of_shares: u64,
)
    requires
        vault_at(l, a.vault) matches Some(v) && v.state == VaultState::Inactive && v.authority
            == a.vault_authority && v.fraction_mint == a.fraction_mint && v.fraction_treasury
            == a.fraction_treasury,
        mint_at(l, a.fraction_mint) matches Some(fm) && fm.supply + number_of_shares <= u64::MAX,
        holding_at(l, a.fraction_treasury) matches Some(ft) && ft.mint == a.fraction_mint
            && ft.amount + number_of_shares <= u64::MAX,
    ensures
        fractionalize_model(l, a, number_of_shares) is Ok,
        vault_at(fractionalize_model(l, a, number_of_shares)->Ok_0, a.vault) matches Some(v2)
            && v2.state == VaultState::Active,
        holding_at(fractionalize_model(l, a, number_of_shares)->Ok_0, a.fraction_treasury)
            matches Some(ft2) && ft2.amount == holding_at(l, a.fraction_treasury)->0.amount
            + number_of_shares,
        mint_at(fractionalize_model(l, a, number_of_shares)->Ok_0, a.fraction_mint) matches Some(
            fm2,
        ) && fm2.supply == mint_at(l, a.fraction_mint)->0.supply + number_of_shares,
{
    let v = vault_at(l, a.vault)->0;
    let fm = mint_at(l, a.fraction_mint)->0;
    let ft = holding_at(l, a.fraction_treasury)->0;
    let p = fractionalize_calls(a, number_of_shares, v.state);
    assert(p.len() == 1);
    let l2 = l.insert(a.vault, RecV::Vault(VaultRecV { state: VaultState::Active, ..v })).insert(
        a.fraction_mint,
        RecV::Mint(MintRecV { supply: (fm.supply + number_of_shares) as u64, ..fm }),
    ).insert(
        a.fraction_treasury,
        RecV::Holding(HoldingRecV { amount: (ft.amount + number_of_shares) as u64, ..ft }),
    );
    assert(apply_model(l, p[0].call) == Ok::<Map<Seq<u8>, RecV>, TokrError>(l2));
    assert(run_model(l, p) == run_model(l2, p.skip(1)));
    assert(p.skip(1) =~= Seq::<PlannedCallV>::empty());
    assert(run_model(l2, p.skip(1)) == Ok::<Map<Seq<u8>, RecV>, TokrError>(l2));
    assert(run_model(l, p) == Ok::<Map<Seq<u8>, RecV>, TokrError>(l2));
}

/// Fractionalize on an active vault whose further issuance was
/// disallowed fails, and no new ledger is produced: the treasury balance
/// is unchanged.
pub proof fn lemma_fractionalize_forbidden(
    l: Map<Seq<u8>, RecV>,
    a: FractionalizeAccountsV,
    number_of_shares: u64,
)
    requires
        vault_at(l, a.vault) matches Some(v) && v.state == VaultState::Active
            && !v.allow_further_share_creation,
    ensures
        fractionalize_model(l, a, number_of_shares) == Err::<Map<Seq<u8>, RecV>, TokrError>(
            TokrError::SharesIssuanceForbidden,
        ),
{
    let v = vault_at(l, a.vault)->0;
    let p = fractionalize_calls(a, number_of_shares, v.state);
    assert(p.len() == 1);
    assert(apply_model(l, p[0].call) == Err::<Map<Seq<u8>, RecV>, TokrError>(
        TokrError::SharesIssuanceForbidden,
    ));
}

/// Send-share to a destination with no existing holding account first
/// creates the canonical holding account, then withdraws: afterwards the
/// destination holds exactly the share count, the treasury has given up
/// exactly the share count, and their combined balance is what the
/// treasury alone held before — shares outstanding are conserved.
pub proof fn lemma_send_share_creates_and_conserves(
    l: Map<Seq<u8>, RecV>,
    a: SendShareAccountsV,
    number_of_shares: u64,
    pid: Seq<u8>,
)
    requires
        derivation_of(seq![transfer_tag(), a.vault, a.mint], pid) matches Some(tk) && tk.0
            == a.transfer_authority,
        ata_of(a.destination, a.fraction_mint) == a.destination_ata,
        a.token_program == spl_token_id_bytes(),
        holding_at(l, a.destination_ata) is None,
        !l.contains_key(a.destination_ata),
        mint_at(l, a.fraction_mint) is Some,
        vault_at(l, a.vault) matches Some(v) && v.state == VaultState::Active && v.authority
            == a.vault_authority && v.fraction_treasury == a.fraction_treasury,
        holding_at(l, a.fraction_treasury) matches Some(ft) && ft.mint == a.fraction_mint
            && ft.amount >= number_of_shares,
    ensures
        send_share_model(l, a, number_of_shares, pid) is Ok,
        holding_at(send_share_model(l, a, number_of_shares, pid)->Ok_0, a.destination_ata)
            matches Some(d2) && d2.amount == number_of_shares,
        holding_at(send_share_model(l, a, number_of_shares, pid)->Ok_0, a.fraction_treasury)
            matches Some(ft2) && ft2.amount == holding_at(l, a.fraction_treasury)->0.amount
            - number_of_shares,
        holding_at(send_share_model(l, a, number_of_shares, pid)->Ok_0, a.destination_ata)->0.amount
            + holding_at(send_share_model(l, a, number_of_shares, pid)->Ok_0, a.fraction_treasury)
            ->0.amount == holding_at(l, a.fraction_treasury)->0.amount,
{
    let tk = derivation_of(seq![transfer_tag(), a.vault, a.mint], pid)->0;
    let ft = holding_at(l, a.fraction_treasury)->0;
    let p = send_share_plan(a, number_of_shares, false, pid)->Ok_0;
    assert(p =~= crate::processor::send_share_calls(a, number_of_shares, false, tk.1));
    assert(p.len() == 2);

    let l1 = l.insert(
        a.destination_ata,
        RecV::Holding(
            HoldingRecV {
                mint: a.fraction_mint,
                owner: a.destination,
                amount: 0,
                delegation: None,
            },
        ),
    );
    assert(apply_model(l, p[0].call) == Ok::<Map<Seq<u8>, RecV>, TokrError>(l1));
    assert(run_model(l, p) == run_model(l1, p.skip(1)));

    assert(a.destination_ata != a.fraction_treasury);
    assert(a.destination_ata != a.vault);
    let l2 = l1.insert(
        a.fraction_treasury,
        RecV::Holding(HoldingRecV { amount: (ft.amount - number_of_shares) as u64, ..ft }),
    ).insert(
        a.destination_ata,
        RecV::Holding(
            HoldingRecV {
                mint: a.fraction_mint,
                owner: a.destination,
                amount: number_of_shares,
                delegation: None,
            },
        ),
    );
    assert(p.skip(1)[0] == p[1]);
    assert(apply_model(l1, p[1].call) == Ok::<Map<Seq<u8>, RecV>, TokrError>(l2));
    assert(p.skip(1).skip(1) =~= p.skip(2));
    assert(run_model(l1, p.skip(1)) == run_model(l2, p.skip(2)));
    assert(p.skip(2) =~= Seq::<PlannedCallV>::empty());
    assert(run_model(l, p) == Ok::<Map<Seq<u8>, RecV>, TokrError>(l2));
}

/// The vault program's state guard: a deposit into a vault that is no
/// longer inactive is rejected, whatever else the call carries.
pub proof fn lemma_deposit_requires_inactive(
    l: Map<Seq<u8>, RecV>,
    safety_deposit_box: Seq<u8>,
    token_account: Seq<u8>,
    store: Seq<u8>,
    vault: Seq<u8>,
    vault_authority: Seq<u8>,
    transfer_authority: Seq<u8>,
    amount: u64,
)
    requires
        vault_at(l, vault) matches Some(v) && v.state != VaultState::Inactive,
    ensures
        apply_add_token_model(
            l,
            safety_deposit_box,
            token_account,
            store,
            vault,
            vault_authority,
            transfer_authority,
            amount,
        ) == Err::<Map<Seq<u8>, RecV>, TokrError>(TokrError::VaultShouldBeInactive),
{
}

/// The whole deposit workflow on an already-active vault aborts with the
/// state-guard error: the derived store is created and the delegation
/// approved on the scratch ledger, but the vault primitive rejects the
/// deposit itself, so the workflow returns no ledger.
pub proof fn lemma_add_nft_after_activation_rejected(
    l: Map<Seq<u8>, RecV>,
    a: AddNftAccountsV,
    pid: Seq<u8>,
)
    requires
        derivation_of(seq![transfer_tag(), a.vault, a.mint], pid) matches Some(tk) && tk.0
            == a.transfer_authority,
        derivation_of(seq![store_tag(), a.vault, a.mint], pid) matches Some(sk) && sk.0
            == a.token_store,
        a.token_program == spl_token_id_bytes(),
        !l.contains_key(a.token_store),
        mint_at(l, a.mint) is Some,
        holding_at(l, a.token_account) matches Some(h) && h.owner == a.payer,
        vault_at(l, a.vault) matches Some(v) && v.state == VaultState::Active,
    ensures
        add_nft_model(l, a, pid) == Err::<Map<Seq<u8>, RecV>, TokrError>(
            TokrError::VaultShouldBeInactive,
        ),
{
    let tk = derivation_of(seq![transfer_tag(), a.vault, a.mint], pid)->0;
    let sk = derivation_of(seq![store_tag(), a.vault, a.mint], pid)->0;
    let h = holding_at(l, a.token_account)->0;
    let p = add_nft_plan(a, pid)->Ok_0;
    assert(p =~= crate::processor::add_nft_calls(a, tk.1, sk.1));
    assert(p.len() == 4);

    let l1 = l.insert(
        a.token_store,
        RecV::Raw(
            crate::state::RawRecV { space: HOLDING_ACCOUNT_LEN, owner: spl_token_id_bytes() },
        ),
    );
    assert(apply_model(l, p[0].call) == Ok::<Map<Seq<u8>, RecV>, TokrError>(l1));
    assert(run_model(l, p) == run_model(l1, p.skip(1)));

    let l2 = l1.insert(
        a.token_store,
        RecV::Holding(
            HoldingRecV {
                mint: a.mint,
                owner: a.vault_mint_authority,
                amount: 0,
                delegation: None,
            },
        ),
    );
    assert(p.skip(1)[0] == p[1]);
    assert(apply_model(l1, p[1].call) == Ok::<Map<Seq<u8>, RecV>, TokrError>(l2));
    assert(p.skip(1).skip(1) =~= p.skip(2));
    assert(run_model(l1, p.skip(1)) == run_model(l2, p.skip(2)));

    let l3 = l2.insert(
        a.token_account,
        RecV::Holding(
            HoldingRecV {
                delegation: Some(DelegationV { delegate: a.transfer_authority, amount: 1 }),
                ..h
            },
        ),
    );
    assert(p.skip(2)[0] == p[2]);
    assert(a.token_account != a.token_store);
    assert(apply_model(l2, p[2].call) == Ok::<Map<Seq<u8>, RecV>, TokrError>(l3));
    assert(p.skip(2).skip(1) =~= p.skip(3));
    assert(run_model(l2, p.skip(2)) == run_model(l3, p.skip(3)));

    assert(p.skip(3)[0] == p[3]);
    assert(a.vault != a.token_store);
    assert(a.vault != a.token_account);
    assert(vault_at(l3, a.vault) == vault_at(l, a.vault));
    assert(apply_model(l3, p[3].call) == Err::<Map<Seq<u8>, RecV>, TokrError>(
        TokrError::VaultShouldBeInactive,
    ));
    assert(run_model(l3, p.skip(3)) == Err::<Map<Seq<u8>, RecV>, TokrError>(
        TokrError::VaultShouldBeInactive,
    ));
    assert(run_model(l, p) == Err::<Map<Seq<u8>, RecV>, TokrError>(
        TokrError::VaultShouldBeInactive,
    ));
}

} // verus!
