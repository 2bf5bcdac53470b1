//! The cross-contract calls a workflow issues, as plain data.  A workflow
//! plans an ordered sequence of these; the adapters turn each one into the
//! collaborating program's wire payload, and the ledger model gives each
//! one its meaning.

use vstd::prelude::*;
use crate::keys::{Address, SignerSeeds};

verus! {

/// One cross-contract call.
pub enum Call {
    /// Ask the host to allocate `space` bytes at `new_address`, funded
    /// with `lamports` by `payer` and owned by program `owner`.
    CreateAccount { payer: Address, new_address: Address, lamports: u64, space: u64, owner: Address },
    /// Initialize a mint record with the given authorities and decimals.
    InitializeMint { mint: Address, mint_authority: Address, freeze_authority: Option<Address>, decimals: u8 },
    /// Initialize a holding account of `mint` owned by `owner`.
    InitializeHolding { account: Address, mint: Address, owner: Address },
    /// Create the canonical associated holding account of (`wallet`, `mint`).
    CreateAssociatedHolding { payer: Address, wallet: Address, mint: Address },
    /// Attach a descriptive record to `mint` with a single creator.
    AttachMetadata {
        metadata_program: Address,
        metadata_account: Address,
        mint: Address,
        mint_authority: Address,
        payer: Address,
        update_authority: Address,
        name: String,
        symbol: String,
        uri: String,
        creator: Address,
    },
    /// Mint `amount` units of `mint` into `destination`.
    MintUnits { mint: Address, destination: Address, authority: Address, amount: u64 },
    /// Let `delegate` move up to `amount` units out of `source` on behalf
    /// of `owner`.
    ApproveDelegate { source: Address, delegate: Address, owner: Address, amount: u64 },
    /// Initialize or update an external price record.
    UpdateExternalPrice {
        vault_program: Address,
        account: Address,
        price_per_share: u64,
        price_mint: Address,
        allowed_to_combine: bool,
    },
    /// Initialize a vault record, state inactive.
    InitVault {
        vault_program: Address,
        fraction_mint: Address,
        redeem_treasury: Address,
        fraction_treasury: Address,
        vault: Address,
        vault_authority: Address,
        pricing_lookup: Address,
        allow_further_share_creation: bool,
    },
    /// Move `amount` delegated units from `token_account` into `store` and
    /// record a new safety deposit box; the vault must still be inactive.
    AddTokenToVault {
        safety_deposit_box: Address,
        token_account: Address,
        store: Address,
        vault: Address,
        vault_authority: Address,
        payer: Address,
        transfer_authority: Address,
        amount: u64,
    },
    /// Take the vault from inactive to active, minting the initial share
    /// supply into the fraction treasury.
    ActivateVault {
        vault: Address,
        fraction_mint: Address,
        fraction_treasury: Address,
        fraction_mint_authority: Address,
        vault_authority: Address,
        number_of_shares: u64,
    },
    /// Mint additional shares into the treasury of an active vault that
    /// allows further issuance.
    MintShares {
        fraction_treasury: Address,
        fraction_mint: Address,
        vault: Address,
        fraction_mint_authority: Address,
        vault_authority: Address,
        number_of_shares: u64,
    },
    /// Move shares from the fraction treasury to a destination holding.
    WithdrawShares {
        destination: Address,
        fraction_treasury: Address,
        vault: Address,
        transfer_authority: Address,
        vault_authority: Address,
        number_of_shares: u64,
    },
}

/// View of `Call`.
#[verifier::ext_equal]
pub enum CallV {
    CreateAccount { payer: Seq<u8>, new_address: Seq<u8>, lamports: u64, space: u64, owner: Seq<u8> },
    InitializeMint { mint: Seq<u8>, mint_authority: Seq<u8>, freeze_authority: Option<Seq<u8>>, decimals: u8 },
    InitializeHolding { account: Seq<u8>, mint: Seq<u8>, owner: Seq<u8> },
    CreateAssociatedHolding { payer: Seq<u8>, wallet: Seq<u8>, mint: Seq<u8> },
    AttachMetadata {
        metadata_program: Seq<u8>,
        metadata_account: Seq<u8>,
        mint: Seq<u8>,
        mint_authority: Seq<u8>,
        payer: Seq<u8>,
        update_authority: Seq<u8>,
        name: Seq<char>,
        symbol: Seq<char>,
        uri: Seq<char>,
        creator: Seq<u8>,
    },
    MintUnits { mint: Seq<u8>, destination: Seq<u8>, authority: Seq<u8>, amount: u64 },
    ApproveDelegate { source: Seq<u8>, delegate: Seq<u8>, owner: Seq<u8>, amount: u64 },
    UpdateExternalPrice {
        vault_program: Seq<u8>,
        account: Seq<u8>,
        price_per_share: u64,
        price_mint: Seq<u8>,
        allowed_to_combine: bool,
    },
    InitVault {
        vault_program: Seq<u8>,
        fraction_mint: Seq<u8>,
        redeem_treasury: Seq<u8>,
        fraction_treasury: Seq<u8>,
        vault: Seq<u8>,
        vault_authority: Seq<u8>,
        pricing_lookup: Seq<u8>,
        allow_further_share_creation: bool,
    },
    AddTokenToVault {
        safety_deposit_box: Seq<u8>,
        token_account: Seq<u8>,
        store: Seq<u8>,
        vault: Seq<u8>,
        vault_authority: Seq<u8>,
        payer: Seq<u8>,
        transfer_authority: Seq<u8>,
        amount: u64,
    },
    ActivateVault {
        vault: Seq<u8>,
        fraction_mint: Seq<u8>,
        fraction_treasury: Seq<u8>,
        fraction_mint_authority: Seq<u8>,
        vault_authority: Seq<u8>,
        number_of_shares: u64,
    },
    MintShares {
        fraction_treasury: Seq<u8>,
        fraction_mint: Seq<u8>,
        vault: Seq<u8>,
        fraction_mint_authority: Seq<u8>,
        vault_authority: Seq<u8>,
        number_of_shares: u64,
    },
    WithdrawShares {
        destination: Seq<u8>,
        fraction_treasury: Seq<u8>,
        vault: Seq<u8>,
        transfer_authority: Seq<u8>,
        vault_authority: Seq<u8>,
        number_of_shares: u64,
    },
}

impl View for Call {
    type V = CallV;

    open spec fn view(&self) -> CallV {
        match self {
            Call::CreateAccount { payer, new_address, lamports, space, owner } => CallV::CreateAccount {
                payer: payer@,
                new_address: new_address@,
                lamports: *lamports,
                space: *space,
                owner: owner@,
            },
            Call::InitializeMint { mint, mint_authority, freeze_authority, decimals } => CallV::InitializeMint {
                mint: mint@,
                mint_authority: mint_authority@,
                freeze_authority: match freeze_authority {
                    Some(a) => Some(a@),
                    None => None,
                },
                decimals: *decimals,
            },
            Call::InitializeHolding { account, mint, owner } => CallV::InitializeHolding {
                account: account@,
                mint: mint@,
                owner: owner@,
            },
            Call::CreateAssociatedHolding { payer, wallet, mint } => CallV::CreateAssociatedHolding {
                payer: payer@,
                wallet: wallet@,
                mint: mint@,
            },
            Call::AttachMetadata {
                metadata_program,
                metadata_account,
                mint,
                mint_authority,
                payer,
                update_authority,
                name,
                symbol,
                uri,
                creator,
            } => CallV::AttachMetadata {
                metadata_program: metadata_program@,
                metadata_account: metadata_account@,
                mint: mint@,
                mint_authority: mint_authority@,
                payer: payer@,
                update_authority: update_authority@,
                name: name@,
                symbol: symbol@,
                uri: uri@,
                creator: creator@,
            },
            Call::MintUnits { mint, destination, authority, amount } => CallV::MintUnits {
                mint: mint@,
                destination: destination@,
                authority: authority@,
                amount: *amount,
            },
            Call::ApproveDelegate { source, delegate, owner, amount } => CallV::ApproveDelegate {
                source: source@,
                delegate: delegate@,
                owner: owner@,
                amount: *amount,
            },
            Call::UpdateExternalPrice {
                vault_program,
                account,
                price_per_share,
                price_mint,
                allowed_to_combine,
            } => CallV::UpdateExternalPrice {
                vault_program: vault_program@,
                account: account@,
                price_per_share: *price_per_share,
                price_mint: price_mint@,
                allowed_to_combine: *allowed_to_combine,
            },
            Call::InitVault {
                vault_program,
                fraction_mint,
                redeem_treasury,
                fraction_treasury,
                vault,
                vault_authority,
                pricing_lookup,
                allow_further_share_creation,
            } => CallV::InitVault {
                vault_program: vault_program@,
                fraction_mint: fraction_mint@,
                redeem_treasury: redeem_treasury@,
                fraction_treasury: fraction_treasury@,
                vault: vault@,
                vault_authority: vault_authority@,
                pricing_lookup: pricing_lookup@,
                allow_further_share_creation: *allow_further_share_creation,
            },
            Call::AddTokenToVault {
                safety_deposit_box,
                token_account,
                store,
                vault,
                vault_authority,
                payer,
                transfer_authority,
                amount,
            } => CallV::AddTokenToVault {
                safety_deposit_box: safety_deposit_box@,
                token_account: token_account@,
                store: store@,
                vault: vault@,
                vault_authority: vault_authority@,
                payer: payer@,
                transfer_authority: transfer_authority@,
                amount: *amount,
            },
            Call::ActivateVault {
                vault,
                fraction_mint,
                fraction_treasury,
                fraction_mint_authority,
                vault_authority,
                number_of_shares,
            } => CallV::ActivateVault {
                vault: vault@,
                fraction_mint: fraction_mint@,
                fraction_treasury: fraction_treasury@,
                fraction_mint_authority: fraction_mint_authority@,
                vault_authority: vault_authority@,
                number_of_shares: *number_of_shares,
            },
            Call::MintShares {
                fraction_treasury,
                fraction_mint,
                vault,
                fraction_mint_authority,
                vault_authority,
                number_of_shares,
            } => CallV::MintShares {
                fraction_treasury: fraction_treasury@,
                fraction_mint: fraction_mint@,
                vault: vault@,
                fraction_mint_authority: fraction_mint_authority@,
                vault_authority: vault_authority@,
                number_of_shares: *number_of_shares,
            },
            Call::WithdrawShares {
                destination,
                fraction_treasury,
                vault,
                transfer_authority,
                vault_authority,
                number_of_shares,
            } => CallV::WithdrawShares {
                destination: destination@,
                fraction_treasury: fraction_treasury@,
                vault: vault@,
                transfer_authority: transfer_authority@,
                vault_authority: vault_authority@,
                number_of_shares: *number_of_shares,
            },
        }
    }
}

/// One planned call together with the seed material that signs it.
pub struct PlannedCall {
    pub call: Call,
    pub signers: Vec<SignerSeeds>,
}

/// View of `PlannedCall`.
#[verifier::ext_equal]
pub struct PlannedCallV {
    pub call: CallV,
    pub signers: Seq<Seq<Seq<u8>>>,
}

impl View for PlannedCall {
    type V = PlannedCallV;

    open spec fn view(&self) -> PlannedCallV {
        PlannedCallV {
            call: self.call@,
            signers: Seq::new(self.signers@.len(), |i: int| self.signers@[i]@),
        }
    }
}

/// The views of a planned call sequence.
pub open spec fn calls_view(s: Seq<PlannedCall>) -> Seq<PlannedCallV> {
    Seq::new(s.len(), |i: int| s[i]@)
}

} // verus!
