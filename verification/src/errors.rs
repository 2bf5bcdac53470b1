//! Error taxonomy of the orchestrator: derivation mismatches, precondition
//! violations, resource failures and collaborator failures.  Every error
//! aborts the enclosing workflow; no partial mutation is ever returned.

use vstd::prelude::*;

verus! {

/// The named role an account plays in a workflow.  Errors carry the role so
/// that a wrong argument fails fast with a labeled cause rather than
/// silently binding to the wrong position.
#[derive(Clone, Copy, PartialEq, Eq, Structural, Debug)]
pub enum AccountRole {
    Payer,
    Destination,
    Creator,
    Mint,
    MetadataAccount,
    HoldingAccount,
    TokenProgram,
    MetadataProgram,
    Vault,
    VaultAuthority,
    VaultMintAuthority,
    ExternalPricing,
    FractionMint,
    RedeemTreasury,
    FractionTreasury,
    VaultProgram,
    TransferAuthority,
    TokenStore,
    SafetyDepositBox,
    DestinationHolding,
}

/// Why a workflow aborted.
#[derive(Clone, Copy, PartialEq, Eq, Structural, Debug)]
pub enum TokrError {
    /// The instruction envelope could not be decoded.
    InvalidInstructionData,
    /// The caller supplied the wrong number of accounts for the workflow.
    WrongAccountCount,
    /// An account that must sign the invocation is not marked as a signer.
    MissingSigner(AccountRole),
    /// A caller-supplied address disagrees with its re-derivation.
    DerivationMismatch(AccountRole),
    /// A caller-supplied bump disagrees with the re-derived bump.
    BumpMismatch(AccountRole),
    /// No valid bump exists for the seed parts (for instance, a seed part
    /// longer than the platform allows).
    DerivationUnavailable(AccountRole),
    /// A program account does not hold the address of the program it
    /// stands for.
    WrongProgramAccount(AccountRole),
    /// Account creation targeted an address that is already initialized.
    AccountInUse,
    /// Account creation asked for more bytes than the host allots to one
    /// account.
    AccountSpaceTooLarge,
    /// A transfer asked for more units than the source holding has.
    InsufficientBalance,
    /// Account creation was funded below the storage-exemption threshold.
    InsufficientFunding,
    /// An account that a call reads does not exist or holds the wrong kind
    /// of record for its role.
    WrongAccountKind(AccountRole),
    /// A holding account belongs to a different mint than the call expects.
    WrongMint,
    /// A holding account is owned by someone other than the call expects.
    WrongOwner,
    /// A mutation was requested by an address that is not the authority of
    /// the record it mutates.
    WrongAuthority,
    /// A delegated transfer was requested without a matching delegation.
    MissingDelegate,
    /// Minting would lift a non-fungible mint's supply above one.
    MaxSupplyExceeded,
    /// A balance or supply update would overflow its 64-bit counter.
    AmountOverflow,
    /// A withdrawal asked for more shares than the treasury holds.
    InsufficientTreasury,
    /// The vault must still be inactive for this call.
    VaultShouldBeInactive,
    /// The vault must already be active for this call.
    VaultShouldBeActive,
    /// The vault was initialized with further share issuance disallowed.
    SharesIssuanceForbidden,
}

} // verus!
