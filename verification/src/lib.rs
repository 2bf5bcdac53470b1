//! Verified workflow orchestrator for minting a non-fungible token,
//! depositing it into a custodial vault, and splitting the vault into
//! fungible fractional shares.
//!
//! The orchestrator derives every auxiliary account address from stable
//! seeds, validates caller-supplied addresses against those derivations,
//! and sequences the dependent sub-operations of each workflow as one
//! atomic unit.  The cross-contract primitives it composes (token ledger,
//! metadata registry, vault program, account allocation) are external
//! collaborators: their call payloads are built through thin adapters, and
//! their effects are captured by a ledger model against which every
//! workflow is verified.

pub mod accounts;
pub mod adapters;
pub mod calls;
pub mod codec;
pub mod errors;
pub mod instruction;
pub mod keys;
pub mod laws;
pub mod minter;
pub mod processor;
pub mod semantics;
pub mod state;
