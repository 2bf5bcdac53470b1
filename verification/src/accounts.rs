//! Named account structures, one per workflow, bound from the positional
//! account list an invocation supplies.  Binding validates the count and
//! the signer flags at the boundary, so a wrong-position argument fails
//! fast with a labeled error instead of silently taking the wrong role.

use vstd::prelude::*;
use crate::errors::{AccountRole, TokrError};
use crate::keys::Address;

verus! {

/// One caller-supplied account reference: its address and the flags the
/// invocation carries for it.
#[derive(Clone, Copy)]
pub struct AccountRef {
    pub address: Address,
    pub is_signer: bool,
    pub is_writable: bool,
}

/// View of `AccountRef`.
#[verifier::ext_equal]
pub struct AccountRefV {
    pub address: Seq<u8>,
    pub is_signer: bool,
    pub is_writable: bool,
}

impl View for AccountRef {
    type V = AccountRefV;

    open spec fn view(&self) -> AccountRefV {
        AccountRefV {
            address: self.address@,
            is_signer: self.is_signer,
            is_writable: self.is_writable,
        }
    }
}

/// The views of a positional account list.
pub open spec fn refs_view(s: Seq<AccountRef>) -> Seq<AccountRefV> {
    Seq::new(s.len(), |i: int| s[i]@)
}

/// The accounts of the mint-NFT workflow.
pub struct MintNftAccounts {
    pub payer: Address,
    pub destination: Address,
    pub creator: Address,
    pub mint: Address,
    pub metadata_account: Address,
    pub token_account: Address,
    pub token_program: Address,
    pub metadata_program: Address,
    pub system_program: Address,
    pub rent_sysvar: Address,
}

/// View of `MintNftAccounts`.
#[verifier::ext_equal]
pub struct MintNftAccountsV {
    pub payer: Seq<u8>,
    pub destination: Seq<u8>,
    pub creator: Seq<u8>,
    pub mint: Seq<u8>,
    pub metadata_account: Seq<u8>,
    pub token_account: Seq<u8>,
    pub token_program: Seq<u8>,
    pub metadata_program: Seq<u8>,
    pub system_program: Seq<u8>,
    pub rent_sysvar: Seq<u8>,
}

impl View for MintNftAccounts {
    type V = MintNftAccountsV;

    open spec fn view(&self) -> MintNftAccountsV {
        MintNftAccountsV {
            payer: self.payer@,
            destination: self.destination@,
            creator: self.creator@,
            mint: self.mint@,
            metadata_account: self.metadata_account@,
            token_account: self.token_account@,
            token_program: self.token_program@,
            metadata_program: self.metadata_program@,
            system_program: self.system_program@,
            rent_sysvar: self.rent_sysvar@,
        }
    }
}

/// The accounts of the create-vault workflow.
pub struct CreateVaultAccounts {
    pub payer: Address,
    pub vault_authority: Address,
    pub vault: Address,
    pub vault_mint_authority: Address,
    pub external_pricing: Address,
    pub fraction_mint: Address,
    pub redeem_treasury: Address,
    pub fraction_treasury: Address,
    pub token_vault_program: Address,
    pub token_program: Address,
    pub system_program: Address,
    pub rent_sysvar: Address,
    pub ata_program: Address,
    pub native_mint: Address,
}

/// View of `CreateVaultAccounts`.
#[verifier::ext_equal]
pub struct CreateVaultAccountsV {
    pub payer: Seq<u8>,
    pub vault_authority: Seq<u8>,
    pub vault: Seq<u8>,
    pub vault_mint_authority: Seq<u8>,
    pub external_pricing: Seq<u8>,
    pub fraction_mint: Seq<u8>,
    pub redeem_treasury: Seq<u8>,
    pub fraction_treasury: Seq<u8>,
    pub token_vault_program: Seq<u8>,
    pub token_program: Seq<u8>,
    pub system_program: Seq<u8>,
    pub rent_sysvar: Seq<u8>,
    pub ata_program: Seq<u8>,
    pub native_mint: Seq<u8>,
}

impl View for CreateVaultAccounts {
    type V = CreateVaultAccountsV;

    open spec fn view(&self) -> CreateVaultAccountsV {
        CreateVaultAccountsV {
            payer: self.payer@,
            vault_authority: self.vault_authority@,
            vault: self.vault@,
            vault_mint_authority: self.vault_mint_authority@,
            external_pricing: self.external_pricing@,
            fraction_mint: self.fraction_mint@,
            redeem_treasury: self.redeem_treasury@,
            fraction_treasury: self.fraction_treasury@,
            token_vault_program: self.token_vault_program@,
            token_program: self.token_program@,
            system_program: self.system_program@,
            rent_sysvar: self.rent_sysvar@,
            ata_program: self.ata_program@,
            native_mint: self.native_mint@,
        }
    }
}

/// The accounts of the deposit-NFT-to-vault workflow.
pub struct AddNftAccounts {
    pub mint: Address,
    pub payer: Address,
    pub token_account: Address,
    pub transfer_authority: Address,
    pub vault_authority: Address,
    pub vault: Address,
    pub vault_mint_authority: Address,
    pub token_store: Address,
    pub safety_deposit_box: Address,
    pub token_vault_program: Address,
    pub token_program: Address,
    pub system_program: Address,
    pub rent_sysvar: Address,
    pub ata_program: Address,
}

/// View of `AddNftAccounts`.
#[verifier::ext_equal]
pub struct AddNftAccountsV {
    pub mint: Seq<u8>,
    pub payer: Seq<u8>,
    pub token_account: Seq<u8>,
    pub transfer_authority: Seq<u8>,
    pub vault_authority: Seq<u8>,
    pub vault: Seq<u8>,
    pub vault_mint_authority: Seq<u8>,
    pub token_store: Seq<u8>,
    pub safety_deposit_box: Seq<u8>,
    pub token_vault_program: Seq<u8>,
    pub token_program: Seq<u8>,
    pub system_program: Seq<u8>,
    pub rent_sysvar: Seq<u8>,
    pub ata_program: Seq<u8>,
}

impl View for AddNftAccounts {
    type V = AddNftAccountsV;

    open spec fn view(&self) -> AddNftAccountsV {
        AddNftAccountsV {
            mint: self.mint@,
            payer: self.payer@,
            token_account: self.token_account@,
            transfer_authority: self.transfer_authority@,
            vault_authority: self.vault_authority@,
            vault: self.vault@,
            vault_mint_authority: self.vault_mint_authority@,
            token_store: self.token_store@,
            safety_deposit_box: self.safety_deposit_box@,
            token_vault_program: self.token_vault_program@,
            token_program: self.token_program@,
            system_program: self.system_program@,
            rent_sysvar: self.rent_sysvar@,
            ata_program: self.ata_program@,
        }
    }
}

/// The accounts of the fractionalize workflow.
pub struct FractionalizeAccounts {
    pub payer: Address,
    pub vault_authority: Address,
    pub vault: Address,
    pub vault_mint_authority: Address,
    pub fraction_mint: Address,
    pub fraction_treasury: Address,
    pub token_vault_program: Address,
}

/// View of `FractionalizeAccounts`.
#[verifier::ext_equal]
pub struct FractionalizeAccountsV {
    pub payer: Seq<u8>,
    pub vault_authority: Seq<u8>,
    pub vault: Seq<u8>,
    pub vault_mint_authority: Seq<u8>,
    pub fraction_mint: Seq<u8>,
    pub fraction_treasury: Seq<u8>,
    pub token_vault_program: Seq<u8>,
}

impl View for FractionalizeAccounts {
    type V = FractionalizeAccountsV;

    open spec fn view(&self) -> FractionalizeAccountsV {
        FractionalizeAccountsV {
            payer: self.payer@,
            vault_authority: self.vault_authority@,
            vault: self.vault@,
            vault_mint_authority: self.vault_mint_authority@,
            fraction_mint: self.fraction_mint@,
            fraction_treasury: self.fraction_treasury@,
            token_vault_program: self.token_vault_program@,
        }
    }
}

/// The accounts of the send-share workflow.
pub struct SendShareAccounts {
    pub mint: Address,
    pub payer: Address,
    pub destination: Address,
    pub destination_ata: Address,
    pub transfer_authority: Address,
    pub vault: Address,
    pub vault_authority: Address,
    pub fraction_mint: Address,
    pub fraction_treasury: Address,
    pub token_vault_program: Address,
    pub token_program: Address,
    pub system_program: Address,
    pub rent_sysvar: Address,
}

/// View of `SendShareAccounts`.
#[verifier::ext_equal]
pub struct SendShareAccountsV {
    pub mint: Seq<u8>,
    pub payer: Seq<u8>,
    pub destination: Seq<u8>,
    pub destination_ata: Seq<u8>,
    pub transfer_authority: Seq<u8>,
    pub vault: Seq<u8>,
    pub vault_authority: Seq<u8>,
    pub fraction_mint: Seq<u8>,
    pub fraction_treasury: Seq<u8>,
    pub token_vault_program: Seq<u8>,
    pub token_program: Seq<u8>,
    pub system_program: Seq<u8>,
    pub rent_sysvar: Seq<u8>,
}

impl View for SendShareAccounts {
    type V = SendShareAccountsV;

    open spec fn view(&self) -> SendShareAccountsV {
        SendShareAccountsV {
            mint: self.mint@,
            payer: self.payer@,
            destination: self.destination@,
            destination_ata: self.destination_ata@,
            transfer_authority: self.transfer_authority@,
            vault: self.vault@,
            vault_authority: self.vault_authority@,
            fraction_mint: self.fraction_mint@,
            fraction_treasury: self.fraction_treasury@,
            token_vault_program: self.token_vault_program@,
            token_program: self.token_program@,
            system_program: self.system_program@,
            rent_sysvar: self.rent_sysvar@,
        }
    }
}

/// What binding the mint-NFT account list yields.
pub open spec fn bind_mint_nft_model(s: Seq<AccountRefV>) -> Result<MintNftAccountsV, TokrError> {
    if s.len() != 10 {
        Err(TokrError::WrongAccountCount)
    } else if !s[0].is_signer {
        Err(TokrError::MissingSigner(AccountRole::Payer))
    } else {
        Ok(
            MintNftAccountsV {
                payer: s[0].address,
                destination: s[1].address,
                creator: s[2].address,
                mint: s[3].address,
                metadata_account: s[4].address,
                token_account: s[5].address,
                token_program: s[6].address,
                metadata_program: s[7].address,
                system_program: s[8].address,
                rent_sysvar: s[9].address,
            },
        )
    }
}

/// Bind the mint-NFT account list to its named roles.
pub fn bind_mint_nft(accounts: &Vec<AccountRef>) -> (r: Result<MintNftAccounts, TokrError>)
    ensures
        match r {
            Ok(a) => bind_mint_nft_model(refs_view(accounts@)) == Ok::<
                MintNftAccountsV,
                TokrError,
            >(a@),
            Err(e) => bind_mint_nft_model(refs_view(accounts@)) == Err::<
                MintNftAccountsV,
                TokrError,
            >(e),
        },
{
    if accounts.len() != 10 {
        return Err(TokrError::WrongAccountCount);
    }
    if !accounts[0].is_signer {
        return Err(TokrError::MissingSigner(AccountRole::Payer));
    }
    let a = MintNftAccounts {
        payer: accounts[0].address,
        destination: accounts[1].address,
        creator: accounts[2].address,
        mint: accounts[3].address,
        metadata_account: accounts[4].address,
        token_account: accounts[5].address,
        token_program: accounts[6].address,
        metadata_program: accounts[7].address,
        system_program: accounts[8].address,
        rent_sysvar: accounts[9].address,
    };
    proof {
        assert(bind_mint_nft_model(refs_view(accounts@)) =~= Ok::<MintNftAccountsV, TokrError>(a@));
    }
    Ok(a)
}

/// What binding the create-vault account list yields.
pub open spec fn bind_create_vault_model(s: Seq<AccountRefV>) -> Result<
    CreateVaultAccountsV,
    TokrError,
> {
    if s.len() != 14 {
        Err(TokrError::WrongAccountCount)
    } else if !s[0].is_signer {
        Err(TokrError::MissingSigner(AccountRole::Payer))
    } else {
        Ok(
            CreateVaultAccountsV {
                payer: s[0].address,
                vault_authority: s[1].address,
                vault: s[2].address,
                vault_mint_authority: s[3].address,
                external_pricing: s[4].address,
                fraction_mint: s[5].address,
                redeem_treasury: s[6].address,
                fraction_treasury: s[7].address,
                token_vault_program: s[8].address,
                token_program: s[9].address,
                system_program: s[10].address,
                rent_sysvar: s[11].address,
                ata_program: s[12].address,
                native_mint: s[13].address,
            },
        )
    }
}

/// Bind the create-vault account list to its named roles.
pub fn bind_create_vault(accounts: &Vec<AccountRef>) -> (r: Result<CreateVaultAccounts, TokrError>)
    ensures
        match r {
            Ok(a) => bind_create_vault_model(refs_view(accounts@)) == Ok::<
                CreateVaultAccountsV,
                TokrError,
            >(a@),
            Err(e) => bind_create_vault_model(refs_view(accounts@)) == Err::<
                CreateVaultAccountsV,
                TokrError,
            >(e),
        },
{
    if accounts.len() != 14 {
        return Err(TokrError::WrongAccountCount);
    }
    if !accounts[0].is_signer {
        return Err(TokrError::MissingSigner(AccountRole::Payer));
    }
    let a = CreateVaultAccounts {
        payer: accounts[0].address,
        vault_authority: accounts[1].address,
        vault: accounts[2].address,
        vault_mint_authority: accounts[3].address,
        external_pricing: accounts[4].address,
        fraction_mint: accounts[5].address,
        redeem_treasury: accounts[6].address,
        fraction_treasury: accounts[7].address,
        token_vault_program: accounts[8].address,
        token_program: accounts[9].address,
        system_program: accounts[10].address,
        rent_sysvar: accounts[11].address,
        ata_program: accounts[12].address,
        native_mint: accounts[13].address,
    };
    proof {
        assert(bind_create_vault_model(refs_view(accounts@)) =~= Ok::<
            CreateVaultAccountsV,
            TokrError,
        >(a@));
    }
    Ok(a)
}

/// What binding the deposit-to-vault account list yields.
pub open spec fn bind_add_nft_model(s: Seq<AccountRefV>) -> Result<AddNftAccountsV, TokrError> {
    if s.len() != 14 {
        Err(TokrError::WrongAccountCount)
    } else if !s[1].is_signer {
        Err(TokrError::MissingSigner(AccountRole::Payer))
    } else if !s[4].is_signer {
        Err(TokrError::MissingSigner(AccountRole::VaultAuthority))
    } else {
        Ok(
            AddNftAccountsV {
                mint: s[0].address,
                payer: s[1].address,
                token_account: s[2].address,
                transfer_authority: s[3].address,
                vault_authority: s[4].address,
                vault: s[5].address,
                vault_mint_authority: s[6].address,
                token_store: s[7].address,
                safety_deposit_box: s[8].address,
                token_vault_program: s[9].address,
                token_program: s[10].address,
                system_program: s[11].address,
                rent_sysvar: s[12].address,
                ata_program: s[13].address,
            },
        )
    }
}

/// Bind the deposit-to-vault account list to its named roles.
pub fn bind_add_nft(accounts: &Vec<AccountRef>) -> (r: Result<AddNftAccounts, TokrError>)
    ensures
        match r {
            Ok(a) => bind_add_nft_model(refs_view(accounts@)) == Ok::<AddNftAccountsV, TokrError>(
                a@,
            ),
            Err(e) => bind_add_nft_model(refs_view(accounts@)) == Err::<AddNftAccountsV, TokrError>(
                e,
            ),
        },
{
    if accounts.len() != 14 {
        return Err(TokrError::WrongAccountCount);
    }
    if !accounts[1].is_signer {
        return Err(TokrError::MissingSigner(AccountRole::Payer));
    }
    if !accounts[4].is_signer {
        return Err(TokrError::MissingSigner(AccountRole::VaultAuthority));
    }
    let a = AddNftAccounts {
        mint: accounts[0].address,
        payer: accounts[1].address,
        token_account: accounts[2].address,
        transfer_authority: accounts[3].address,
        vault_authority: accounts[4].address,
        vault: accounts[5].address,
        vault_mint_authority: accounts[6].address,
        token_store: accounts[7].address,
        safety_deposit_box: accounts[8].address,
        token_vault_program: accounts[9].address,
        token_program: accounts[10].address,
        system_program: accounts[11].address,
        rent_sysvar: accounts[12].address,
        ata_program: accounts[13].address,
    };
    proof {
        assert(bind_add_nft_model(refs_view(accounts@)) =~= Ok::<AddNftAccountsV, TokrError>(a@));
    }
    Ok(a)
}

/// What binding the fractionalize account list yields.
pub open spec fn bind_fractionalize_model(s: Seq<AccountRefV>) -> Result<
    FractionalizeAccountsV,
    TokrError,
> {
    if s.len() != 7 {
        Err(TokrError::WrongAccountCount)
    } else if !s[1].is_signer {
        Err(TokrError::MissingSigner(AccountRole::VaultAuthority))
    } else {
        Ok(
            FractionalizeAccountsV {
                payer: s[0].address,
                vault_authority: s[1].address,
                vault: s[2].address,
                vault_mint_authority: s[3].address,
                fraction_mint: s[4].address,
                fraction_treasury: s[5].address,
                token_vault_program: s[6].address,
            },
        )
    }
}

/// Bind the fractionalize account list to its named roles.
pub fn bind_fractionalize(accounts: &Vec<AccountRef>) -> (r: Result<
    FractionalizeAccounts,
    TokrError,
>)
    ensures
        match r {
            Ok(a) => bind_fractionalize_model(refs_view(accounts@)) == Ok::<
                FractionalizeAccountsV,
                TokrError,
            >(a@),
            Err(e) => bind_fractionalize_model(refs_view(accounts@)) == Err::<
                FractionalizeAccountsV,
                TokrError,
            >(e),
        },
{
    if accounts.len() != 7 {
        return Err(TokrError::WrongAccountCount);
    }
    if !accounts[1].is_signer {
        return Err(TokrError::MissingSigner(AccountRole::VaultAuthority));
    }
    let a = FractionalizeAccounts {
        payer: accounts[0].address,
        vault_authority: accounts[1].address,
        vault: accounts[2].address,
        vault_mint_authority: accounts[3].address,
        fraction_mint: accounts[4].address,
        fraction_treasury: accounts[5].address,
        token_vault_program: accounts[6].address,
    };
    proof {
        assert(bind_fractionalize_model(refs_view(accounts@)) =~= Ok::<
            FractionalizeAccountsV,
            TokrError,
        >(a@));
    }
    Ok(a)
}

/// What binding the send-share account list yields.
pub open spec fn bind_send_share_model(s: Seq<AccountRefV>) -> Result<
    SendShareAccountsV,
    TokrError,
> {
    if s.len() != 13 {
        Err(TokrError::WrongAccountCount)
    } else if !s[1].is_signer {
        Err(TokrError::MissingSigner(AccountRole::Payer))
    } else if !s[6].is_signer {
        Err(TokrError::MissingSigner(AccountRole::VaultAuthority))
    } else {
        Ok(
            SendShareAccountsV {
                mint: s[0].address,
                payer: s[1].address,
                destination: s[2].address,
                destination_ata: s[3].address,
                transfer_authority: s[4].address,
                vault: s[5].address,
                vault_authority: s[6].address,
                fraction_mint: s[7].address,
                fraction_treasury: s[8].address,
                token_vault_program: s[9].address,
                token_program: s[10].address,
                system_program: s[11].address,
                rent_sysvar: s[12].address,
            },
        )
    }
}

/// Bind the send-share account list to its named roles.
pub fn bind_send_share(accounts: &Vec<AccountRef>) -> (r: Result<SendShareAccounts, TokrError>)
    ensures
        match r {
            Ok(a) => bind_send_share_model(refs_view(accounts@)) == Ok::<
                SendShareAccountsV,
                TokrError,
            >(a@),
            Err(e) => bind_send_share_model(refs_view(accounts@)) == Err::<
                SendShareAccountsV,
                TokrError,
            >(e),
        },
{
    if accounts.len() != 13 {
        return Err(TokrError::WrongAccountCount);
    }
    if !accounts[1].is_signer {
        return Err(TokrError::MissingSigner(AccountRole::Payer));
    }
    if !accounts[6].is_signer {
        return Err(TokrError::MissingSigner(AccountRole::VaultAuthority));
    }
    let a = SendShareAccounts {
        mint: accounts[0].address,
        payer: accounts[1].address,
        destination: accounts[2].address,
        destination_ata: accounts[3].address,
        transfer_authority: accounts[4].address,
        vault: accounts[5].address,
        vault_authority: accounts[6].address,
        fraction_mint: accounts[7].address,
        fraction_treasury: accounts[8].address,
        token_vault_program: accounts[9].address,
        token_program: accounts[10].address,
        system_program: accounts[11].address,
        rent_sysvar: accounts[12].address,
    };
    proof {
        assert(bind_send_share_model(refs_view(accounts@)) =~= Ok::<SendShareAccountsV, TokrError>(
            a@,
        ));
    }
    Ok(a)
}

} // verus!
