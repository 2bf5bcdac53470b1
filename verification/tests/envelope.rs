use tokrizer::instruction::{
    FractionalizeArgs, MintArgs, TokrizerInstruction, VaultArgs, decode_instruction,
    encode_instruction,
};
use tokrizer::keys::Address;
use tokrizer::minter::{
    MintArgs as MinterArgs, NftMinterInstruction, decode_minter_instruction,
    encode_minter_instruction,
};

fn roundtrip(i: &TokrizerInstruction) -> TokrizerInstruction {
    decode_instruction(&encode_instruction(i)).expect("an encoded envelope must decode")
}

#[test]
fn mint_envelope_roundtrips() {
    let i = TokrizerInstruction::MintTokrNft(MintArgs {
        name: String::from("Grüße 🌍"),
        symbol: String::from("TOK"),
        uri: String::from("https://example.invalid/x.json"),
        mint_bump: 254,
        mint_seed: String::from("myseed"),
    });
    match roundtrip(&i) {
        TokrizerInstruction::MintTokrNft(a) => {
            assert_eq!(a.name, "Grüße 🌍");
            assert_eq!(a.symbol, "TOK");
            assert_eq!(a.uri, "https://example.invalid/x.json");
            assert_eq!(a.mint_bump, 254);
            assert_eq!(a.mint_seed, "myseed");
        }
        _ => panic!("wrong variant"),
    }
}

#[test]
fn vault_envelope_roundtrips() {
    let i = TokrizerInstruction::CreateVault(VaultArgs {
        vault_seed: String::from("vaultseed"),
        vault_bump: 7,
    });
    match roundtrip(&i) {
        TokrizerInstruction::CreateVault(a) => {
            assert_eq!(a.vault_seed, "vaultseed");
            assert_eq!(a.vault_bump, 7);
        }
        _ => panic!("wrong variant"),
    }
}

#[test]
fn unit_and_share_envelopes_roundtrip() {
    match roundtrip(&TokrizerInstruction::AddNftToVault) {
        TokrizerInstruction::AddNftToVault => {}
        _ => panic!("wrong variant"),
    }
    match roundtrip(&TokrizerInstruction::Fractionalize(FractionalizeArgs {
        number_of_shares: u64::MAX,
    })) {
        TokrizerInstruction::Fractionalize(a) => assert_eq!(a.number_of_shares, u64::MAX),
        _ => panic!("wrong variant"),
    }
    match roundtrip(&TokrizerInstruction::SendShare(FractionalizeArgs { number_of_shares: 3 })) {
        TokrizerInstruction::SendShare(a) => assert_eq!(a.number_of_shares, 3),
        _ => panic!("wrong variant"),
    }
}

#[test]
fn envelope_encoding_is_exact() {
    // Tag byte, then the argument little-endian.
    let bytes = encode_instruction(&TokrizerInstruction::Fractionalize(FractionalizeArgs {
        number_of_shares: 258,
    }));
    assert_eq!(bytes, vec![3u8, 2, 1, 0, 0, 0, 0, 0, 0]);

    // Strings carry a 32-bit byte-length prefix.
    let bytes = encode_instruction(&TokrizerInstruction::CreateVault(VaultArgs {
        vault_seed: String::from("ab"),
        vault_bump: 9,
    }));
    assert_eq!(bytes, vec![1u8, 2, 0, 0, 0, b'a', b'b', 9]);
}

#[test]
fn envelope_encoding_matches_borsh_layout() {
    // A variant's payload is laid out as borsh lays out the same fields;
    // checked against an independent borsh encoder on the vault
    // program's share-count argument struct.
    let ours = encode_instruction(&TokrizerInstruction::Fractionalize(FractionalizeArgs {
        number_of_shares: 77,
    }));
    let independent = borsh::BorshSerialize::try_to_vec(
        &mpl_token_vault::instruction::NumberOfShareArgs { number_of_shares: 77 },
    )
    .unwrap();
    assert_eq!(ours[0], 3);
    assert_eq!(&ours[1..], &independent[..]);
}

#[test]
fn malformed_envelopes_are_rejected() {
    assert!(decode_instruction(&vec![]).is_none());
    // An unknown tag.
    assert!(decode_instruction(&vec![9u8]).is_none());
    // A truncated share count.
    assert!(decode_instruction(&vec![3u8, 1, 2]).is_none());
    // Trailing bytes after a complete payload.
    assert!(decode_instruction(&vec![2u8, 0]).is_none());
    // A string length prefix pointing past the end.
    assert!(decode_instruction(&vec![1u8, 200, 0, 0, 0, b'a']).is_none());
    // Invalid UTF-8 inside a string field.
    assert!(decode_instruction(&vec![1u8, 2, 0, 0, 0, 0xff, 0xfe, 9]).is_none());
}

#[test]
fn minter_envelope_roundtrips() {
    let i = NftMinterInstruction::MintNftWithMetaData(MinterArgs {
        test: String::from("hello"),
    });
    let bytes = encode_minter_instruction(&i);
    assert_eq!(bytes, vec![0u8, 5, 0, 0, 0, b'h', b'e', b'l', b'l', b'o']);
    match decode_minter_instruction(&bytes) {
        Some(NftMinterInstruction::MintNftWithMetaData(a)) => assert_eq!(a.test, "hello"),
        None => panic!("an encoded envelope must decode"),
    }
    assert!(decode_minter_instruction(&vec![1u8]).is_none());
}

#[test]
fn deposit_payload_matches_vault_program_layout() {
    let ix = tokrizer::adapters::create_add_token_to_inactive_vault_instruction2(
        Address([6; 32]),
        Address([1; 32]),
        Address([2; 32]),
        Address([3; 32]),
        Address([4; 32]),
        Address([5; 32]),
        Address([7; 32]),
        Address([8; 32]),
        1,
    );
    let expected = borsh::BorshSerialize::try_to_vec(
        &mpl_token_vault::instruction::VaultInstruction::AddTokenToInactiveVault(
            mpl_token_vault::instruction::AmountArgs { amount: 1 },
        ),
    )
    .unwrap();
    assert_eq!(ix.data, expected);
    assert_eq!(ix.data, vec![1u8, 1, 0, 0, 0, 0, 0, 0, 0]);
    assert_eq!(ix.accounts.len(), 10);
    assert_eq!(
        ix.program_id,
        solana_program::pubkey::Pubkey::new_from_array([6; 32])
    );
    // The token program, rent and system service accounts close the list.
    assert_eq!(ix.accounts[7].pubkey, spl_token::id());
    assert_eq!(ix.accounts[8].pubkey, solana_program::sysvar::rent::id());
    assert_eq!(ix.accounts[9].pubkey, solana_program::system_program::id());
}
