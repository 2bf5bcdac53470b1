//! The instruction envelope: one tagged union of workflow name and typed
//! arguments, carried as a fixed-schema, length-prefixed binary encoding.
//! The encoding is one tag byte followed by the variant's fields in
//! order; strings are a 32-bit little-endian byte length followed by
//! UTF-8 bytes; integers are fixed-width little-endian.

use vstd::prelude::*;
use vstd::utf8::encode_utf8;
use crate::codec::{
    le64_val, lemma_le64_roundtrip, lemma_read_str_at, lemma_read_str_inverse, push_string,
    push_u64_le, read_str_model, read_string, read_u64_le, str_encodable, str_encoding, u64_le,
};

verus! {

/// Arguments of the mint-NFT workflow.
pub struct MintArgs {
    pub name: String,
    pub symbol: String,
    pub uri: String,
    pub mint_bump: u8,
    pub mint_seed: String,
}

/// View of `MintArgs`.
#[verifier::ext_equal]
pub struct MintArgsV {
    pub name: Seq<char>,
    pub symbol: Seq<char>,
    pub uri: Seq<char>,
    pub mint_bump: u8,
    pub mint_seed: Seq<char>,
}

impl View for MintArgs {
    type V = MintArgsV;

    open spec fn view(&self) -> MintArgsV {
        MintArgsV {
            name: self.name@,
            symbol: self.symbol@,
            uri: self.uri@,
            mint_bump: self.mint_bump,
            mint_seed: self.mint_seed@,
        }
    }
}

/// Arguments of the create-vault workflow.
pub struct VaultArgs {
    pub vault_seed: String,
    pub vault_bump: u8,
}

/// View of `VaultArgs`.
#[verifier::ext_equal]
pub struct VaultArgsV {
    pub vault_seed: Seq<char>,
    pub vault_bump: u8,
}

impl View for VaultArgs {
    type V = VaultArgsV;

    open spec fn view(&self) -> VaultArgsV {
        VaultArgsV { vault_seed: self.vault_seed@, vault_bump: self.vault_bump }
    }
}

/// Arguments of the fractionalize and send-share workflows.
#[derive(Clone, Copy, PartialEq, Eq, Structural, Debug)]
pub struct FractionalizeArgs {
    pub number_of_shares: u64,
}

/// The instruction envelope: which workflow to run, with its arguments.
pub enum TokrizerInstruction {
    MintTokrNft(MintArgs),
    CreateVault(VaultArgs),
    AddNftToVault,
    Fractionalize(FractionalizeArgs),
    SendShare(FractionalizeArgs),
}

/// View of `TokrizerInstruction`.
#[verifier::ext_equal]
pub enum TokrizerInstructionV {
    MintTokrNft(MintArgsV),
    CreateVault(VaultArgsV),
    AddNftToVault,
    Fractionalize(FractionalizeArgs),
    SendShare(FractionalizeArgs),
}

impl View for TokrizerInstruction {
    type V = TokrizerInstructionV;

    open spec fn view(&self) -> TokrizerInstructionV {
        match self {
            TokrizerInstruction::MintTokrNft(a) => TokrizerInstructionV::MintTokrNft(a@),
            TokrizerInstruction::CreateVault(a) => TokrizerInstructionV::CreateVault(a@),
            TokrizerInstruction::AddNftToVault => TokrizerInstructionV::AddNftToVault,
            TokrizerInstruction::Fractionalize(a) => TokrizerInstructionV::Fractionalize(*a),
            TokrizerInstruction::SendShare(a) => TokrizerInstructionV::SendShare(*a),
        }
    }
}

/// Every string field's byte length fits its 32-bit length prefix.
pub open spec fn encodable(i: TokrizerInstructionV) -> bool {
    match i {
        TokrizerInstructionV::MintTokrNft(a) => str_encodable(a.name) && str_encodable(a.symbol)
            && str_encodable(a.uri) && str_encodable(a.mint_seed),
        TokrizerInstructionV::CreateVault(a) => str_encodable(a.vault_seed),
        TokrizerInstructionV::AddNftToVault => true,
        TokrizerInstructionV::Fractionalize(_) => true,
        TokrizerInstructionV::SendShare(_) => true,
    }
}

/// The envelope's encoding: one tag byte, then the variant's fields in
/// order.
pub open spec fn envelope_encoding(i: TokrizerInstructionV) -> Seq<u8> {
    match i {
        TokrizerInstructionV::MintTokrNft(a) => seq![0u8] + str_encoding(a.name) + str_encoding(
            a.symbol,
        ) + str_encoding(a.uri) + seq![a.mint_bump] + str_encoding(a.mint_seed),
        TokrizerInstructionV::CreateVault(a) => seq![1u8] + str_encoding(a.vault_seed) + seq![
            a.vault_bump
        ],
        TokrizerInstructionV::AddNftToVault => seq![2u8],
        TokrizerInstructionV::Fractionalize(a) => seq![3u8] + u64_le(a.number_of_shares),
        TokrizerInstructionV::SendShare(a) => seq![4u8] + u64_le(a.number_of_shares),
    }
}

/// What decoding an envelope yields: the instruction whose encoding the
/// bytes are, consumed in full, or nothing.
pub open spec fn decode_model(d: Seq<u8>) -> Option<TokrizerInstructionV> {
    if d.len() == 0 {
        None
    } else if d[0] == 0 {
        match read_str_model(d, 1) {
            Some((name, p1)) => match read_str_model(d, p1) {
                Some((symbol, p2)) => match read_str_model(d, p2) {
                    Some((uri, p3)) => {
                        if p3 < d.len() {
                            match read_str_model(d, p3 + 1) {
                                Some((mint_seed, p4)) => {
                                    if p4 == d.len() {
                                        Some(
                                            TokrizerInstructionV::MintTokrNft(
                                                MintArgsV {
                                                    name,
                                                    symbol,
                                                    uri,
                                                    mint_bump: d[p3],
                                                    mint_seed,
                                                },
                                            ),
                                        )
                                    } else {
                                        None
                                    }
                                },
                                None => None,
                            }
                        } else {
                            None
                        }
                    },
                    None => None,
                },
                None => None,
            },
            None => None,
        }
    } else if d[0] == 1 {
        match read_str_model(d, 1) {
            Some((vault_seed, p1)) => {
                if p1 + 1 == d.len() {
                    Some(
                        TokrizerInstructionV::CreateVault(
                            VaultArgsV { vault_seed, vault_bump: d[p1] },
                        ),
                    )
                } else {
                    None
                }
            },
            None => None,
        }
    } else if d[0] == 2 {
        if d.len() == 1 {
            Some(TokrizerInstructionV::AddNftToVault)
        } else {
            None
        }
    } else if d[0] == 3 {
        if d.len() == 9 {
            Some(
                TokrizerInstructionV::Fractionalize(
                    FractionalizeArgs {
                        number_of_shares: le64_val(
                            d[1],
                            d[2],
                            d[3],
                            d[4],
                            d[5],
                            d[6],
                            d[7],
                            d[8],
                        ),
                    },
                ),
            )
        } else {
            None
        }
    } else if d[0] == 4 {
        if d.len() == 9 {
            Some(
                TokrizerInstructionV::SendShare(
                    FractionalizeArgs {
                        number_of_shares: le64_val(
                            d[1],
                            d[2],
                            d[3],
                            d[4],
                            d[5],
                            d[6],
                            d[7],
                            d[8],
                        ),
                    },
                ),
            )
        } else {
            None
        }
    } else {
        None
    }
}

/// Encode the envelope.
pub fn encode_instruction(i: &TokrizerInstruction) -> (r: Vec<u8>)
    requires
        encodable(i@),
    ensures
        r@ == envelope_encoding(i@),
{
    let mut out: Vec<u8> = Vec::new();
    match i {
        TokrizerInstruction::MintTokrNft(a) => {
            out.push(0);
            push_string(&mut out, &a.name);
            push_string(&mut out, &a.symbol);
            push_string(&mut out, &a.uri);
            out.push(a.mint_bump);
            push_string(&mut out, &a.mint_seed);
            proof {
                assert(out@ =~= envelope_encoding(i@));
            }
        },
        TokrizerInstruction::CreateVault(a) => {
            out.push(1);
            push_string(&mut out, &a.vault_seed);
            out.push(a.vault_bump);
            proof {
                assert(out@ =~= envelope_encoding(i@));
            }
        },
        TokrizerInstruction::AddNftToVault => {
            out.push(2);
            proof {
                assert(out@ =~= envelope_encoding(i@));
            }
        },
        TokrizerInstruction::Fractionalize(a) => {
            out.push(3);
            push_u64_le(&mut out, a.number_of_shares);
            proof {
                assert(out@ =~= envelope_encoding(i@));
            }
        },
        TokrizerInstruction::SendShare(a) => {
            out.push(4);
            push_u64_le(&mut out, a.number_of_shares);
            proof {
                assert(out@ =~= envelope_encoding(i@));
            }
        },
    }
    out
}

/// Decode the envelope: exactly what the decode model says of the bytes.
pub fn decode_instruction(data: &Vec<u8>) -> (r: Option<TokrizerInstruction>)
    ensures
        match r {
            Some(i) => decode_model(data@) == Some(i@),
            None => decode_model(data@) is None,
        },
{
    if data.len() == 0 {
        return None;
    }
    let tag = data[0];
    if tag == 0 {
        let (name, p1) = match read_string(data, 1) {
            Some(x) => x,
            None => { return None },
        };
        let (symbol, p2) = match read_string(data, p1) {
            Some(x) => x,
            None => { return None },
        };
        let (uri, p3) = match read_string(data, p2) {
            Some(x) => x,
            None => { return None },
        };
        if p3 >= data.len() {
            return None;
        }
        let mint_bump = data[p3];
        let (mint_seed, p4) = match read_string(data, p3 + 1) {
            Some(x) => x,
            None => { return None },
        };
        if p4 != data.len() {
            return None;
        }
        Some(
            TokrizerInstruction::MintTokrNft(
                MintArgs { name, symbol, uri, mint_bump, mint_seed },
            ),
        )
    } else if tag == 1 {
        let (vault_seed, p1) = match read_string(data, 1) {
            Some(x) => x,
            None => { return None },
        };
        if p1 >= data.len() || p1 + 1 != data.len() {
            return None;
        }
        let vault_bump = data[p1];
        Some(TokrizerInstruction::CreateVault(VaultArgs { vault_seed, vault_bump }))
    } else if tag == 2 {
        if data.len() == 1 {
            Some(TokrizerInstruction::AddNftToVault)
        } else {
            None
        }
    } else if tag == 3 {
        if data.len() != 9 {
            return None;
        }
        match read_u64_le(data, 1) {
            Some(n) => Some(TokrizerInstruction::Fractionalize(FractionalizeArgs { number_of_shares: n })),
            None => None,
        }
    } else if tag == 4 {
        if data.len() != 9 {
            return None;
        }
        match read_u64_le(data, 1) {
            Some(n) => Some(TokrizerInstruction::SendShare(FractionalizeArgs { number_of_shares: n })),
            None => None,
        }
    } else {
        None
    }
}

/// Decoding an encoded envelope yields the envelope back: the encoding
/// loses nothing.
#[verifier::rlimit(100)]
#[verifier::spinoff_prover]
pub proof fn lemma_decode_encode(iv: TokrizerInstructionV)
    requires
        encodable(iv),
    ensures
        decode_model(envelope_encoding(iv)) == Some(iv),
{
    let d = envelope_encoding(iv);
    match iv {
        TokrizerInstructionV::MintTokrNft(a) => {
            let na = encode_utf8(a.name).len() as int;
            let nb = encode_utf8(a.symbol).len() as int;
            let nc = encode_utf8(a.uri).len() as int;
            let ne = encode_utf8(a.mint_seed).len() as int;
            let p1 = 1 + 4 + na;
            let p2 = p1 + 4 + nb;
            let p3 = p2 + 4 + nc;
            let p4 = p3 + 1 + 4 + ne;
            assert(d.len() == p4);
            assert(d[0] == 0);
            assert(d.subrange(1, p1) =~= str_encoding(a.name));
            lemma_read_str_at(d, 1, a.name);
            assert(d.subrange(p1, p2) =~= str_encoding(a.symbol));
            lemma_read_str_at(d, p1, a.symbol);
            assert(d.subrange(p2, p3) =~= str_encoding(a.uri));
            lemma_read_str_at(d, p2, a.uri);
            assert(d[p3] == a.mint_bump);
            assert(d.subrange(p3 + 1, p4) =~= str_encoding(a.mint_seed));
            lemma_read_str_at(d, p3 + 1, a.mint_seed);
        },
        TokrizerInstructionV::CreateVault(a) => {
            let na = encode_utf8(a.vault_seed).len() as int;
            let p1 = 1 + 4 + na;
            assert(d.len() == p1 + 1);
            assert(d[0] == 1);
            assert(d.subrange(1, p1) =~= str_encoding(a.vault_seed));
            lemma_read_str_at(d, 1, a.vault_seed);
            assert(d[p1] == a.vault_bump);
        },
        TokrizerInstructionV::AddNftToVault => {
            assert(d.len() == 1);
            assert(d[0] == 2);
        },
        TokrizerInstructionV::Fractionalize(a) => {
            assert(d.len() == 9);
            assert(d[0] == 3);
            lemma_le64_roundtrip(a.number_of_shares);
            assert(d[1] == u64_le(a.number_of_shares)[0]);
            assert(d[2] == u64_le(a.number_of_shares)[1]);
            assert(d[3] == u64_le(a.number_of_shares)[2]);
            assert(d[4] == u64_le(a.number_of_shares)[3]);
            assert(d[5] == u64_le(a.number_of_shares)[4]);
            assert(d[6] == u64_le(a.number_of_shares)[5]);
            assert(d[7] == u64_le(a.number_of_shares)[6]);
            assert(d[8] == u64_le(a.number_of_shares)[7]);
        },
        TokrizerInstructionV::SendShare(a) => {
            assert(d.len() == 9);
            assert(d[0] == 4);
            lemma_le64_roundtrip(a.number_of_shares);
            assert(d[1] == u64_le(a.number_of_shares)[0]);
            assert(d[2] == u64_le(a.number_of_shares)[1]);
            assert(d[3] == u64_le(a.number_of_shares)[2]);
            assert(d[4] == u64_le(a.number_of_shares)[3]);
            assert(d[5] == u64_le(a.number_of_shares)[4]);
            assert(d[6] == u64_le(a.number_of_shares)[5]);
            assert(d[7] == u64_le(a.number_of_shares)[6]);
            assert(d[8] == u64_le(a.number_of_shares)[7]);
        },
    }
}

/// The converse: any bytes the decode model accepts are exactly the
/// encoding of the instruction it yields, so decoding succeeds on
/// encodings and on nothing else.
#[verifier::rlimit(100)]
#[verifier::spinoff_prover]
pub proof fn lemma_encode_decode(d: Seq<u8>)
    requires
        decode_model(d) is Some,
    ensures
        encodable(decode_model(d)->0),
        envelope_encoding(decode_model(d)->0) == d,
{
    let iv = decode_model(d)->0;
    if d[0] == 0 {
        let np = read_str_model(d, 1)->0;
        let sp = read_str_model(d, np.1)->0;
        let up = read_str_model(d, sp.1)->0;
        let ep = read_str_model(d, up.1 + 1)->0;
        lemma_read_str_inverse(d, 1);
        lemma_read_str_inverse(d, np.1);
        lemma_read_str_inverse(d, sp.1);
        lemma_read_str_inverse(d, up.1 + 1);
        assert(seq![0u8] + d.subrange(1, np.1) + d.subrange(np.1, sp.1) + d.subrange(sp.1, up.1)
            + seq![d[up.1]] + d.subrange(up.1 + 1, ep.1) =~= d);
        assert(envelope_encoding(iv) == seq![0u8] + str_encoding(np.0) + str_encoding(sp.0)
            + str_encoding(up.0) + seq![d[up.1]] + str_encoding(ep.0));
    } else if d[0] == 1 {
        let vp = read_str_model(d, 1)->0;
        lemma_read_str_inverse(d, 1);
        assert(seq![1u8] + d.subrange(1, vp.1) + seq![d[vp.1]] =~= d);
        assert(envelope_encoding(iv) == seq![1u8] + str_encoding(vp.0) + seq![d[vp.1]]);
    } else if d[0] == 2 {
        assert(envelope_encoding(iv) =~= d);
    } else if d[0] == 3 {
        crate::codec::lemma_le64_bytes_roundtrip(d[1], d[2], d[3], d[4], d[5], d[6], d[7], d[8]);
        assert(envelope_encoding(iv) =~= d);
    } else {
        assert(d[0] == 4);
        crate::codec::lemma_le64_bytes_roundtrip(d[1], d[2], d[3], d[4], d[5], d[6], d[7], d[8]);
        assert(envelope_encoding(iv) =~= d);
    }
}

} // verus!
