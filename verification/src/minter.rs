//! The bare-minter instruction envelope: a single-variant tagged union
//! kept for callers of the standalone minter entry point, with the same
//! fixed-schema encoding as the main envelope.

use vstd::prelude::*;
use vstd::utf8::encode_utf8;
use crate::codec::{
    lemma_read_str_at, push_string, read_str_model, read_string, str_encodable, str_encoding,
};

verus! {

/// Arguments of the bare minter call.
pub struct MintArgs {
    pub test: String,
}

/// View of `MintArgs`.
#[verifier::ext_equal]
pub struct MintArgsV {
    pub test: Seq<char>,
}

impl View for MintArgs {
    type V = MintArgsV;

    open spec fn view(&self) -> MintArgsV {
        MintArgsV { test: self.test@ }
    }
}

/// The bare minter's instruction envelope.
pub enum NftMinterInstruction {
    MintNftWithMetaData(MintArgs),
}

/// View of `NftMinterInstruction`.
#[verifier::ext_equal]
pub enum NftMinterInstructionV {
    MintNftWithMetaData(MintArgsV),
}

impl View for NftMinterInstruction {
    type V = NftMinterInstructionV;

    open spec fn view(&self) -> NftMinterInstructionV {
        match self {
            NftMinterInstruction::MintNftWithMetaData(a) => NftMinterInstructionV::MintNftWithMetaData(
                a@,
            ),
        }
    }
}

/// The string field's byte length fits its 32-bit length prefix.
pub open spec fn minter_encodable(i: NftMinterInstructionV) -> bool {
    match i {
        NftMinterInstructionV::MintNftWithMetaData(a) => str_encodable(a.test),
    }
}

/// The envelope's encoding: one tag byte, then the length-prefixed
/// string.
pub open spec fn minter_encoding(i: NftMinterInstructionV) -> Seq<u8> {
    match i {
        NftMinterInstructionV::MintNftWithMetaData(a) => seq![0u8] + str_encoding(a.test),
    }
}

/// What decoding the bare minter envelope yields.
pub open spec fn minter_decode_model(d: Seq<u8>) -> Option<NftMinterInstructionV> {
    if d.len() == 0 || d[0] != 0 {
        None
    } else {
        match read_str_model(d, 1) {
            Some((test, p1)) => {
                if p1 == d.len() {
                    Some(NftMinterInstructionV::MintNftWithMetaData(MintArgsV { test }))
                } else {
                    None
                }
            },
            None => None,
        }
    }
}

/// Encode the bare minter envelope.
pub fn encode_minter_instruction(i: &NftMinterInstruction) -> (r: Vec<u8>)
    requires
        minter_encodable(i@),
    ensures
        r@ == minter_encoding(i@),
{
    let mut out: Vec<u8> = Vec::new();
    match i {
        NftMinterInstruction::MintNftWithMetaData(a) => {
            out.push(0);
            push_string(&mut out, &a.test);
            proof {
                assert(out@ =~= minter_encoding(i@));
            }
        },
    }
    out
}

/// Decode the bare minter envelope: exactly what the decode model says.
pub fn decode_minter_instruction(data: &Vec<u8>) -> (r: Option<NftMinterInstruction>)
    ensures
        match r {
            Some(i) => minter_decode_model(data@) == Some(i@),
            None => minter_decode_model(data@) is None,
        },
{
    if data.len() == 0 {
        return None;
    }
    if data[0] != 0 {
        return None;
    }
    let (test, p1) = match read_string(data, 1) {
        Some(x) => x,
        None => { return None },
    };
    if p1 != data.len() {
        return None;
    }
    Some(NftMinterInstruction::MintNftWithMetaData(MintArgs { test }))
}

/// Decoding an encoded bare minter envelope yields the envelope back.
pub proof fn lemma_minter_decode_encode(iv: NftMinterInstructionV)
    requires
        minter_encodable(iv),
    ensures
        minter_decode_model(minter_encoding(iv)) == Some(iv),
{
    let d = minter_encoding(iv);
    match iv {
        NftMinterInstructionV::MintNftWithMetaData(a) => {
            let na = encode_utf8(a.test).len() as int;
            assert(d.len() == 1 + 4 + na);
            assert(d[0] == 0);
            assert(d.subrange(1, 1 + 4 + na) =~= str_encoding(a.test));
            lemma_read_str_at(d, 1, a.test);
        },
    }
}

/// The converse: any bytes the bare minter decode model accepts are
/// exactly the encoding of the instruction it yields.
pub proof fn lemma_minter_encode_decode(d: Seq<u8>)
    requires
        minter_decode_model(d) is Some,
    ensures
        minter_encodable(minter_decode_model(d)->0),
        minter_encoding(minter_decode_model(d)->0) == d,
{
    let tp = read_str_model(d, 1)->0;
    crate::codec::lemma_read_str_inverse(d, 1);
    assert(seq![0u8] + d.subrange(1, tp.1) =~= d);
    assert(minter_encoding(minter_decode_model(d)->0) == seq![0u8] + str_encoding(tp.0));
}

} // verus!
