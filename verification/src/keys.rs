//! Address derivation: the pure mapping from ordered seed parts and an
//! owning program to a derived address and bump discriminant, together
//! with the seed-material capability value used to authorize on behalf of
//! a derived address.

use vstd::prelude::*;

verus! {

/// A 32-byte ledger address.
#[derive(Clone, Copy, Debug)]
pub struct Address(pub [u8; 32]);

impl View for Address {
    type V = Seq<u8>;

    open spec fn view(&self) -> Seq<u8> {
        self.0@
    }
}

/// Byte-wise equality of two addresses.
pub fn address_eq(a: &Address, b: &Address) -> (r: bool)
    ensures
        r == (a@ == b@),
{
    let mut i: usize = 0;
    while i < 32
        invariant
            0 <= i <= 32,
            forall|j: int| 0 <= j < i ==> a.0@[j] == b.0@[j],
        decreases 32 - i,
    {
        if a.0[i] != b.0[i] {
            assert(a@[i as int] != b@[i as int]);
            return false;
        }
        i = i + 1;
    }
    proof {
        assert(a@ =~= b@);
    }
    true
}

/// The bytes of an address, as an owned vector.
pub fn address_bytes(a: &Address) -> (r: Vec<u8>)
    ensures
        r@ == a@,
{
    let mut r: Vec<u8> = Vec::new();
    let mut i: usize = 0;
    while i < 32
        invariant
            0 <= i <= 32,
            r@.len() == i,
            forall|j: int| 0 <= j < i ==> r@[j] == a.0@[j],
        decreases 32 - i,
    {
        r.push(a.0[i]);
        i = i + 1;
    }
    proof {
        assert(r@ =~= a@);
    }
    r
}

/// Ordered seed parts, bump included as the trailing one-byte part, that
/// authorize a call on behalf of the derived address they produce.  The
/// seed material is passed by value with the call it signs; it is never
/// ambient state.
pub struct SignerSeeds {
    pub parts: Vec<Vec<u8>>,
}

impl View for SignerSeeds {
    type V = Seq<Seq<u8>>;

    open spec fn view(&self) -> Seq<Seq<u8>> {
        seeds_view(self.parts@)
    }
}

/// The views of an ordered list of seed parts.
pub open spec fn seeds_view(s: Seq<Vec<u8>>) -> Seq<Seq<u8>> {
    Seq::new(s.len(), |i: int| s[i]@)
}

/// The derived address and bump for the given ordered seed parts and
/// owning program, or `None` where no bump in 0..=255 yields a valid
/// derived address (for instance, a seed part above the platform's length
/// limit).  The result depends on the seed parts and the program alone.
pub uninterp spec fn derivation_of(seeds: Seq<Seq<u8>>, program_id: Seq<u8>) -> Option<
    (Seq<u8>, u8),
>;

/// Relies on `solana_program::pubkey::Pubkey::try_find_program_address`:
/// the derived address and bump are computed from the seed parts and the
/// owning program alone, so the result is the same on every call.
#[verifier::external_body]
pub fn find_derived_address(seeds: &Vec<Vec<u8>>, program_id: &Address) -> (r: Option<
    (Address, u8),
>)
    ensures
        match r {
            Some(ab) => derivation_of(seeds_view(seeds@), program_id@) == Some((ab.0@, ab.1)),
            None => derivation_of(seeds_view(seeds@), program_id@) is None,
        },
{
    let seed_refs: Vec<&[u8]> = seeds.iter().map(|s| s.as_slice()).collect();
    let program = solana_program::pubkey::Pubkey::new_from_array(program_id.0);
    match solana_program::pubkey::Pubkey::try_find_program_address(&seed_refs, &program) {
        Some((key, bump)) => Some((Address(key.to_bytes()), bump)),
        None => None,
    }
}

/// The canonical associated holding-account address for one owner and one
/// mint.  The result depends on the owner and the mint alone.
pub uninterp spec fn ata_of(wallet: Seq<u8>, mint: Seq<u8>) -> Seq<u8>;

/// Relies on `spl_associated_token_account::get_associated_token_address`:
/// the associated holding-account address is derived from the wallet and
/// the mint alone.
#[verifier::external_body]
pub fn associated_holding_address(wallet: &Address, mint: &Address) -> (r: Address)
    ensures
        r@ == ata_of(wallet@, mint@),
{
    let w = solana_program::pubkey::Pubkey::new_from_array(wallet.0);
    let m = solana_program::pubkey::Pubkey::new_from_array(mint.0);
    Address(spl_associated_token_account::get_associated_token_address(&w, &m).to_bytes())
}

/// The storage-exemption funding threshold for an account of the given
/// byte size under the host's fee schedule.
pub uninterp spec fn rent_exempt_min(space: u64) -> u64;

/// Relies on `solana_program::rent::Rent::minimum_balance` over the
/// schedule of `Rent::default()`: the threshold is computed from the byte
/// size and the schedule's constants alone.
#[verifier::external_body]
pub fn rent_exempt_minimum(space: u64) -> (r: u64)
    requires
        space <= 10_485_760,
    ensures
        r == rent_exempt_min(space),
{
    solana_program::rent::Rent::default().minimum_balance(space as usize)
}

/// The token-ledger program's address.
pub open spec fn spl_token_id_bytes() -> Seq<u8> {
    seq![
        6u8, 221, 246, 225, 215, 101, 161, 147, 217, 203, 225, 70, 206, 235, 121, 172, 28, 180,
        133, 237, 95, 91, 55, 145, 58, 140, 245, 133, 126, 255, 0, 169,
    ]
}

/// The native-asset mint's address.
pub open spec fn native_mint_id_bytes() -> Seq<u8> {
    seq![
        6u8, 155, 136, 87, 254, 171, 129, 132, 251, 104, 127, 99, 70, 24, 192, 53, 218, 196, 57,
        220, 26, 235, 59, 85, 152, 160, 240, 0, 0, 0, 0, 1,
    ]
}

/// Relies on `spl_token::id()`: the token program's well-known address,
/// declared in its source in base-58 form as
/// `TokenkegQfeZyiNwAJbNbGKPFXCWuBvf9Ss623VQ5DA` and stated here as its
/// raw bytes.
#[verifier::external_body]
pub fn token_program_id() -> (r: Address)
    ensures
        r@ == spl_token_id_bytes(),
{
    Address(spl_token::id().to_bytes())
}

/// Relies on `spl_token::native_mint::ID`: the native-asset mint's
/// well-known address, declared in its source in base-58 form as
/// `So11111111111111111111111111111111111111112` and stated here as its
/// raw bytes.
#[verifier::external_body]
pub fn native_mint_id() -> (r: Address)
    ensures
        r@ == native_mint_id_bytes(),
{
    Address(spl_token::native_mint::ID.to_bytes())
}

/// The fixed domain tag that prefixes every metadata-record derivation.
pub open spec fn metadata_prefix_bytes() -> Seq<u8> {
    seq![109u8, 101, 116, 97, 100, 97, 116, 97]
}

/// Relies on `mpl_token_metadata::state::PREFIX`, the string "metadata".
#[verifier::external_body]
pub fn metadata_prefix() -> (r: Vec<u8>)
    ensures
        r@ == metadata_prefix_bytes(),
{
    mpl_token_metadata::state::PREFIX.as_bytes().to_vec()
}

/// Derivation is deterministic: equal seed parts and equal owning program
/// always yield the same derived address and bump.
pub proof fn lemma_derivation_deterministic(
    seeds1: Seq<Seq<u8>>,
    seeds2: Seq<Seq<u8>>,
    program1: Seq<u8>,
    program2: Seq<u8>,
)
    requires
        seeds1 == seeds2,
        program1 == program2,
    ensures
        derivation_of(seeds1, program1) == derivation_of(seeds2, program2),
{
}

} // verus!
