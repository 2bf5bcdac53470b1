//! The ledger model: the durable entities the workflows create and
//! mutate, and a map from address to record that stands for the host
//! ledger.  Workflows run against this model, and their contracts are
//! stated over its view, a `Map<Seq<u8>, RecV>`.

use vstd::prelude::*;
use crate::keys::{Address, address_eq};

verus! {

/// The vault's lifecycle flag.  The only transition is
/// `Inactive -> Active`, taken exactly once, by the first fractionalize
/// call; no third state exists.
#[derive(Clone, Copy, PartialEq, Eq, Structural, Debug)]
pub enum VaultState {
    Inactive,
    Active,
}

/// An account that has been allocated but not yet initialized for a role:
/// its byte size and its owning program.
#[derive(Clone, Copy)]
pub struct RawRecord {
    pub space: u64,
    pub owner: Address,
}

/// A fungible or non-fungible unit issuer.
#[derive(Clone, Copy)]
pub struct MintRecord {
    pub supply: u64,
    pub decimals: u8,
    pub mint_authority: Address,
    pub freeze_authority: Option<Address>,
}

/// A delegation of a bounded amount to a transfer authority.
#[derive(Clone, Copy)]
pub struct Delegation {
    pub delegate: Address,
    pub amount: u64,
}

/// One owner's balance of one mint.
#[derive(Clone, Copy)]
pub struct HoldingRecord {
    pub mint: Address,
    pub owner: Address,
    pub amount: u64,
    pub delegation: Option<Delegation>,
}

/// An external price record for a vault.
#[derive(Clone, Copy)]
pub struct PriceRecord {
    pub price_per_share: u64,
    pub price_mint: Address,
    pub allowed_to_combine: bool,
}

/// A custodial basket of deposited tokens, fractionalized into shares.
#[derive(Clone, Copy)]
pub struct VaultRecord {
    pub state: VaultState,
    pub authority: Address,
    pub fraction_mint: Address,
    pub redeem_treasury: Address,
    pub fraction_treasury: Address,
    pub pricing_lookup: Address,
    pub allow_further_share_creation: bool,
    pub token_type_count: u8,
}

/// A record inside a vault describing one deposited token holding.
#[derive(Clone, Copy)]
pub struct DepositBoxRecord {
    pub vault: Address,
    pub token_mint: Address,
    pub store: Address,
    pub order: u8,
}

/// A descriptive record attached to a mint, with a single creator.
pub struct MetadataRecord {
    pub mint: Address,
    pub update_authority: Address,
    pub name: String,
    pub symbol: String,
    pub uri: String,
    pub creator: Address,
    pub creator_verified: bool,
    pub creator_share: u8,
}

/// What one ledger account holds.
pub enum AccountRecord {
    Raw(RawRecord),
    Mint(MintRecord),
    Holding(HoldingRecord),
    Price(PriceRecord),
    Vault(VaultRecord),
    DepositBox(DepositBoxRecord),
    Metadata(MetadataRecord),
}

/// View of `RawRecord`.
pub struct RawRecV {
    pub space: u64,
    pub owner: Seq<u8>,
}

/// View of `MintRecord`.
pub struct MintRecV {
    pub supply: u64,
    pub decimals: u8,
    pub mint_authority: Seq<u8>,
    pub freeze_authority: Option<Seq<u8>>,
}

/// View of `Delegation`.
pub struct DelegationV {
    pub delegate: Seq<u8>,
    pub amount: u64,
}

/// View of `HoldingRecord`.
pub struct HoldingRecV {
    pub mint: Seq<u8>,
    pub owner: Seq<u8>,
    pub amount: u64,
    pub delegation: Option<DelegationV>,
}

/// View of `PriceRecord`.
pub struct PriceRecV {
    pub price_per_share: u64,
    pub price_mint: Seq<u8>,
    pub allowed_to_combine: bool,
}

/// View of `VaultRecord`.
pub struct VaultRecV {
    pub state: VaultState,
    pub authority: Seq<u8>,
    pub fraction_mint: Seq<u8>,
    pub redeem_treasury: Seq<u8>,
    pub fraction_treasury: Seq<u8>,
    pub pricing_lookup: Seq<u8>,
    pub allow_further_share_creation: bool,
    pub token_type_count: u8,
}

/// View of `DepositBoxRecord`.
pub struct DepositBoxRecV {
    pub vault: Seq<u8>,
    pub token_mint: Seq<u8>,
    pub store: Seq<u8>,
    pub order: u8,
}

/// View of `MetadataRecord`.
pub struct MetadataRecV {
    pub mint: Seq<u8>,
    pub update_authority: Seq<u8>,
    pub name: Seq<char>,
    pub symbol: Seq<char>,
    pub uri: Seq<char>,
    pub creator: Seq<u8>,
    pub creator_verified: bool,
    pub creator_share: u8,
}

/// View of `AccountRecord`.
pub enum RecV {
    Raw(RawRecV),
    Mint(MintRecV),
    Holding(HoldingRecV),
    Price(PriceRecV),
    Vault(VaultRecV),
    DepositBox(DepositBoxRecV),
    Metadata(MetadataRecV),
}

impl View for RawRecord {
    type V = RawRecV;

    open spec fn view(&self) -> RawRecV {
        RawRecV { space: self.space, owner: self.owner@ }
    }
}

impl View for MintRecord {
    type V = MintRecV;

    open spec fn view(&self) -> MintRecV {
        MintRecV {
            supply: self.supply,
            decimals: self.decimals,
            mint_authority: self.mint_authority@,
            freeze_authority: match self.freeze_authority {
                Some(a) => Some(a@),
                None => None,
            },
        }
    }
}

impl View for Delegation {
    type V = DelegationV;

    open spec fn view(&self) -> DelegationV {
        DelegationV { delegate: self.delegate@, amount: self.amount }
    }
}

impl View for HoldingRecord {
    type V = HoldingRecV;

    open spec fn view(&self) -> HoldingRecV {
        HoldingRecV {
            mint: self.mint@,
            owner: self.owner@,
            amount: self.amount,
            delegation: match self.delegation {
                Some(d) => Some(d@),
                None => None,
            },
        }
    }
}

impl View for PriceRecord {
    type V = PriceRecV;

    open spec fn view(&self) -> PriceRecV {
        PriceRecV {
            price_per_share: self.price_per_share,
            price_mint: self.price_mint@,
            allowed_to_combine: self.allowed_to_combine,
        }
    }
}

impl View for VaultRecord {
    type V = VaultRecV;

    open spec fn view(&self) -> VaultRecV {
        VaultRecV {
            state: self.state,
            authority: self.authority@,
            fraction_mint: self.fraction_mint@,
            redeem_treasury: self.redeem_treasury@,
            fraction_treasury: self.fraction_treasury@,
            pricing_lookup: self.pricing_lookup@,
            allow_further_share_creation: self.allow_further_share_creation,
            token_type_count: self.token_type_count,
        }
    }
}

impl View for DepositBoxRecord {
    type V = DepositBoxRecV;

    open spec fn view(&self) -> DepositBoxRecV {
        DepositBoxRecV {
            vault: self.vault@,
            token_mint: self.token_mint@,
            store: self.store@,
            order: self.order,
        }
    }
}

impl View for MetadataRecord {
    type V = MetadataRecV;

    open spec fn view(&self) -> MetadataRecV {
        MetadataRecV {
            mint: self.mint@,
            update_authority: self.update_authority@,
            name: self.name@,
            symbol: self.symbol@,
            uri: self.uri@,
            creator: self.creator@,
            creator_verified: self.creator_verified,
            creator_share: self.creator_share,
        }
    }
}

impl View for AccountRecord {
    type V = RecV;

    open spec fn view(&self) -> RecV {
        match self {
            AccountRecord::Raw(r) => RecV::Raw(r@),
            AccountRecord::Mint(r) => RecV::Mint(r@),
            AccountRecord::Holding(r) => RecV::Holding(r@),
            AccountRecord::Price(r) => RecV::Price(r@),
            AccountRecord::Vault(r) => RecV::Vault(r@),
            AccountRecord::DepositBox(r) => RecV::DepositBox(r@),
            AccountRecord::Metadata(r) => RecV::Metadata(r@),
        }
    }
}

/// One address bound to one record.
pub struct LedgerEntry {
    pub address: Address,
    pub record: AccountRecord,
}

/// The modelled host ledger: entries are kept in insertion order and the
/// latest entry for an address wins, so the view is a map.
pub struct Ledger {
    pub entries: Vec<LedgerEntry>,
}

/// The map an entry sequence denotes: later entries override earlier ones.
pub open spec fn map_of(s: Seq<LedgerEntry>) -> Map<Seq<u8>, RecV>
    decreases s.len(),
{
    if s.len() == 0 {
        Map::empty()
    } else {
        map_of(s.drop_last()).insert(s.last().address@, s.last().record@)
    }
}

impl View for Ledger {
    type V = Map<Seq<u8>, RecV>;

    open spec fn view(&self) -> Map<Seq<u8>, RecV> {
        map_of(self.entries@)
    }
}

/// If position `i` holds the last entry for address `k`, the map holds
/// that entry's record at `k`.
proof fn lemma_map_of_found(s: Seq<LedgerEntry>, k: Seq<u8>, i: int)
    requires
        0 <= i < s.len(),
        s[i].address@ == k,
        forall|j: int| i < j < s.len() ==> s[j].address@ != k,
    ensures
        map_of(s).contains_key(k),
        map_of(s)[k] == s[i].record@,
    decreases s.len(),
{
    if i == s.len() - 1 {
    } else {
        assert(s.drop_last()[i] == s[i]);
        assert(forall|j: int|
            i < j < s.drop_last().len() ==> s.drop_last()[j] == s[j] && s[j].address@ != k);
        lemma_map_of_found(s.drop_last(), k, i);
        assert(s.last().address@ != k);
    }
}

/// If no entry holds address `k`, the map has no key `k`.
proof fn lemma_map_of_absent(s: Seq<LedgerEntry>, k: Seq<u8>)
    requires
        forall|j: int| 0 <= j < s.len() ==> s[j].address@ != k,
    ensures
        !map_of(s).contains_key(k),
    decreases s.len(),
{
    if s.len() > 0 {
        assert(forall|j: int|
            0 <= j < s.drop_last().len() ==> s.drop_last()[j] == s[j] && s[j].address@ != k);
        lemma_map_of_absent(s.drop_last(), k);
    }
}

/// Entry sequences with pointwise equal views denote the same map.
proof fn lemma_map_of_congruent(s1: Seq<LedgerEntry>, s2: Seq<LedgerEntry>)
    requires
        s1.len() == s2.len(),
        forall|j: int|
            0 <= j < s1.len() ==> s1[j].address@ == s2[j].address@ && s1[j].record@
                == s2[j].record@,
    ensures
        map_of(s1) == map_of(s2),
    decreases s1.len(),
{
    if s1.len() > 0 {
        assert(forall|j: int|
            0 <= j < s1.drop_last().len() ==> s1.drop_last()[j] == s1[j] && s2.drop_last()[j]
                == s2[j]);
        lemma_map_of_congruent(s1.drop_last(), s2.drop_last());
        assert(s1.last() == s1[s1.len() - 1]);
        assert(s2.last() == s2[s1.len() - 1]);
        assert(map_of(s1) =~= map_of(s2));
    }
}

/// A copy of one record, equal in view.
pub fn duplicate_record(r: &AccountRecord) -> (d: AccountRecord)
    ensures
        d@ == r@,
{
    match r {
        AccountRecord::Raw(x) => AccountRecord::Raw(RawRecord { space: x.space, owner: x.owner }),
        AccountRecord::Mint(x) => AccountRecord::Mint(
            MintRecord {
                supply: x.supply,
                decimals: x.decimals,
                mint_authority: x.mint_authority,
                freeze_authority: match x.freeze_authority {
                    Some(a) => Some(a),
                    None => None,
                },
            },
        ),
        AccountRecord::Holding(x) => AccountRecord::Holding(
            HoldingRecord {
                mint: x.mint,
                owner: x.owner,
                amount: x.amount,
                delegation: match &x.delegation {
                    Some(d) => Some(Delegation { delegate: d.delegate, amount: d.amount }),
                    None => None,
                },
            },
        ),
        AccountRecord::Price(x) => AccountRecord::Price(
            PriceRecord {
                price_per_share: x.price_per_share,
                price_mint: x.price_mint,
                allowed_to_combine: x.allowed_to_combine,
            },
        ),
        AccountRecord::Vault(x) => AccountRecord::Vault(
            VaultRecord {
                state: x.state,
                authority: x.authority,
                fraction_mint: x.fraction_mint,
                redeem_treasury: x.redeem_treasury,
                fraction_treasury: x.fraction_treasury,
                pricing_lookup: x.pricing_lookup,
                allow_further_share_creation: x.allow_further_share_creation,
                token_type_count: x.token_type_count,
            },
        ),
        AccountRecord::DepositBox(x) => AccountRecord::DepositBox(
            DepositBoxRecord {
                vault: x.vault,
                token_mint: x.token_mint,
                store: x.store,
                order: x.order,
            },
        ),
        AccountRecord::Metadata(x) => AccountRecord::Metadata(
            MetadataRecord {
                mint: x.mint,
                update_authority: x.update_authority,
                name: x.name.as_str().to_owned(),
                symbol: x.symbol.as_str().to_owned(),
                uri: x.uri.as_str().to_owned(),
                creator: x.creator,
                creator_verified: x.creator_verified,
                creator_share: x.creator_share,
            },
        ),
    }
}

impl Ledger {
    /// An empty ledger.
    pub fn new() -> (r: Ledger)
        ensures
            r@ == Map::<Seq<u8>, RecV>::empty(),
    {
        Ledger { entries: Vec::new() }
    }

    /// Bind `address` to `record`, inserting or overwriting.
    pub fn set(&mut self, address: Address, record: AccountRecord)
        ensures
            final(self)@ == old(self)@.insert(address@, record@),
    {
        self.entries.push(LedgerEntry { address, record });
        proof {
            assert(self.entries@.drop_last() =~= old(self).entries@);
        }
    }

    /// The record at `address`, if the address is initialized.
    pub fn get(&self, address: &Address) -> (r: Option<&AccountRecord>)
        ensures
            match r {
                Some(rec) => self@.contains_key(address@) && rec@ == self@[address@],
                None => !self@.contains_key(address@),
            },
    {
        let n = self.entries.len();
        let mut i: usize = n;
        while i > 0
            invariant
                i <= n,
                n == self.entries.len(),
                forall|j: int| i <= j < n ==> self.entries@[j].address@ != address@,
            decreases i,
        {
            i = i - 1;
            if address_eq(&self.entries[i].address, address) {
                proof {
                    lemma_map_of_found(self.entries@, address@, i as int);
                }
                return Some(&self.entries[i].record);
            }
        }
        proof {
            lemma_map_of_absent(self.entries@, address@);
        }
        None
    }

    /// Whether `address` is initialized.
    pub fn contains(&self, address: &Address) -> (r: bool)
        ensures
            r == self@.contains_key(address@),
    {
        match self.get(address) {
            Some(_) => true,
            None => false,
        }
    }

    /// A copy of the whole ledger, equal in view.
    pub fn duplicate(&self) -> (r: Ledger)
        ensures
            r@ == self@,
    {
        let mut entries: Vec<LedgerEntry> = Vec::new();
        let mut i: usize = 0;
        while i < self.entries.len()
            invariant
                i <= self.entries.len(),
                entries@.len() == i,
                forall|j: int|
                    0 <= j < i ==> entries@[j].address@ == self.entries@[j].address@
                        && entries@[j].record@ == self.entries@[j].record@,
            decreases self.entries.len() - i,
        {
            let e = &self.entries[i];
            entries.push(LedgerEntry { address: e.address, record: duplicate_record(&e.record) });
            i = i + 1;
        }
        let r = Ledger { entries };
        proof {
            lemma_map_of_congruent(self.entries@, r.entries@);
        }
        r
    }
}

} // verus!
