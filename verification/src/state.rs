//! Data model: configuration, listings, minter registry, and the
//! process-wide state that every engine operation reads and mutates.

use vstd::prelude::*;
use std::collections::HashMap;

verus! {

broadcast use vstd::std_specs::hash::group_hash_axioms;

/// A fungible amount together with its denomination.
#[derive(Debug, PartialEq)]
pub struct Coin {
    pub denom: String,
    pub amount: u128,
}

/// Mathematical value of a [`Coin`].
pub struct CoinV {
    pub denom: Seq<char>,
    pub amount: u128,
}

impl View for Coin {
    type V = CoinV;

    open spec fn view(&self) -> CoinV {
        CoinV { denom: self.denom@, amount: self.amount }
    }
}

impl Clone for Coin {
    fn clone(&self) -> (r: Self)
        ensures
            r@ == self@,
    {
        Coin { denom: self.denom.clone(), amount: self.amount }
    }
}

/// Spec-level view of an optional coin.
pub open spec fn opt_coin_view(c: Option<Coin>) -> Option<CoinV> {
    match c {
        Some(coin) => Some(coin@),
        None => None,
    }
}

/// Royalty attached to a minted asset: a fractional rate expressed in
/// units of 10^-18, so that a rate of one is [`ROYALTY_ONE`].
#[derive(Clone, Copy, Debug, PartialEq, Eq, Structural)]
pub struct Royalty {
    pub royalty_rate: u64,
}

/// A royalty rate of exactly one, in units of 10^-18.
pub const ROYALTY_ONE: u64 = 1000000000000000000;

/// Spec-level view of an optional string.
pub open spec fn opt_str_view(s: Option<String>) -> Option<Seq<char>> {
    match s {
        Some(t) => Some(t@),
        None => None,
    }
}

/// Descriptor attached permanently to a minted asset.
#[derive(Debug, PartialEq)]
pub struct Metadata {
    /// Identifies the asset this NFT represents.
    pub name: String,
    /// Describes the asset (may be absent).
    pub description: Option<String>,
    /// An external URI.
    pub external_link: Option<String>,
    /// Collection marker.
    pub collection: Option<u128>,
    /// Number of real piece representations.
    pub num_real_repr: u128,
    /// Number of collectible units.
    pub num_nfts: u128,
    /// Royalties; their rates must sum to at most one.
    pub royalties: Vec<Royalty>,
    /// Initial ask price.
    pub init_price: u128,
}

/// Mathematical value of a [`Metadata`].
pub struct MetadataV {
    pub name: Seq<char>,
    pub description: Option<Seq<char>>,
    pub external_link: Option<Seq<char>>,
    pub collection: Option<u128>,
    pub num_real_repr: u128,
    pub num_nfts: u128,
    pub royalties: Seq<Royalty>,
    pub init_price: u128,
}

impl View for Metadata {
    type V = MetadataV;

    open spec fn view(&self) -> MetadataV {
        MetadataV {
            name: self.name@,
            description: opt_str_view(self.description),
            external_link: opt_str_view(self.external_link),
            collection: self.collection,
            num_real_repr: self.num_real_repr,
            num_nfts: self.num_nfts,
            royalties: self.royalties@,
            init_price: self.init_price,
        }
    }
}

/// Administrative parameters: a single record per deployment.
#[derive(Debug, PartialEq)]
pub struct Config {
    /// Monotonically increasing sequence counter, shared by listing
    /// numbering and minted-asset numbering; starts at zero.
    pub listing_count: u64,
    /// Owner identity, fixed at instantiation.
    pub owner: String,
    /// Default authorization window handed to registered minters.
    pub expiration_time: u64,
    /// Address of the external Asset Custodian.
    pub nft_contract_address: String,
}

/// Mathematical value of a [`Config`].
pub struct ConfigV {
    pub listing_count: u64,
    pub owner: Seq<char>,
    pub expiration_time: u64,
    pub nft_contract_address: Seq<char>,
}

impl View for Config {
    type V = ConfigV;

    open spec fn view(&self) -> ConfigV {
        ConfigV {
            listing_count: self.listing_count,
            owner: self.owner@,
            expiration_time: self.expiration_time,
            nft_contract_address: self.nft_contract_address@,
        }
    }
}

impl Clone for Config {
    fn clone(&self) -> (r: Self)
        ensures
            r@ == self@,
    {
        Config {
            listing_count: self.listing_count,
            owner: self.owner.clone(),
            expiration_time: self.expiration_time,
            nft_contract_address: self.nft_contract_address.clone(),
        }
    }
}

/// One auction record.
#[derive(Debug, PartialEq)]
pub struct Listing {
    /// Identifier of the asset put up for bid.
    pub token_id: String,
    /// Address of the Asset Custodian holding the asset.
    pub contract_addr: String,
    /// Identity that placed the listing.
    pub seller: String,
    /// Current best bid; at placement this is the configured minimum.
    pub max_bid: Option<Coin>,
    /// Current best bidder; the engine's own address is the sentinel
    /// meaning "no bid yet".
    pub max_bidder: String,
    /// Absolute height at which bidding ends.
    pub block_limit: u64,
}

/// Mathematical value of a [`Listing`].
pub struct ListingV {
    pub token_id: Seq<char>,
    pub contract_addr: Seq<char>,
    pub seller: Seq<char>,
    pub max_bid: Option<CoinV>,
    pub max_bidder: Seq<char>,
    pub block_limit: u64,
}

impl View for Listing {
    type V = ListingV;

    open spec fn view(&self) -> ListingV {
        ListingV {
            token_id: self.token_id@,
            contract_addr: self.contract_addr@,
            seller: self.seller@,
            max_bid: opt_coin_view(self.max_bid),
            max_bidder: self.max_bidder@,
            block_limit: self.block_limit,
        }
    }
}

/// Authorization record for a whitelisted minter.  A window of zero is
/// equivalent to the record being absent: not authorized.
#[derive(Clone, Copy, Debug, PartialEq, Eq, Structural)]
pub struct MinterInfo {
    pub expiration_time: u64,
}

/// One entry of the minter registry.
#[derive(Debug, PartialEq)]
pub struct MinterEntry {
    pub address: String,
    pub info: MinterInfo,
}

/// Mathematical value of a [`MinterEntry`].
pub struct MinterEntryV {
    pub address: Seq<char>,
    pub expiration_time: u64,
}

impl View for MinterEntry {
    type V = MinterEntryV;

    open spec fn view(&self) -> MinterEntryV {
        MinterEntryV { address: self.address@, expiration_time: self.info.expiration_time }
    }
}

/// Mathematical value of a whole registry.
pub open spec fn reg_view(s: Seq<MinterEntry>) -> Seq<MinterEntryV> {
    s.map_values(|e: MinterEntry| e@)
}

/// Whether the registry holds a record for `addr`.
pub open spec fn reg_has(s: Seq<MinterEntryV>, addr: Seq<char>) -> bool {
    exists|i: int| 0 <= i < s.len() && s[i].address == addr
}

/// Authorization window the registry grants `addr`: the window of its
/// record if one is present, else zero.  Well defined on registries whose
/// addresses are pairwise distinct.
pub open spec fn reg_exp(s: Seq<MinterEntryV>, addr: Seq<char>) -> u64 {
    if reg_has(s, addr) {
        let i = choose|i: int| 0 <= i < s.len() && s[i].address == addr;
        s[i].expiration_time
    } else {
        0
    }
}

/// Index of the record for `addr`; meaningful only when `reg_has` holds.
pub open spec fn reg_idx(s: Seq<MinterEntryV>, addr: Seq<char>) -> int {
    choose|i: int| 0 <= i < s.len() && s[i].address == addr
}

/// The registry with the record for `addr` deleted, all other entries
/// kept in order.
pub open spec fn reg_remove_spec(s: Seq<MinterEntryV>, addr: Seq<char>) -> Seq<MinterEntryV> {
    if reg_has(s, addr) {
        s.remove(reg_idx(s, addr))
    } else {
        s
    }
}

/// Addresses of the registry entries are pairwise distinct.
pub open spec fn reg_unique(s: Seq<MinterEntryV>) -> bool {
    forall|i: int, j: int|
        0 <= i < s.len() && 0 <= j < s.len() && i != j ==> s[i].address != s[j].address
}

/// On a registry with distinct addresses, any entry holding `addr`
/// determines the whole lookup.
pub proof fn lemma_reg_exp_at(s: Seq<MinterEntryV>, i: int)
    requires
        reg_unique(s),
        0 <= i < s.len(),
    ensures
        reg_exp(s, s[i].address) == s[i].expiration_time,
{
    assert(reg_has(s, s[i].address));
    let j = choose|j: int| 0 <= j < s.len() && s[j].address == s[i].address;
    assert(j == i);
}

/// The process-wide state: the three singleton stores.
pub struct State {
    /// Administrative record; absent until instantiation.
    pub config: Option<Config>,
    /// Listing store, keyed by the sequence number assigned at placement.
    pub listings: HashMap<u64, Listing>,
    /// Minter registry, in registration order.
    pub minters: Vec<MinterEntry>,
}

/// Mathematical value of a whole listing store.
pub open spec fn listings_view(m: Map<u64, Listing>) -> Map<u64, ListingV> {
    m.map_values(|l: Listing| l@)
}

/// Taking views commutes with storing a listing.
pub proof fn lemma_listings_view_insert(m: Map<u64, Listing>, k: u64, l: Listing)
    ensures
        listings_view(m.insert(k, l)) == listings_view(m).insert(k, l@),
{
    assert(listings_view(m.insert(k, l)) =~= listings_view(m).insert(k, l@));
}

/// Taking views commutes with deleting a listing.
pub proof fn lemma_listings_view_remove(m: Map<u64, Listing>, k: u64)
    ensures
        listings_view(m.remove(k)) == listings_view(m).remove(k),
{
    assert(listings_view(m.remove(k)) =~= listings_view(m).remove(k));
}

/// Mathematical value of a [`State`].
pub struct StateV {
    pub config: Option<ConfigV>,
    pub listings: Map<u64, ListingV>,
    pub minters: Seq<MinterEntryV>,
}

impl View for State {
    type V = StateV;

    open spec fn view(&self) -> StateV {
        StateV {
            config: match self.config {
                Some(c) => Some(c@),
                None => None,
            },
            listings: listings_view(self.listings@),
            minters: reg_view(self.minters@),
        }
    }
}

impl StateV {
    /// Well-formedness, relative to the engine's own address `contract`
    /// (the sentinel bidder): the minter registry has pairwise distinct
    /// addresses, and every listing whose best bidder is a real identity
    /// carries a best bid.
    pub open spec fn wf(self, contract: Seq<char>) -> bool {
        &&& reg_unique(self.minters)
        &&& forall|k: u64| #[trigger]
            self.listings.contains_key(k) ==> (self.listings[k].max_bidder != contract
                ==> self.listings[k].max_bid is Some)
    }
}

impl State {
    /// Fresh, empty state: nothing configured, no listings, no minters.
    pub fn new() -> (r: State)
        ensures
            r@.config is None,
            r@.listings == Map::<u64, ListingV>::empty(),
            r@.minters == Seq::<MinterEntryV>::empty(),
            forall|c: Seq<char>| r@.wf(c),
    {
        let r = State { config: None, listings: HashMap::new(), minters: Vec::new() };
        proof {
            assert(r@.listings =~= Map::<u64, ListingV>::empty());
            assert(r@.minters =~= Seq::<MinterEntryV>::empty());
        }
        r
    }
}

/// Looks a listing up by its key.
pub fn load_listing<'a>(listings: &'a HashMap<u64, Listing>, key: u64) -> (r: Option<&'a Listing>)
    ensures
        match r {
            Some(l) => listings@.contains_key(key) && l@ == listings@[key]@,
            None => !listings@.contains_key(key),
        },
{
    listings.get(&key)
}

/// Removes a listing by its key, handing the record out.
pub fn take_listing(listings: &mut HashMap<u64, Listing>, key: u64) -> (r: Option<Listing>)
    ensures
        final(listings)@ == old(listings)@.remove(key),
        match r {
            Some(l) => old(listings)@.contains_key(key) && l@ == old(listings)@[key]@,
            None => !old(listings)@.contains_key(key),
        },
{
    listings.remove(&key)
}

/// Stores a listing under `key`, overwriting any record already there.
pub fn save_listing(listings: &mut HashMap<u64, Listing>, key: u64, listing: Listing)
    ensures
        final(listings)@ == old(listings)@.insert(key, listing),
{
    listings.insert(key, listing);
}

/// Authorization record for `addr`: the stored record if present, else a
/// record with window zero (absence and zero are equivalent).
pub fn read_minter_info(minters: &Vec<MinterEntry>, addr: &String) -> (r: MinterInfo)
    requires
        reg_unique(reg_view(minters@)),
    ensures
        r.expiration_time == reg_exp(reg_view(minters@), addr@),
{
    let ghost s = reg_view(minters@);
    let n = minters.len();
    let mut i: usize = 0;
    while i < n
        invariant
            n == minters.len(),
            0 <= i <= n,
            s == reg_view(minters@),
            reg_unique(s),
            forall|j: int| 0 <= j < i ==> s[j].address != addr@,
        decreases n - i,
    {
        if minters[i].address == *addr {
            proof {
                lemma_reg_exp_at(s, i as int);
            }
            return minters[i].info;
        }
        i += 1;
    }
    proof {
        assert(!reg_has(s, addr@));
    }
    MinterInfo { expiration_time: 0 }
}

/// Deletes the record for `addr`, if any.  All other records keep their
/// windows; registration order of the rest is preserved.
pub fn remove_minter(minters: &mut Vec<MinterEntry>, addr: &String)
    requires
        reg_unique(reg_view(old(minters)@)),
    ensures
        reg_view(final(minters)@) == reg_remove_spec(reg_view(old(minters)@), addr@),
        reg_unique(reg_view(final(minters)@)),
        !reg_has(reg_view(final(minters)@), addr@),
        forall|a: Seq<char>|
            a != addr@ ==> #[trigger] reg_exp(reg_view(final(minters)@), a)
                == reg_exp(reg_view(old(minters)@), a),
        forall|a: Seq<char>|
            a != addr@ ==> (#[trigger] reg_has(reg_view(final(minters)@), a)
                <==> reg_has(reg_view(old(minters)@), a)),
{
    let ghost s0 = reg_view(minters@);
    let n = minters.len();
    let mut i: usize = 0;
    while i < n
        invariant
            n == minters.len(),
            0 <= i <= n,
            s0 == reg_view(minters@),
            s0 == reg_view(old(minters)@),
            reg_unique(s0),
            forall|j: int| 0 <= j < i ==> s0[j].address != addr@,
        decreases n - i,
    {
        if minters[i].address == *addr {
            let ghost iw = i as int;
            proof {
                assert(s0[iw] == minters@[iw]@);
                assert(s0[iw].address == addr@);
                assert(reg_has(s0, addr@));
                assert(iw == reg_idx(s0, addr@));
            }
            minters.remove(i);
            proof {
                let s1 = reg_view(minters@);
                assert(s1 =~= s0.remove(iw));
                lemma_reg_remove(s0, iw, addr@);
                assert forall|a: Seq<char>| a != addr@ implies #[trigger] reg_exp(s1, a)
                    == reg_exp(s0, a) by {
                    assert(reg_exp(s0.remove(iw), a) == reg_exp(s0, a));
                }
                assert forall|a: Seq<char>| a != addr@ implies (#[trigger] reg_has(s1, a)
                    <==> reg_has(s0, a)) by {
                    assert(reg_has(s0.remove(iw), a) <==> reg_has(s0, a));
                }
            }
            return ;
        }
        i += 1;
    }
    proof {
        assert(!reg_has(s0, addr@));
    }
}

/// Removing the sole entry holding `addr` from a registry with distinct
/// addresses leaves every other lookup unchanged.
pub proof fn lemma_reg_remove(s: Seq<MinterEntryV>, i: int, addr: Seq<char>)
    requires
        reg_unique(s),
        0 <= i < s.len(),
        s[i].address == addr,
    ensures
        reg_unique(s.remove(i)),
        !reg_has(s.remove(i), addr),
        forall|a: Seq<char>|
            a != addr ==> #[trigger] reg_exp(s.remove(i), a) == reg_exp(s, a),
        forall|a: Seq<char>| a != addr ==> (#[trigger] reg_has(s.remove(i), a) <==> reg_has(s, a)),
{
    let t = s.remove(i);
    assert forall|p: int, q: int|
        0 <= p < t.len() && 0 <= q < t.len() && p != q implies t[p].address != t[q].address by {
        let sp = if p < i { p } else { p + 1 };
        let sq = if q < i { q } else { q + 1 };
        assert(t[p] == s[sp] && t[q] == s[sq]);
    }
    assert forall|j: int| 0 <= j < t.len() implies t[j].address != addr by {
        let sj = if j < i { j } else { j + 1 };
        assert(t[j] == s[sj]);
        assert(sj != i);
    }
    assert forall|a: Seq<char>| a != addr implies (#[trigger] reg_has(t, a) <==> reg_has(s, a)) by {
        if reg_has(t, a) {
            let j = choose|j: int| 0 <= j < t.len() && t[j].address == a;
            let sj = if j < i { j } else { j + 1 };
            assert(s[sj] == t[j]);
            assert(reg_has(s, a));
        }
        if reg_has(s, a) {
            let j = choose|j: int| 0 <= j < s.len() && s[j].address == a;
            assert(j != i);
            let tj = if j < i { j } else { j - 1 };
            assert(t[tj] == s[j]);
            assert(reg_has(t, a));
        }
    }
    assert forall|a: Seq<char>| a != addr implies #[trigger] reg_exp(t, a) == reg_exp(s, a) by {
        if reg_has(t, a) {
            let j = choose|j: int| 0 <= j < t.len() && t[j].address == a;
            let sj = if j < i { j } else { j + 1 };
            assert(s[sj] == t[j]);
            lemma_reg_exp_at(t, j);
            lemma_reg_exp_at(s, sj);
        }
    }
}

/// Sets the record for `addr` to `info`, overwriting any prior record.
/// Every other record keeps its window.
pub fn store_minters(minters: &mut Vec<MinterEntry>, addr: String, info: MinterInfo)
    requires
        reg_unique(reg_view(old(minters)@)),
    ensures
        reg_view(final(minters)@) == reg_remove_spec(reg_view(old(minters)@), addr@).push(
            (MinterEntryV { address: addr@, expiration_time: info.expiration_time }),
        ),
        reg_unique(reg_view(final(minters)@)),
        reg_has(reg_view(final(minters)@), addr@),
        reg_exp(reg_view(final(minters)@), addr@) == info.expiration_time,
        forall|a: Seq<char>|
            a != addr@ ==> #[trigger] reg_exp(reg_view(final(minters)@), a)
                == reg_exp(reg_view(old(minters)@), a),
        forall|a: Seq<char>|
            a != addr@ ==> (#[trigger] reg_has(reg_view(final(minters)@), a)
                <==> reg_has(reg_view(old(minters)@), a)),
{
    remove_minter(minters, &addr);
    let ghost s1 = reg_view(minters@);
    let entry = MinterEntry { address: addr, info };
    let ghost ev = entry@;
    minters.push(entry);
    proof {
        let s2 = reg_view(minters@);
        assert(s2 =~= s1.push(ev));
        lemma_reg_push(s1, ev);
        lemma_reg_exp_at(s2, s2.len() - 1);
    }
}

/// Appending an entry whose address is absent keeps the registry's
/// addresses distinct and every other lookup unchanged.
pub proof fn lemma_reg_push(s: Seq<MinterEntryV>, e: MinterEntryV)
    requires
        reg_unique(s),
        !reg_has(s, e.address),
    ensures
        reg_unique(s.push(e)),
        reg_has(s.push(e), e.address),
        forall|a: Seq<char>|
            a != e.address ==> #[trigger] reg_exp(s.push(e), a) == reg_exp(s, a),
        forall|a: Seq<char>|
            a != e.address ==> (#[trigger] reg_has(s.push(e), a) <==> reg_has(s, a)),
{
    let t = s.push(e);
    assert forall|p: int, q: int|
        0 <= p < t.len() && 0 <= q < t.len() && p != q implies t[p].address != t[q].address by {
        if p < s.len() && q < s.len() {
        } else if p == s.len() {
            assert(t[q] == s[q]);
        } else {
            assert(t[p] == s[p]);
        }
    }
    assert(t[s.len() as int] == e);
    assert forall|a: Seq<char>| a != e.address implies (#[trigger] reg_has(t, a) <==> reg_has(
        s,
        a,
    )) by {
        if reg_has(t, a) {
            let j = choose|j: int| 0 <= j < t.len() && t[j].address == a;
            assert(j != s.len());
            assert(s[j] == t[j]);
            assert(reg_has(s, a));
        }
        if reg_has(s, a) {
            let j = choose|j: int| 0 <= j < s.len() && s[j].address == a;
            assert(t[j] == s[j]);
            assert(reg_has(t, a));
        }
    }
    assert forall|a: Seq<char>| a != e.address implies #[trigger] reg_exp(t, a) == reg_exp(
        s,
        a,
    ) by {
        if reg_has(t, a) {
            let j = choose|j: int| 0 <= j < t.len() && t[j].address == a;
            assert(j != s.len());
            assert(s[j] == t[j]);
            lemma_reg_exp_at(t, j);
            lemma_reg_exp_at(s, j);
        }
    }
}

/// Identities of all registered minters, in registration order.
pub fn read_minters(minters: &Vec<MinterEntry>) -> (r: Vec<String>)
    ensures
        r@.len() == minters@.len(),
        forall|i: int| 0 <= i < r@.len() ==> r@[i]@ == minters@[i].address@,
{
    let n = minters.len();
    let mut out: Vec<String> = Vec::new();
    let mut i: usize = 0;
    while i < n
        invariant
            n == minters.len(),
            0 <= i <= n,
            out@.len() == i,
            forall|j: int| 0 <= j < i ==> out@[j]@ == minters@[j].address@,
        decreases n - i,
    {
        out.push(minters[i].address.clone());
        i += 1;
    }
    out
}

} // verus!
