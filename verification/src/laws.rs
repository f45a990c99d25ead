//! Laws relating several engine operations, proved from the transition
//! predicates alone.

use vstd::prelude::*;
use crate::contract::{bid_ok, mint_allowed, place_ok, royalty_sum, update_minter_ok,
    DEFAULT_EXPIRATION};
use crate::msg::{IntentV, ResponseV};
use crate::state::{CoinV, MinterEntryV, StateV, lemma_reg_exp_at, lemma_reg_push,
    lemma_reg_remove, reg_has, reg_idx, reg_remove_spec, reg_unique, Royalty, ROYALTY_ONE};

verus! {

/// On any accepted bid over a listing that already carries a bid, the
/// best-bid amount never decreases (and the denomination is kept), so
/// over any sequence of accepted bids on one listing the best-bid
/// amount is non-decreasing.
pub proof fn lemma_bid_monotonic(
    pre: StateV,
    post: StateV,
    height: u64,
    contract: Seq<char>,
    sender: Seq<char>,
    funds: Option<CoinV>,
    listing_id: u64,
    resp: ResponseV,
)
    requires
        bid_ok(pre, post, height, contract, sender, funds, listing_id, resp),
        pre.listings[listing_id].max_bid is Some,
    ensures
        post.listings.contains_key(listing_id),
        post.listings[listing_id].max_bid matches Some(nb)
            && nb.amount >= pre.listings[listing_id].max_bid->Some_0.amount
            && nb.denom == pre.listings[listing_id].max_bid->Some_0.denom,
{
}

/// Each accepted bid that displaces a real prior bidder emits exactly
/// one refund intent, to exactly that bidder, for exactly the prior
/// amount: for two consecutive accepted bids on one listing, the second
/// refunds the first.
pub proof fn lemma_bid_refunds_previous(
    s0: StateV,
    s1: StateV,
    s2: StateV,
    h1: u64,
    h2: u64,
    contract: Seq<char>,
    first_bidder: Seq<char>,
    second_bidder: Seq<char>,
    f1: Option<CoinV>,
    f2: Option<CoinV>,
    listing_id: u64,
    r1: ResponseV,
    r2: ResponseV,
)
    requires
        bid_ok(s0, s1, h1, contract, first_bidder, f1, listing_id, r1),
        bid_ok(s1, s2, h2, contract, second_bidder, f2, listing_id, r2),
        first_bidder != contract,
    ensures
        f2->Some_0.amount >= f1->Some_0.amount,
        r2.messages == seq![
            IntentV::BankSend { to_address: first_bidder, amount: f1->Some_0 },
        ],
{
    assert(s1.listings.contains_key(listing_id));
    assert(s1.listings[listing_id].max_bidder == first_bidder);
    assert(s1.listings[listing_id].max_bid == Some(f1->Some_0));
}

/// The very first accepted bid on a fresh listing triggers no refund
/// intent: the placement's sentinel bidder is not a real identity.
pub proof fn lemma_first_bid_no_refund(
    s0: StateV,
    s1: StateV,
    s2: StateV,
    place_height: u64,
    bid_height: u64,
    contract: Seq<char>,
    seller: Seq<char>,
    bidder: Seq<char>,
    nft_addr: Seq<char>,
    id: Seq<char>,
    min_bid: Option<CoinV>,
    funds: Option<CoinV>,
    listing_id: u64,
    rp: ResponseV,
    rb: ResponseV,
)
    requires
        place_ok(s0, s1, place_height, contract, seller, nft_addr, id, min_bid, rp),
        bid_ok(s1, s2, bid_height, contract, bidder, funds, listing_id, rb),
        listing_id == (s0.config->Some_0.listing_count + 1) as u64,
    ensures
        rb.messages == Seq::<IntentV>::empty(),
{
    assert(s1.listings.contains_key(listing_id));
    assert(s1.listings[listing_id].max_bidder == contract);
}

/// One accepted bid of a chain: the request's inputs, and the state and
/// response it produced.
pub struct BidStep {
    pub height: u64,
    pub sender: Seq<char>,
    pub funds: Option<CoinV>,
    pub post: StateV,
    pub resp: ResponseV,
}

/// The state a step of a chain starts from: the initial state for the
/// first step, the previous step's result after that.
pub open spec fn chain_pre(s0: StateV, steps: Seq<BidStep>, k: int) -> StateV {
    if k == 0 {
        s0
    } else {
        steps[k - 1].post
    }
}

/// A chain of accepted bids on one listing, each step transforming the
/// previous step's state.
pub open spec fn bid_chain(
    s0: StateV,
    contract: Seq<char>,
    listing_id: u64,
    steps: Seq<BidStep>,
) -> bool
    decreases steps.len(),
{
    steps.len() == 0 || {
        let last = steps.last();
        &&& bid_chain(s0, contract, listing_id, steps.drop_last())
        &&& bid_ok(
            chain_pre(s0, steps, steps.len() - 1),
            last.post,
            last.height,
            contract,
            last.sender,
            last.funds,
            listing_id,
            last.resp,
        )
    }
}

/// Every step of a chain is an accepted bid from its predecessor's
/// state.
pub proof fn lemma_chain_step(
    s0: StateV,
    contract: Seq<char>,
    listing_id: u64,
    steps: Seq<BidStep>,
    k: int,
)
    requires
        bid_chain(s0, contract, listing_id, steps),
        0 <= k < steps.len(),
    ensures
        bid_ok(
            chain_pre(s0, steps, k),
            steps[k].post,
            steps[k].height,
            contract,
            steps[k].sender,
            steps[k].funds,
            listing_id,
            steps[k].resp,
        ),
    decreases steps.len(),
{
    if k < steps.len() - 1 {
        lemma_chain_step(s0, contract, listing_id, steps.drop_last(), k);
        assert(steps.drop_last()[k] == steps[k]);
        if k > 0 {
            assert(steps.drop_last()[k - 1] == steps[k - 1]);
        }
    }
}

/// Over any chain of accepted bids on one listing the bid amounts are
/// non-decreasing.
pub proof fn lemma_chain_monotonic(
    s0: StateV,
    contract: Seq<char>,
    listing_id: u64,
    steps: Seq<BidStep>,
    i: int,
    j: int,
)
    requires
        bid_chain(s0, contract, listing_id, steps),
        0 <= i <= j < steps.len(),
    ensures
        steps[i].funds->Some_0.amount <= steps[j].funds->Some_0.amount,
    decreases j - i,
{
    if i < j {
        lemma_chain_monotonic(s0, contract, listing_id, steps, i, j - 1);
        lemma_chain_step(s0, contract, listing_id, steps, j - 1);
        lemma_chain_step(s0, contract, listing_id, steps, j);
        assert(steps[j - 1].post.listings[listing_id].max_bid
            == Some(steps[j - 1].funds->Some_0));
    }
}

/// Every step of a chain after the first emits exactly one refund
/// intent, to the immediately-previous bidder, for exactly the
/// immediately-previous amount; the first accepted bid over a listing
/// whose stored best bidder is the sentinel emits none.
pub proof fn lemma_chain_refunds(
    s0: StateV,
    contract: Seq<char>,
    listing_id: u64,
    steps: Seq<BidStep>,
    k: int,
)
    requires
        bid_chain(s0, contract, listing_id, steps),
        1 <= k < steps.len(),
        steps[k - 1].sender != contract,
    ensures
        steps[k].resp.messages == seq![
            IntentV::BankSend {
                to_address: steps[k - 1].sender,
                amount: steps[k - 1].funds->Some_0,
            },
        ],
{
    lemma_chain_step(s0, contract, listing_id, steps, k - 1);
    lemma_chain_step(s0, contract, listing_id, steps, k);
    assert(steps[k - 1].post.listings[listing_id].max_bidder == steps[k - 1].sender);
    assert(steps[k - 1].post.listings[listing_id].max_bid == Some(steps[k - 1].funds->Some_0));
}

/// After a successful registration, the registered identity passes the
/// mint authorization gate (for any royalties summing to at most one).
pub proof fn lemma_registered_minter_allowed(
    s0: StateV,
    s1: StateV,
    owner: Seq<char>,
    minter: Seq<char>,
    resp: ResponseV,
    royalties: Seq<Royalty>,
)
    requires
        update_minter_ok(s0, s1, owner, minter, resp),
        reg_unique(s0.minters),
        royalty_sum(royalties) <= ROYALTY_ONE,
    ensures
        mint_allowed(s1, minter, royalties),
{
    let removed = reg_remove_spec(s0.minters, minter);
    if reg_has(s0.minters, minter) {
        lemma_reg_remove(s0.minters, reg_idx(s0.minters, minter), minter);
    }
    let entry = MinterEntryV { address: minter, expiration_time: DEFAULT_EXPIRATION };
    lemma_reg_push(removed, entry);
    assert(s1.minters == removed.push(entry));
    assert(s1.minters[s1.minters.len() - 1] == entry);
    lemma_reg_exp_at(s1.minters, s1.minters.len() - 1);
}

} // verus!
