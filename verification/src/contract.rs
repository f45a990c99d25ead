//! The engines: listing placement, bidding, withdrawal, minter
//! administration, minting, and the read-only queries.
//!
//! Every operation is specified by a transition predicate over the
//! mathematical state: the `*_ok` predicate describes a successful
//! transition, and the `*_post` predicate additionally pins down, for
//! every input, which error is returned and that an error leaves the
//! state unchanged.

use vstd::prelude::*;
use vstd::string::StringExecFns;
use crate::coin_helpers::{assert_sent_sufficient_coin, sufficient};
use crate::error::{ContractError, StdErr};
use crate::msg::{Attribute, AttributeV, Env, ExecuteMsg, GFMintMsg, GFMintMsgV, InstantiateMsg,
    Intent, IntentV, MessageInfo, QueryAnswer, QueryMsg, ResolveListingResponse, Response,
    ResponseV, metadata_of};
use crate::numfmt::{dec_rep, u64_to_dec};
use crate::state::{Coin, Config, ConfigV, Listing, ListingV, Metadata, MinterEntryV, MinterInfo,
    Royalty, State, StateV, load_listing, opt_coin_view, read_minter_info, read_minters,
    reg_exp, reg_remove_spec, remove_minter, save_listing, store_minters, take_listing,
    ROYALTY_ONE};

verus! {

/// Default authorization window handed to a registered minter.
pub const DEFAULT_EXPIRATION: u64 = 1000000;

/// Blocks from placement until a listing's closing height.
pub const AUCTION_DURATION: u64 = 50000;

/// Blocks from placement until the custody approval expires.
pub const APPROVE_DURATION: u64 = 20000;

/// A response with no attributes and no intents.
pub open spec fn empty_response(resp: ResponseV) -> bool {
    resp.attributes == Seq::<AttributeV>::empty() && resp.messages == Seq::<IntentV>::empty()
}

/// Successful placement: the sequence counter advances, the new listing
/// is stored under the new counter value with the engine itself as the
/// sentinel best bidder and the configured minimum as the best bid, and
/// the custodian is asked to approve and then escrow the asset.
pub open spec fn place_ok(
    pre: StateV,
    post: StateV,
    height: u64,
    contract: Seq<char>,
    sender: Seq<char>,
    nft_addr: Seq<char>,
    id: Seq<char>,
    min_bid: Option<crate::state::CoinV>,
    resp: ResponseV,
) -> bool {
    pre.config matches Some(cfg) && {
        let key = (cfg.listing_count + 1) as u64;
        let listing = ListingV {
            token_id: id,
            contract_addr: nft_addr,
            seller: sender,
            max_bid: min_bid,
            max_bidder: contract,
            block_limit: (height + AUCTION_DURATION) as u64,
        };
        &&& post.config == Some(ConfigV { listing_count: key, ..cfg })
        &&& post.listings == pre.listings.insert(key, listing)
        &&& post.minters == pre.minters
        &&& resp.messages == seq![
            IntentV::Approve {
                contract_addr: nft_addr,
                spender: contract,
                token_id: id,
                expires_at: (height + APPROVE_DURATION) as u64,
            },
            IntentV::TransferNft { contract_addr: nft_addr, recipient: contract, token_id: id },
        ]
        &&& resp.attributes == seq![AttributeV { key: "place_listing"@, value: id }]
    }
}

/// Full placement contract: succeeds exactly when the administrative
/// record exists; on failure nothing changes.
pub open spec fn place_post(
    pre: StateV,
    post: StateV,
    height: u64,
    contract: Seq<char>,
    sender: Seq<char>,
    nft_addr: Seq<char>,
    id: Seq<char>,
    min_bid: Option<crate::state::CoinV>,
    r: Result<Response, ContractError>,
) -> bool {
    match r {
        Ok(resp) => place_ok(pre, post, height, contract, sender, nft_addr, id, min_bid, resp@),
        Err(e) => {
            &&& post == pre
            &&& pre.config is None
            &&& e == ContractError::Std(StdErr::NotFound)
        },
    }
}

/// Successful bid: the listing records the new bidder and bid, and if a
/// prior bidder exists (the stored best bidder is not the sentinel) the
/// prior bid is refunded to it by exactly one value-transfer intent.
pub open spec fn bid_ok(
    pre: StateV,
    post: StateV,
    height: u64,
    contract: Seq<char>,
    sender: Seq<char>,
    funds: Option<crate::state::CoinV>,
    listing_id: u64,
    resp: ResponseV,
) -> bool {
    &&& pre.listings.contains_key(listing_id)
    &&& {
        let l = pre.listings[listing_id];
        &&& l.block_limit >= height
        &&& sufficient(funds, l.max_bid)
        &&& funds matches Some(f) && {
            &&& post.listings == pre.listings.insert(
                listing_id,
                ListingV { max_bid: Some(f), max_bidder: sender, ..l },
            )
            &&& post.config == pre.config
            &&& post.minters == pre.minters
            &&& resp.messages == (if l.max_bidder != contract {
                seq![IntentV::BankSend { to_address: l.max_bidder, amount: l.max_bid->Some_0 }]
            } else {
                Seq::<IntentV>::empty()
            })
            &&& resp.attributes == seq![
                AttributeV { key: "Bidding"@, value: dec_rep(listing_id as nat) },
            ]
        }
    }
}

/// Full bid contract: the listing must exist, bidding must not have
/// closed, and the funds must meet the required minimum (the prior bid
/// if present, else the configured minimum); each failure returns its
/// own error and leaves the state unchanged.
pub open spec fn bid_post(
    pre: StateV,
    post: StateV,
    height: u64,
    contract: Seq<char>,
    sender: Seq<char>,
    funds: Option<crate::state::CoinV>,
    listing_id: u64,
    r: Result<Response, ContractError>,
) -> bool {
    match r {
        Ok(resp) => bid_ok(pre, post, height, contract, sender, funds, listing_id, resp@),
        Err(e) => {
            &&& post == pre
            &&& e == (if !pre.listings.contains_key(listing_id) {
                ContractError::Std(StdErr::NotFound)
            } else if pre.listings[listing_id].block_limit < height {
                ContractError::AuctionEnded
            } else {
                ContractError::InsufficientFundsSend
            })
            &&& !(pre.listings.contains_key(listing_id)
                && pre.listings[listing_id].block_limit >= height && sufficient(
                funds,
                pre.listings[listing_id].max_bid,
            ))
        },
    }
}

/// Successful withdrawal: the listing is deleted; if a real bid was
/// placed the asset goes to the best bidder and the escrowed bid amount
/// is paid out to the seller as proceeds, otherwise the asset returns
/// to the seller and no value moves.
pub open spec fn withdraw_ok(
    pre: StateV,
    post: StateV,
    height: u64,
    contract: Seq<char>,
    listing_id: u64,
    resp: ResponseV,
) -> bool {
    &&& pre.listings.contains_key(listing_id)
    &&& {
        let l = pre.listings[listing_id];
        &&& l.block_limit < height
        &&& post.listings == pre.listings.remove(listing_id)
        &&& post.config == pre.config
        &&& post.minters == pre.minters
        &&& (if l.max_bidder != contract {
            &&& resp.messages == seq![
                IntentV::TransferNft {
                    contract_addr: l.contract_addr,
                    recipient: l.max_bidder,
                    token_id: l.token_id,
                },
                IntentV::BankSend { to_address: l.seller, amount: l.max_bid->Some_0 },
            ]
            &&& resp.attributes == seq![
                AttributeV { key: "listing_sold"@, value: dec_rep(listing_id as nat) },
            ]
        } else {
            &&& resp.messages == seq![
                IntentV::TransferNft {
                    contract_addr: l.contract_addr,
                    recipient: l.seller,
                    token_id: l.token_id,
                },
            ]
            &&& resp.attributes == seq![
                AttributeV { key: "listing_unsold"@, value: dec_rep(listing_id as nat) },
            ]
        })
    }
}

/// Full withdrawal contract: the listing must exist and its closing
/// height must have passed; each failure returns its own error and
/// leaves the state (and in particular the listing) unchanged.
pub open spec fn withdraw_post(
    pre: StateV,
    post: StateV,
    height: u64,
    contract: Seq<char>,
    listing_id: u64,
    r: Result<Response, ContractError>,
) -> bool {
    match r {
        Ok(resp) => withdraw_ok(pre, post, height, contract, listing_id, resp@),
        Err(e) => {
            &&& post == pre
            &&& e == (if !pre.listings.contains_key(listing_id) {
                ContractError::Std(StdErr::NotFound)
            } else {
                ContractError::AuctionNotEnded
            })
            &&& !(pre.listings.contains_key(listing_id)
                && pre.listings[listing_id].block_limit < height)
        },
    }
}

/// Sum of the royalty rates, in units of 10^-18.
pub open spec fn royalty_sum(s: Seq<Royalty>) -> int
    decreases s.len(),
{
    if s.len() == 0 {
        0
    } else {
        royalty_sum(s.drop_last()) + s.last().royalty_rate
    }
}

/// A prefix never sums to more than the whole: rates are non-negative.
pub proof fn lemma_royalty_prefix(s: Seq<Royalty>, i: int)
    requires
        0 <= i <= s.len(),
    ensures
        royalty_sum(s.subrange(0, i)) <= royalty_sum(s),
    decreases s.len() - i,
{
    if i < s.len() {
        assert(s.subrange(0, i + 1).drop_last() =~= s.subrange(0, i));
        assert(s.subrange(0, i + 1).last() == s[i]);
        lemma_royalty_prefix(s, i + 1);
    } else {
        assert(s.subrange(0, i) =~= s);
    }
}

/// The identifier of the asset minted under sequence value `n`: the
/// fixed prefix followed by the counter in decimal.
pub open spec fn mint_token_id(n: u64) -> Seq<char> {
    "GF."@ + dec_rep(n as nat)
}

/// Whether a mint request is allowed: the caller's authorization window
/// is non-zero and the royalty rates sum to at most one.
pub open spec fn mint_allowed(pre: StateV, sender: Seq<char>, royalties: Seq<Royalty>) -> bool {
    &&& reg_exp(pre.minters, sender) != 0
    &&& royalty_sum(royalties) <= ROYALTY_ONE
}

/// Successful mint: the shared sequence counter advances and a single
/// intent asks the custodian to mint the new asset, identified by the
/// fixed prefix and the new counter value, with the assembled metadata.
pub open spec fn mint_ok(
    pre: StateV,
    post: StateV,
    sender: Seq<char>,
    msg: GFMintMsgV,
    resp: ResponseV,
) -> bool {
    &&& mint_allowed(pre, sender, msg.royalties)
    &&& pre.config matches Some(cfg) && {
        let key = (cfg.listing_count + 1) as u64;
        &&& post.config == Some(ConfigV { listing_count: key, ..cfg })
        &&& post.listings == pre.listings
        &&& post.minters == pre.minters
        &&& resp.messages == seq![
            IntentV::MintNft {
                contract_addr: cfg.nft_contract_address,
                token_id: mint_token_id(key),
                owner: msg.owner,
                token_uri: msg.image_uri,
                extension: metadata_of(msg),
            },
        ]
        &&& resp.attributes == Seq::<AttributeV>::empty()
    }
}

/// Full mint contract: the caller must be a whitelisted minter, the
/// royalty rates must sum to at most one, and the administrative record
/// must exist, checked in that order; each failure returns its own
/// error and leaves the state unchanged.
pub open spec fn mint_post(
    pre: StateV,
    post: StateV,
    sender: Seq<char>,
    msg: GFMintMsgV,
    r: Result<Response, ContractError>,
) -> bool {
    match r {
        Ok(resp) => mint_ok(pre, post, sender, msg, resp@),
        Err(e) => {
            &&& post == pre
            &&& e == (if reg_exp(pre.minters, sender) == 0 {
                ContractError::Unauthorized
            } else if royalty_sum(msg.royalties) > ROYALTY_ONE {
                ContractError::InvalidRoyaltyRate
            } else {
                ContractError::Std(StdErr::NotFound)
            })
            &&& !(mint_allowed(pre, sender, msg.royalties) && pre.config is Some)
        },
    }
}

/// Successful registration: the caller is the owner; the minter's
/// record is set to the default window, any prior record replaced, all
/// other records untouched.
pub open spec fn update_minter_ok(
    pre: StateV,
    post: StateV,
    sender: Seq<char>,
    minter: Seq<char>,
    resp: ResponseV,
) -> bool {
    &&& pre.config matches Some(cfg) && sender == cfg.owner
    &&& post.minters == reg_remove_spec(pre.minters, minter).push(
        (MinterEntryV { address: minter, expiration_time: DEFAULT_EXPIRATION }),
    )
    &&& post.config == pre.config
    &&& post.listings == pre.listings
    &&& empty_response(resp)
}

/// Full registration contract: only the owner may register; on failure
/// nothing changes.
pub open spec fn update_minter_post(
    pre: StateV,
    post: StateV,
    sender: Seq<char>,
    minter: Seq<char>,
    r: Result<Response, ContractError>,
) -> bool {
    match r {
        Ok(resp) => update_minter_ok(pre, post, sender, minter, resp@),
        Err(e) => {
            &&& post == pre
            &&& e == (if pre.config is None {
                ContractError::Std(StdErr::NotFound)
            } else {
                ContractError::Unauthorized
            })
            &&& !(pre.config matches Some(cfg) && sender == cfg.owner)
        },
    }
}

/// Successful removal: the caller is the owner; the minter's record is
/// deleted (a no-op if absent), all other records untouched.
pub open spec fn remove_minter_ok(
    pre: StateV,
    post: StateV,
    sender: Seq<char>,
    minter: Seq<char>,
    resp: ResponseV,
) -> bool {
    &&& pre.config matches Some(cfg) && sender == cfg.owner
    &&& post.minters == reg_remove_spec(pre.minters, minter)
    &&& post.config == pre.config
    &&& post.listings == pre.listings
    &&& empty_response(resp)
}

/// Full removal contract: only the owner may remove; on failure nothing
/// changes.
pub open spec fn remove_minter_post(
    pre: StateV,
    post: StateV,
    sender: Seq<char>,
    minter: Seq<char>,
    r: Result<Response, ContractError>,
) -> bool {
    match r {
        Ok(resp) => remove_minter_ok(pre, post, sender, minter, resp@),
        Err(e) => {
            &&& post == pre
            &&& e == (if pre.config is None {
                ContractError::Std(StdErr::NotFound)
            } else {
                ContractError::Unauthorized
            })
            &&& !(pre.config matches Some(cfg) && sender == cfg.owner)
        },
    }
}

/// Initializes the administrative record: counter at zero, the caller
/// as owner, the default authorization window, and the custodian's
/// address.  Overwrites any prior record; listings and minters are
/// untouched.
pub fn instantiate(state: &mut State, _env: &Env, info: &MessageInfo, msg: InstantiateMsg) -> (r:
    Result<Response, StdErr>)
    ensures
        final(state)@.config == Some(
            (ConfigV {
                listing_count: 0,
                owner: info.sender@,
                expiration_time: DEFAULT_EXPIRATION,
                nft_contract_address: msg.nft_contract_address@,
            }),
        ),
        final(state)@.listings == old(state)@.listings,
        final(state)@.minters == old(state)@.minters,
        r matches Ok(resp) && empty_response(resp@),
        forall|c: Seq<char>| old(state)@.wf(c) ==> final(state)@.wf(c),
{
    let config_state = Config {
        listing_count: 0,
        owner: info.sender.clone(),
        expiration_time: DEFAULT_EXPIRATION,
        nft_contract_address: msg.nft_contract_address,
    };
    state.config = Some(config_state);
    Ok(Response::empty())
}

/// Places an asset on auction.
pub fn execute_place_listing(
    state: &mut State,
    env: &Env,
    info: &MessageInfo,
    nft_contract_address: String,
    id: String,
    minimum_bid: Option<Coin>,
) -> (r: Result<Response, ContractError>)
    requires
        old(state)@.wf(env.contract_address@),
        old(state)@.config matches Some(c) ==> c.listing_count < u64::MAX,
        env.height + AUCTION_DURATION <= u64::MAX,
    ensures
        final(state)@.wf(env.contract_address@),
        place_post(
            old(state)@,
            final(state)@,
            env.height,
            env.contract_address@,
            info.sender@,
            nft_contract_address@,
            id@,
            opt_coin_view(minimum_bid),
            r,
        ),
{
    let listing_count: u64;
    let new_config: Config;
    match &state.config {
        None => {
            return Err(ContractError::Std(StdErr::NotFound));
        },
        Some(config) => {
            listing_count = config.listing_count + 1;
            new_config = Config {
                listing_count,
                owner: config.owner.clone(),
                expiration_time: config.expiration_time,
                nft_contract_address: config.nft_contract_address.clone(),
            };
        },
    }
    state.config = Some(new_config);

    // Each auction closes a fixed number of blocks after placement.
    let listing = Listing {
        token_id: id.clone(),
        contract_addr: nft_contract_address.clone(),
        seller: info.sender.clone(),
        max_bid: minimum_bid,
        max_bidder: env.contract_address.clone(),
        block_limit: env.height + AUCTION_DURATION,
    };
    let ghost lex = listing;
    save_listing(&mut state.listings, listing_count, listing);

    // Ask the custodian for transfer approval, then for escrow custody.
    let mut messages: Vec<Intent> = Vec::new();
    messages.push(Intent::Approve {
        contract_addr: nft_contract_address.clone(),
        spender: env.contract_address.clone(),
        token_id: id.clone(),
        expires_at: env.height + APPROVE_DURATION,
    });
    messages.push(Intent::TransferNft {
        contract_addr: nft_contract_address,
        recipient: env.contract_address.clone(),
        token_id: id.clone(),
    });
    let mut attributes: Vec<Attribute> = Vec::new();
    attributes.push(Attribute { key: String::from_str("place_listing"), value: id });
    let resp = Response { attributes, messages };
    proof {
        crate::state::lemma_listings_view_insert(old(state).listings@, listing_count, lex);
        assert(state@.listings =~= old(state)@.listings.insert(listing_count, lex@));
        assert(resp@.messages =~= seq![
            IntentV::Approve {
                contract_addr: nft_contract_address@,
                spender: env.contract_address@,
                token_id: id@,
                expires_at: (env.height + APPROVE_DURATION) as u64,
            },
            IntentV::TransferNft {
                contract_addr: nft_contract_address@,
                recipient: env.contract_address@,
                token_id: id@,
            },
        ]);
        assert(resp@.attributes =~= seq![AttributeV { key: "place_listing"@, value: id@ }]);
        assert forall|k: u64| #[trigger] state@.listings.contains_key(k) implies (
        state@.listings[k].max_bidder != env.contract_address@ ==> state@.listings[k].max_bid
            is Some) by {
            if k != listing_count {
                assert(old(state)@.listings.contains_key(k));
            }
        }
    }
    Ok(resp)
}

/// Records a bid on a listing.
pub fn execute_bid_listing(state: &mut State, env: &Env, info: &MessageInfo, listing_id: u64) -> (r:
    Result<Response, ContractError>)
    requires
        old(state)@.wf(env.contract_address@),
    ensures
        final(state)@.wf(env.contract_address@),
        bid_post(
            old(state)@,
            final(state)@,
            env.height,
            env.contract_address@,
            info.sender@,
            opt_coin_view(info.funds),
            listing_id,
            r,
        ),
{
    // Validate before touching any state: listing present, auction still
    // open, funds sufficient against the stored requirement.
    let sent: Coin;
    match load_listing(&state.listings, listing_id) {
        None => {
            return Err(ContractError::Std(StdErr::NotFound));
        },
        Some(listing) => {
            if listing.block_limit < env.height {
                return Err(ContractError::AuctionEnded);
            }
            match assert_sent_sufficient_coin(&info.funds, &listing.max_bid) {
                Ok(c) => {
                    sent = c;
                },
                Err(e) => {
                    return Err(e);
                },
            }
        },
    }

    let listing = take_listing(&mut state.listings, listing_id).unwrap();
    let last_bid = listing.max_bid;
    let last_bidder = listing.max_bidder;

    // Record the new bidder and bid before any intent is computed.
    let updated = Listing {
        token_id: listing.token_id,
        contract_addr: listing.contract_addr,
        seller: listing.seller,
        max_bid: Some(sent),
        max_bidder: info.sender.clone(),
        block_limit: listing.block_limit,
    };
    let ghost uex = updated;
    save_listing(&mut state.listings, listing_id, updated);

    let mut messages: Vec<Intent> = Vec::new();
    if last_bidder == env.contract_address {
        // First accepted bid: nothing to refund.
    } else {
        // Refund the prior bid to the prior bidder: a real best bidder
        // always has a recorded best bid (well-formedness).
        proof {
            let pre = old(state)@;
            assert(pre.listings.contains_key(listing_id));
            assert(pre.listings[listing_id] == old(state).listings@[listing_id]@);
            assert(pre.listings[listing_id].max_bidder != env.contract_address@);
            assert(pre.listings[listing_id].max_bid is Some);
        }
        let amount = last_bid.unwrap();
        messages.push(Intent::BankSend { to_address: last_bidder, amount });
    }
    let mut attributes: Vec<Attribute> = Vec::new();
    attributes.push(Attribute { key: String::from_str("Bidding"), value: u64_to_dec(listing_id) });
    let resp = Response { attributes, messages };
    proof {
        let pre = old(state)@;
        let l = pre.listings[listing_id];
        crate::state::lemma_listings_view_remove(old(state).listings@, listing_id);
        crate::state::lemma_listings_view_insert(
            old(state).listings@.remove(listing_id),
            listing_id,
            uex,
        );
        assert(state@.listings =~= pre.listings.insert(
            listing_id,
            (ListingV { max_bid: Some(sent@), max_bidder: info.sender@, ..l }),
        ));
        if l.max_bidder != env.contract_address@ {
            assert(resp@.messages =~= seq![
                IntentV::BankSend { to_address: l.max_bidder, amount: l.max_bid->Some_0 },
            ]);
        } else {
            assert(resp@.messages =~= Seq::<IntentV>::empty());
        }
        assert(resp@.attributes =~= seq![
            AttributeV { key: "Bidding"@, value: dec_rep(listing_id as nat) },
        ]);
        assert forall|k: u64| #[trigger] state@.listings.contains_key(k) implies (
        state@.listings[k].max_bidder != env.contract_address@ ==> state@.listings[k].max_bid
            is Some) by {
            if k != listing_id {
                assert(pre.listings.contains_key(k));
            }
        }
    }
    Ok(resp)
}

/// Settles an ended auction: deletes the listing and routes the asset
/// (and, if a real bid was placed, the proceeds to the seller).
pub fn execute_withdraw_listing(
    state: &mut State,
    env: &Env,
    _info: &MessageInfo,
    listing_id: u64,
) -> (r: Result<Response, ContractError>)
    requires
        old(state)@.wf(env.contract_address@),
    ensures
        final(state)@.wf(env.contract_address@),
        withdraw_post(
            old(state)@,
            final(state)@,
            env.height,
            env.contract_address@,
            listing_id,
            r,
        ),
{
    match load_listing(&state.listings, listing_id) {
        None => {
            return Err(ContractError::Std(StdErr::NotFound));
        },
        Some(listing) => {
            // The auction must have ended.
            if listing.block_limit >= env.height {
                return Err(ContractError::AuctionNotEnded);
            }
        },
    }

    let listing = take_listing(&mut state.listings, listing_id).unwrap();
    proof {
        crate::state::lemma_listings_view_remove(old(state).listings@, listing_id);
        assert(state@.listings =~= old(state)@.listings.remove(listing_id));
    }

    let mut messages: Vec<Intent> = Vec::new();
    let mut attributes: Vec<Attribute> = Vec::new();
    if listing.max_bidder == env.contract_address {
        // No bid was placed: the seller gets the asset back.
        messages.push(Intent::TransferNft {
            contract_addr: listing.contract_addr,
            recipient: listing.seller,
            token_id: listing.token_id,
        });
        attributes.push(Attribute {
            key: String::from_str("listing_unsold"),
            value: u64_to_dec(listing_id),
        });
    } else {
        // A real bid was placed: the asset goes to the best bidder and
        // the escrowed bid amount to the seller as sale proceeds.
        proof {
            let pre = old(state)@;
            assert(pre.listings.contains_key(listing_id));
            assert(pre.listings[listing_id] == old(state).listings@[listing_id]@);
            assert(pre.listings[listing_id].max_bid is Some);
        }
        let amount = listing.max_bid.unwrap();
        messages.push(Intent::TransferNft {
            contract_addr: listing.contract_addr,
            recipient: listing.max_bidder,
            token_id: listing.token_id,
        });
        messages.push(Intent::BankSend { to_address: listing.seller, amount });
        attributes.push(Attribute {
            key: String::from_str("listing_sold"),
            value: u64_to_dec(listing_id),
        });
    }
    let resp = Response { attributes, messages };
    proof {
        let pre = old(state)@;
        let l = pre.listings[listing_id];
        if l.max_bidder != env.contract_address@ {
            assert(resp@.messages =~= seq![
                IntentV::TransferNft {
                    contract_addr: l.contract_addr,
                    recipient: l.max_bidder,
                    token_id: l.token_id,
                },
                IntentV::BankSend { to_address: l.seller, amount: l.max_bid->Some_0 },
            ]);
            assert(resp@.attributes =~= seq![
                AttributeV { key: "listing_sold"@, value: dec_rep(listing_id as nat) },
            ]);
        } else {
            assert(resp@.messages =~= seq![
                IntentV::TransferNft {
                    contract_addr: l.contract_addr,
                    recipient: l.seller,
                    token_id: l.token_id,
                },
            ]);
            assert(resp@.attributes =~= seq![
                AttributeV { key: "listing_unsold"@, value: dec_rep(listing_id as nat) },
            ]);
        }
        assert forall|k: u64| #[trigger] state@.listings.contains_key(k) implies (
        state@.listings[k].max_bidder != env.contract_address@ ==> state@.listings[k].max_bid
            is Some) by {
            assert(pre.listings.contains_key(k));
        }
    }
    Ok(resp)
}

/// Registers `minter` (or refreshes its window to the default).  Only
/// the owner may do this.
pub fn update_minters(state: &mut State, env: &Env, info: &MessageInfo, minter: &String) -> (r:
    Result<Response, ContractError>)
    requires
        old(state)@.wf(env.contract_address@),
    ensures
        final(state)@.wf(env.contract_address@),
        update_minter_post(old(state)@, final(state)@, info.sender@, minter@, r),
{
    match &state.config {
        None => {
            return Err(ContractError::Std(StdErr::NotFound));
        },
        Some(config) => {
            if !(info.sender == config.owner) {
                return Err(ContractError::Unauthorized);
            }
        },
    }

    let minter_info = MinterInfo { expiration_time: DEFAULT_EXPIRATION };
    store_minters(&mut state.minters, minter.clone(), minter_info);
    Ok(Response::empty())
}

/// Removes `minter` from the whitelist (a no-op if absent).  Only the
/// owner may do this.
pub fn unregister_minter(state: &mut State, env: &Env, info: &MessageInfo, minter: &String) -> (r:
    Result<Response, ContractError>)
    requires
        old(state)@.wf(env.contract_address@),
    ensures
        final(state)@.wf(env.contract_address@),
        remove_minter_post(old(state)@, final(state)@, info.sender@, minter@, r),
{
    match &state.config {
        None => {
            return Err(ContractError::Std(StdErr::NotFound));
        },
        Some(config) => {
            if !(info.sender == config.owner) {
                return Err(ContractError::Unauthorized);
            }
        },
    }

    remove_minter(&mut state.minters, minter);
    Ok(Response::empty())
}

/// Mints a new asset: the caller must be whitelisted and the royalty
/// rates must sum to at most one; the shared sequence counter advances
/// and a single mint intent is produced.
pub fn execute_mint(state: &mut State, env: &Env, info: &MessageInfo, msg: GFMintMsg) -> (r: Result<
    Response,
    ContractError,
>)
    requires
        old(state)@.wf(env.contract_address@),
        old(state)@.config matches Some(c) ==> c.listing_count < u64::MAX,
    ensures
        final(state)@.wf(env.contract_address@),
        mint_post(old(state)@, final(state)@, info.sender@, msg@, r),
{
    // Only a whitelisted minter (non-zero window) may mint.
    let minter_info = read_minter_info(&state.minters, &info.sender);
    if minter_info.expiration_time == 0 {
        return Err(ContractError::Unauthorized);
    }

    // The royalty rates must not sum to more than one.
    let ghost roys = msg.royalties@;
    let n = msg.royalties.len();
    let mut sum: u128 = 0;
    let mut i: usize = 0;
    while i < n
        invariant
            n == msg.royalties.len(),
            roys == msg.royalties@,
            0 <= i <= n,
            sum as int == royalty_sum(roys.subrange(0, i as int)),
            sum <= ROYALTY_ONE as u128,
            state@ == old(state)@,
            state@.wf(env.contract_address@),
            reg_exp(old(state)@.minters, info.sender@) != 0,
        decreases n - i,
    {
        let rate = msg.royalties[i].royalty_rate;
        proof {
            assert(roys.subrange(0, i as int + 1).drop_last() =~= roys.subrange(0, i as int));
            assert(roys.subrange(0, i as int + 1).last() == roys[i as int]);
        }
        let new_sum = sum + (rate as u128);
        if new_sum > ROYALTY_ONE as u128 {
            proof {
                lemma_royalty_prefix(roys, i as int + 1);
            }
            return Err(ContractError::InvalidRoyaltyRate);
        }
        sum = new_sum;
        i += 1;
    }
    proof {
        assert(roys.subrange(0, n as int) =~= roys);
    }

    let new_count: u64;
    let new_config: Config;
    let nft_addr: String;
    match &state.config {
        None => {
            return Err(ContractError::Std(StdErr::NotFound));
        },
        Some(config) => {
            new_count = config.listing_count + 1;
            nft_addr = config.nft_contract_address.clone();
            new_config = Config {
                listing_count: new_count,
                owner: config.owner.clone(),
                expiration_time: config.expiration_time,
                nft_contract_address: config.nft_contract_address.clone(),
            };
        },
    }
    state.config = Some(new_config);

    // Derive the asset identifier: the fixed prefix, then the counter.
    let mut token_id = String::from_str("GF.");
    token_id.append(u64_to_dec(new_count).as_str());

    let metadata = Metadata {
        name: msg.name,
        description: msg.description,
        external_link: msg.external_link,
        collection: Some(1u128),
        num_real_repr: msg.num_real_repr,
        num_nfts: msg.num_nfts,
        royalties: msg.royalties,
        init_price: msg.init_price,
    };
    let mut messages: Vec<Intent> = Vec::new();
    messages.push(Intent::MintNft {
        contract_addr: nft_addr,
        token_id,
        owner: msg.owner,
        token_uri: msg.image_uri,
        extension: metadata,
    });
    let resp = Response { attributes: Vec::new(), messages };
    proof {
        let pre = old(state)@;
        let cfg = pre.config->Some_0;
        assert(resp@.messages =~= seq![
            IntentV::MintNft {
                contract_addr: cfg.nft_contract_address,
                token_id: mint_token_id(new_count),
                owner: msg.owner@,
                token_uri: crate::state::opt_str_view(msg.image_uri),
                extension: metadata_of(msg@),
            },
        ]);
        assert(resp@.attributes =~= Seq::<AttributeV>::empty());
    }
    Ok(resp)
}

/// Full dispatch contract: each request variant behaves exactly as its
/// engine operation's contract says.
pub open spec fn execute_post(
    pre: StateV,
    post: StateV,
    height: u64,
    contract: Seq<char>,
    sender: Seq<char>,
    funds: Option<crate::state::CoinV>,
    msg: ExecuteMsg,
    r: Result<Response, ContractError>,
) -> bool {
    match msg {
        ExecuteMsg::PlaceListing { nft_contract_address, id, minimum_bid } => place_post(
            pre,
            post,
            height,
            contract,
            sender,
            nft_contract_address@,
            id@,
            opt_coin_view(minimum_bid),
            r,
        ),
        ExecuteMsg::BidListing { listing_id } => bid_post(
            pre,
            post,
            height,
            contract,
            sender,
            funds,
            listing_id,
            r,
        ),
        ExecuteMsg::WithdrawListing { listing_id } => withdraw_post(
            pre,
            post,
            height,
            contract,
            listing_id,
            r,
        ),
        ExecuteMsg::Mint(m) => mint_post(pre, post, sender, m@, r),
        ExecuteMsg::UpdateMinter { minter } => update_minter_post(pre, post, sender, minter@, r),
        ExecuteMsg::RemoveMinter { minter } => remove_minter_post(pre, post, sender, minter@, r),
    }
}

/// Routes a request to its engine operation.
pub fn execute(state: &mut State, env: &Env, info: &MessageInfo, msg: ExecuteMsg) -> (r: Result<
    Response,
    ContractError,
>)
    requires
        old(state)@.wf(env.contract_address@),
        (msg matches ExecuteMsg::PlaceListing { .. } || msg matches ExecuteMsg::Mint(_)) ==> (old(
            state,
        )@.config matches Some(c) ==> c.listing_count < u64::MAX),
        msg matches ExecuteMsg::PlaceListing { .. } ==> env.height + AUCTION_DURATION <= u64::MAX,
    ensures
        final(state)@.wf(env.contract_address@),
        execute_post(
            old(state)@,
            final(state)@,
            env.height,
            env.contract_address@,
            info.sender@,
            opt_coin_view(info.funds),
            msg,
            r,
        ),
{
    match msg {
        ExecuteMsg::PlaceListing { nft_contract_address, id, minimum_bid } => {
            execute_place_listing(state, env, info, nft_contract_address, id, minimum_bid)
        },
        ExecuteMsg::BidListing { listing_id } => execute_bid_listing(state, env, info, listing_id),
        ExecuteMsg::WithdrawListing { listing_id } => {
            execute_withdraw_listing(state, env, info, listing_id)
        },
        ExecuteMsg::Mint(mint_msg) => execute_mint(state, env, info, mint_msg),
        ExecuteMsg::UpdateMinter { minter } => update_minters(state, env, info, &minter),
        ExecuteMsg::RemoveMinter { minter } => unregister_minter(state, env, info, &minter),
    }
}

/// Answer to the configuration query: the record, or `NotFound` before
/// instantiation.
pub open spec fn query_config_post(pre: StateV, r: Result<QueryAnswer, StdErr>) -> bool {
    match r {
        Ok(ans) => ans matches QueryAnswer::Config(c) && pre.config == Some(c@),
        Err(e) => pre.config is None && e == StdErr::NotFound,
    }
}

/// Answer to the listing query: every stored detail of the listing, or
/// `NotFound` (never a crash on absence).
pub open spec fn resolve_listing_post(pre: StateV, id: u64, r: Result<QueryAnswer, StdErr>) -> bool {
    match r {
        Ok(ans) => ans matches QueryAnswer::Listing(resp) && pre.listings.contains_key(id) && {
            let l = pre.listings[id];
            &&& resp@.token_id == l.token_id
            &&& resp@.contract_addr == l.contract_addr
            &&& resp@.seller == l.seller
            &&& resp@.max_bid == l.max_bid
            &&& resp@.max_bidder == l.max_bidder
            &&& resp@.block_limit == l.block_limit
        },
        Err(e) => !pre.listings.contains_key(id) && e == StdErr::NotFound,
    }
}

/// Answer to the minter query: the registered identities, in
/// registration order.
pub open spec fn minters_answer(pre: StateV, v: Seq<String>) -> bool {
    &&& v.len() == pre.minters.len()
    &&& forall|i: int| 0 <= i < v.len() ==> v[i]@ == pre.minters[i].address
}

/// Identities of all registered minters.
pub fn query_minters(state: &State, _env: &Env) -> (r: Result<Vec<String>, StdErr>)
    ensures
        r matches Ok(v) && minters_answer(state@, v@),
{
    Ok(read_minters(&state.minters))
}

/// All details of one listing; absence is a typed `NotFound`, never a
/// crash.
pub fn query_list_resolver(state: &State, _env: &Env, id: u64) -> (r: Result<
    ResolveListingResponse,
    StdErr,
>)
    ensures
        match r {
            Ok(resp) => state@.listings.contains_key(id) && resp@
                == (crate::msg::ResolveListingResponseV {
                token_id: state@.listings[id].token_id,
                contract_addr: state@.listings[id].contract_addr,
                seller: state@.listings[id].seller,
                max_bid: state@.listings[id].max_bid,
                max_bidder: state@.listings[id].max_bidder,
                block_limit: state@.listings[id].block_limit,
            }),
            Err(e) => !state@.listings.contains_key(id) && e == StdErr::NotFound,
        },
{
    match load_listing(&state.listings, id) {
        None => Err(StdErr::NotFound),
        Some(listing) => {
            let max_bid = match &listing.max_bid {
                Some(c) => Some(c.clone()),
                None => None,
            };
            Ok(ResolveListingResponse {
                token_id: listing.token_id.clone(),
                contract_addr: listing.contract_addr.clone(),
                seller: listing.seller.clone(),
                max_bid,
                max_bidder: listing.max_bidder.clone(),
                block_limit: listing.block_limit,
            })
        },
    }
}

/// Routes a query to its read-only projection.
pub fn query(state: &State, env: &Env, msg: QueryMsg) -> (r: Result<QueryAnswer, StdErr>)
    ensures
        match msg {
            QueryMsg::Config {  } => query_config_post(state@, r),
            QueryMsg::ResolveListing { id } => resolve_listing_post(state@, id, r),
            QueryMsg::QueryMinter {  } => r matches Ok(ans) && (ans matches QueryAnswer::Minters(v)
                && minters_answer(state@, v@)),
        },
{
    match msg {
        QueryMsg::Config {  } => {
            match &state.config {
                None => Err(StdErr::NotFound),
                Some(c) => Ok(QueryAnswer::Config(c.clone())),
            }
        },
        QueryMsg::ResolveListing { id } => {
            match query_list_resolver(state, env, id) {
                Ok(resp) => Ok(QueryAnswer::Listing(resp)),
                Err(e) => Err(e),
            }
        },
        QueryMsg::QueryMinter {  } => {
            match query_minters(state, env) {
                Ok(v) => Ok(QueryAnswer::Minters(v)),
                Err(e) => Err(e),
            }
        },
    }
}

} // verus!
