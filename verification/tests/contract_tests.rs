use auction_mint::contract::{
    execute, execute_bid_listing, execute_mint, execute_place_listing, execute_withdraw_listing,
    instantiate, query, query_minters, unregister_minter, update_minters, AUCTION_DURATION,
    APPROVE_DURATION, DEFAULT_EXPIRATION,
};
use auction_mint::error::{ContractError, StdErr};
use auction_mint::msg::{
    Env, ExecuteMsg, GFMintMsg, InstantiateMsg, Intent, MessageInfo, QueryAnswer, QueryMsg,
};
use auction_mint::state::{Coin, Royalty, State, ROYALTY_ONE};

fn coin(denom: &str, amount: u128) -> Coin {
    Coin { denom: denom.to_string(), amount }
}

fn env_at(height: u64) -> Env {
    Env { height, contract_address: "auction".to_string() }
}

fn info(sender: &str, funds: Option<Coin>) -> MessageInfo {
    MessageInfo { sender: sender.to_string(), funds }
}

fn setup() -> State {
    let mut state = State::new();
    let r = instantiate(
        &mut state,
        &env_at(100),
        &info("owner", None),
        InstantiateMsg { nft_contract_address: "nft".to_string() },
    );
    assert!(r.is_ok());
    state
}

fn mint_msg(owner: &str, royalties: Vec<Royalty>) -> GFMintMsg {
    GFMintMsg {
        owner: owner.to_string(),
        name: "piece".to_string(),
        image_uri: Some("img://piece".to_string()),
        external_link: None,
        description: Some("a piece".to_string()),
        collection: None,
        num_real_repr: 1,
        num_nfts: 10,
        royalties,
        init_price: 500,
    }
}

#[test]
fn instantiate_sets_config() {
    let state = setup();
    let ans = query(&state, &env_at(100), QueryMsg::Config {}).unwrap();
    match ans {
        QueryAnswer::Config(c) => {
            assert_eq!(c.listing_count, 0);
            assert_eq!(c.owner, "owner");
            assert_eq!(c.expiration_time, DEFAULT_EXPIRATION);
            assert_eq!(c.nft_contract_address, "nft");
        }
        _ => panic!("wrong answer variant"),
    }
}

#[test]
fn place_sets_closing_height_and_sentinel_bidder() {
    let mut state = setup();
    let resp = execute_place_listing(
        &mut state,
        &env_at(100),
        &info("seller", None),
        "nft".to_string(),
        "token1".to_string(),
        Some(coin("u", 100)),
    )
    .unwrap();
    assert_eq!(resp.attributes.len(), 1);
    assert_eq!(resp.attributes[0].key, "place_listing");
    assert_eq!(resp.attributes[0].value, "token1");
    assert_eq!(
        resp.messages,
        vec![
            Intent::Approve {
                contract_addr: "nft".to_string(),
                spender: "auction".to_string(),
                token_id: "token1".to_string(),
                expires_at: 100 + APPROVE_DURATION,
            },
            Intent::TransferNft {
                contract_addr: "nft".to_string(),
                recipient: "auction".to_string(),
                token_id: "token1".to_string(),
            },
        ]
    );
    let ans = query(&state, &env_at(100), QueryMsg::ResolveListing { id: 1 }).unwrap();
    match ans {
        QueryAnswer::Listing(l) => {
            assert_eq!(l.block_limit, 100 + AUCTION_DURATION);
            assert_eq!(l.max_bidder, "auction");
            assert_eq!(l.max_bid, Some(coin("u", 100)));
            assert_eq!(l.seller, "seller");
            assert_eq!(l.token_id, "token1");
            assert_eq!(l.contract_addr, "nft");
        }
        _ => panic!("wrong answer variant"),
    }
}

#[test]
fn bid_after_closing_height_is_rejected() {
    let mut state = setup();
    execute_place_listing(
        &mut state,
        &env_at(100),
        &info("seller", None),
        "nft".to_string(),
        "token1".to_string(),
        Some(coin("u", 100)),
    )
    .unwrap();
    let late = env_at(100 + AUCTION_DURATION + 1);
    let r = execute_bid_listing(&mut state, &late, &info("A", Some(coin("u", 500))), 1);
    assert_eq!(r.unwrap_err(), ContractError::AuctionEnded);
    // No state change: the listing still shows no bid.
    match query(&state, &late, QueryMsg::ResolveListing { id: 1 }).unwrap() {
        QueryAnswer::Listing(l) => {
            assert_eq!(l.max_bidder, "auction");
            assert_eq!(l.max_bid, Some(coin("u", 100)));
        }
        _ => panic!("wrong answer variant"),
    }
}

#[test]
fn bid_at_exact_closing_height_is_accepted() {
    let mut state = setup();
    execute_place_listing(
        &mut state,
        &env_at(100),
        &info("seller", None),
        "nft".to_string(),
        "token1".to_string(),
        Some(coin("u", 100)),
    )
    .unwrap();
    let edge = env_at(100 + AUCTION_DURATION);
    let r = execute_bid_listing(&mut state, &edge, &info("A", Some(coin("u", 100))), 1);
    assert!(r.is_ok());
}

#[test]
fn insufficient_bid_is_rejected_without_state_change() {
    let mut state = setup();
    execute_place_listing(
        &mut state,
        &env_at(100),
        &info("seller", None),
        "nft".to_string(),
        "token1".to_string(),
        Some(coin("u", 100)),
    )
    .unwrap();
    let env = env_at(200);
    let r = execute_bid_listing(&mut state, &env, &info("A", Some(coin("u", 99))), 1);
    assert_eq!(r.unwrap_err(), ContractError::InsufficientFundsSend);
    // A bid in the wrong denomination is insufficient too.
    let r = execute_bid_listing(&mut state, &env, &info("A", Some(coin("v", 500))), 1);
    assert_eq!(r.unwrap_err(), ContractError::InsufficientFundsSend);
    // So is sending no funds at all.
    let r = execute_bid_listing(&mut state, &env, &info("A", None), 1);
    assert_eq!(r.unwrap_err(), ContractError::InsufficientFundsSend);
    match query(&state, &env, QueryMsg::ResolveListing { id: 1 }).unwrap() {
        QueryAnswer::Listing(l) => {
            assert_eq!(l.max_bidder, "auction");
            assert_eq!(l.max_bid, Some(coin("u", 100)));
        }
        _ => panic!("wrong answer variant"),
    }
}

#[test]
fn bid_on_missing_listing_is_not_found() {
    let mut state = setup();
    let r = execute_bid_listing(&mut state, &env_at(200), &info("A", Some(coin("u", 100))), 7);
    assert_eq!(r.unwrap_err(), ContractError::Std(StdErr::NotFound));
}

#[test]
fn successive_bids_refund_the_previous_bidder() {
    let mut state = setup();
    execute_place_listing(
        &mut state,
        &env_at(100),
        &info("seller", None),
        "nft".to_string(),
        "token1".to_string(),
        Some(coin("u", 100)),
    )
    .unwrap();
    let env = env_at(200);
    // First accepted bid: no refund.
    let r1 = execute_bid_listing(&mut state, &env, &info("A", Some(coin("u", 120))), 1).unwrap();
    assert!(r1.messages.is_empty());
    assert_eq!(r1.attributes[0].key, "Bidding");
    assert_eq!(r1.attributes[0].value, "1");
    // Second accepted bid: exactly one refund, of exactly the prior bid.
    let r2 = execute_bid_listing(&mut state, &env, &info("B", Some(coin("u", 150))), 1).unwrap();
    assert_eq!(
        r2.messages,
        vec![Intent::BankSend { to_address: "A".to_string(), amount: coin("u", 120) }]
    );
    // A matching (equal) bid meets the requirement and refunds too.
    let r3 = execute_bid_listing(&mut state, &env, &info("C", Some(coin("u", 150))), 1).unwrap();
    assert_eq!(
        r3.messages,
        vec![Intent::BankSend { to_address: "B".to_string(), amount: coin("u", 150) }]
    );
}

#[test]
fn withdraw_before_closing_height_is_rejected() {
    let mut state = setup();
    execute_place_listing(
        &mut state,
        &env_at(100),
        &info("seller", None),
        "nft".to_string(),
        "token1".to_string(),
        Some(coin("u", 100)),
    )
    .unwrap();
    // At the closing height itself the auction has not yet ended.
    let edge = env_at(100 + AUCTION_DURATION);
    let r = execute_withdraw_listing(&mut state, &edge, &info("seller", None), 1);
    assert_eq!(r.unwrap_err(), ContractError::AuctionNotEnded);
    // The listing is still there.
    assert!(query(&state, &edge, QueryMsg::ResolveListing { id: 1 }).is_ok());
}

#[test]
fn withdraw_missing_listing_is_not_found() {
    let mut state = setup();
    let r = execute_withdraw_listing(&mut state, &env_at(200), &info("seller", None), 3);
    assert_eq!(r.unwrap_err(), ContractError::Std(StdErr::NotFound));
}

#[test]
fn withdraw_without_bid_returns_asset_to_seller() {
    let mut state = setup();
    execute_place_listing(
        &mut state,
        &env_at(100),
        &info("seller", None),
        "nft".to_string(),
        "token1".to_string(),
        Some(coin("u", 100)),
    )
    .unwrap();
    let after = env_at(100 + AUCTION_DURATION + 1);
    let r = execute_withdraw_listing(&mut state, &after, &info("seller", None), 1).unwrap();
    assert_eq!(
        r.messages,
        vec![Intent::TransferNft {
            contract_addr: "nft".to_string(),
            recipient: "seller".to_string(),
            token_id: "token1".to_string(),
        }]
    );
    assert_eq!(r.attributes[0].key, "listing_unsold");
    // The listing is gone.
    let q = query(&state, &after, QueryMsg::ResolveListing { id: 1 });
    assert_eq!(q.unwrap_err(), StdErr::NotFound);
}

#[test]
fn auction_scenario_pays_seller_and_hands_asset_to_winner() {
    let mut state = setup();
    execute_place_listing(
        &mut state,
        &env_at(100),
        &info("seller", None),
        "nft".to_string(),
        "token1".to_string(),
        Some(coin("u", 100)),
    )
    .unwrap();
    let env = env_at(200);
    let r1 = execute_bid_listing(&mut state, &env, &info("A", Some(coin("u", 120))), 1).unwrap();
    assert!(r1.messages.is_empty());
    let r2 = execute_bid_listing(&mut state, &env, &info("B", Some(coin("u", 150))), 1).unwrap();
    assert_eq!(
        r2.messages,
        vec![Intent::BankSend { to_address: "A".to_string(), amount: coin("u", 120) }]
    );
    let after = env_at(100 + AUCTION_DURATION + 1);
    let r3 = execute_withdraw_listing(&mut state, &after, &info("seller", None), 1).unwrap();
    assert_eq!(
        r3.messages,
        vec![
            Intent::TransferNft {
                contract_addr: "nft".to_string(),
                recipient: "B".to_string(),
                token_id: "token1".to_string(),
            },
            Intent::BankSend { to_address: "seller".to_string(), amount: coin("u", 150) },
        ]
    );
    assert_eq!(r3.attributes[0].key, "listing_sold");
}

#[test]
fn mint_requires_whitelisting() {
    let mut state = setup();
    let env = env_at(100);
    // No record: unauthorized.
    let r = execute_mint(&mut state, &env, &info("artist", None), mint_msg("artist", vec![]));
    assert_eq!(r.unwrap_err(), ContractError::Unauthorized);
    // Registration is for the owner only.
    let r = update_minters(&mut state, &env, &info("mallory", None), &"artist".to_string());
    assert_eq!(r.unwrap_err(), ContractError::Unauthorized);
    // After registration by the owner, the same identity succeeds.
    update_minters(&mut state, &env, &info("owner", None), &"artist".to_string()).unwrap();
    let r = execute_mint(&mut state, &env, &info("artist", None), mint_msg("artist", vec![]));
    assert!(r.is_ok());
    // After removal it is unauthorized again.
    unregister_minter(&mut state, &env, &info("owner", None), &"artist".to_string()).unwrap();
    let r = execute_mint(&mut state, &env, &info("artist", None), mint_msg("artist", vec![]));
    assert_eq!(r.unwrap_err(), ContractError::Unauthorized);
}

#[test]
fn mint_royalty_sum_of_one_is_accepted() {
    let mut state = setup();
    let env = env_at(100);
    update_minters(&mut state, &env, &info("owner", None), &"artist".to_string()).unwrap();
    let royalties = vec![
        Royalty { royalty_rate: 4 * ROYALTY_ONE / 10 },
        Royalty { royalty_rate: 6 * ROYALTY_ONE / 10 },
    ];
    let r = execute_mint(&mut state, &env, &info("artist", None), mint_msg("artist", royalties))
        .unwrap();
    assert_eq!(r.messages.len(), 1);
    match &r.messages[0] {
        Intent::MintNft { contract_addr, token_id, owner, token_uri, extension } => {
            assert_eq!(contract_addr.as_str(), "nft");
            assert_eq!(token_id.as_str(), "GF.1");
            assert_eq!(owner.as_str(), "artist");
            assert_eq!(token_uri, &Some("img://piece".to_string()));
            assert_eq!(extension.collection, Some(1));
            assert_eq!(extension.name, "piece");
            assert_eq!(extension.royalties.len(), 2);
            assert_eq!(extension.init_price, 500);
        }
        _ => panic!("wrong intent variant"),
    }
}

#[test]
fn mint_royalty_sum_above_one_is_rejected() {
    let mut state = setup();
    let env = env_at(100);
    update_minters(&mut state, &env, &info("owner", None), &"artist".to_string()).unwrap();
    let royalties = vec![
        Royalty { royalty_rate: 6 * ROYALTY_ONE / 10 },
        Royalty { royalty_rate: 6 * ROYALTY_ONE / 10 },
    ];
    let r = execute_mint(&mut state, &env, &info("artist", None), mint_msg("artist", royalties));
    assert_eq!(r.unwrap_err(), ContractError::InvalidRoyaltyRate);
    // The counter did not move: the next mint still gets the first id.
    let r = execute_mint(&mut state, &env, &info("artist", None), mint_msg("artist", vec![]))
        .unwrap();
    match &r.messages[0] {
        Intent::MintNft { token_id, .. } => assert_eq!(token_id, "GF.1"),
        _ => panic!("wrong intent variant"),
    }
}

#[test]
fn mint_and_place_share_the_sequence_counter() {
    let mut state = setup();
    let env = env_at(100);
    update_minters(&mut state, &env, &info("owner", None), &"artist".to_string()).unwrap();
    execute_place_listing(
        &mut state,
        &env,
        &info("seller", None),
        "nft".to_string(),
        "token1".to_string(),
        None,
    )
    .unwrap();
    let r = execute_mint(&mut state, &env, &info("artist", None), mint_msg("artist", vec![]))
        .unwrap();
    match &r.messages[0] {
        Intent::MintNft { token_id, .. } => assert_eq!(token_id, "GF.2"),
        _ => panic!("wrong intent variant"),
    }
}

#[test]
fn query_minters_lists_identities_in_registration_order() {
    let mut state = setup();
    let env = env_at(100);
    update_minters(&mut state, &env, &info("owner", None), &"a".to_string()).unwrap();
    update_minters(&mut state, &env, &info("owner", None), &"b".to_string()).unwrap();
    update_minters(&mut state, &env, &info("owner", None), &"c".to_string()).unwrap();
    unregister_minter(&mut state, &env, &info("owner", None), &"b".to_string()).unwrap();
    let v = query_minters(&state, &env).unwrap();
    assert_eq!(v, vec!["a".to_string(), "c".to_string()]);
    // Re-registering moves the identity to the end.
    update_minters(&mut state, &env, &info("owner", None), &"a".to_string()).unwrap();
    let v = query_minters(&state, &env).unwrap();
    assert_eq!(v, vec!["c".to_string(), "a".to_string()]);
}

#[test]
fn execute_routes_each_request_variant() {
    let mut state = setup();
    let env = env_at(100);
    let r = execute(
        &mut state,
        &env,
        &info("seller", None),
        ExecuteMsg::PlaceListing {
            nft_contract_address: "nft".to_string(),
            id: "token1".to_string(),
            minimum_bid: Some(coin("u", 100)),
        },
    )
    .unwrap();
    assert_eq!(r.attributes[0].key, "place_listing");
    let r = execute(
        &mut state,
        &env,
        &info("A", Some(coin("u", 150))),
        ExecuteMsg::BidListing { listing_id: 1 },
    )
    .unwrap();
    assert_eq!(r.attributes[0].key, "Bidding");
    let r = execute(
        &mut state,
        &env,
        &info("owner", None),
        ExecuteMsg::UpdateMinter { minter: "artist".to_string() },
    );
    assert!(r.is_ok());
    let r = execute(
        &mut state,
        &env,
        &info("artist", None),
        ExecuteMsg::Mint(mint_msg("artist", vec![])),
    );
    assert!(r.is_ok());
    let r = execute(
        &mut state,
        &env,
        &info("owner", None),
        ExecuteMsg::RemoveMinter { minter: "artist".to_string() },
    );
    assert!(r.is_ok());
    let late = env_at(100 + AUCTION_DURATION + 1);
    let r = execute(
        &mut state,
        &late,
        &info("seller", None),
        ExecuteMsg::WithdrawListing { listing_id: 1 },
    );
    assert!(r.is_ok());
}

#[test]
fn query_config_before_instantiation_is_not_found() {
    let state = State::new();
    let r = query(&state, &env_at(1), QueryMsg::Config {});
    assert_eq!(r.unwrap_err(), StdErr::NotFound);
}

#[test]
fn place_without_config_is_not_found() {
    let mut state = State::new();
    let r = execute_place_listing(
        &mut state,
        &env_at(100),
        &info("seller", None),
        "nft".to_string(),
        "token1".to_string(),
        None,
    );
    assert_eq!(r.unwrap_err(), ContractError::Std(StdErr::NotFound));
}

#[test]
fn each_placement_gets_a_fresh_key() {
    let mut state = setup();
    for i in 0..2 {
        execute_place_listing(
            &mut state,
            &env_at(100),
            &info("seller", None),
            "nft".to_string(),
            format!("token{}", i + 1),
            None,
        )
        .unwrap();
    }
    match query(&state, &env_at(100), QueryMsg::ResolveListing { id: 1 }).unwrap() {
        QueryAnswer::Listing(l) => assert_eq!(l.token_id, "token1"),
        _ => panic!("wrong answer variant"),
    }
    match query(&state, &env_at(100), QueryMsg::ResolveListing { id: 2 }).unwrap() {
        QueryAnswer::Listing(l) => assert_eq!(l.token_id, "token2"),
        _ => panic!("wrong answer variant"),
    }
}

#[test]
fn listing_keys_render_in_decimal_beyond_one_digit() {
    let mut state = setup();
    for i in 0..120 {
        execute_place_listing(
            &mut state,
            &env_at(100),
            &info("seller", None),
            "nft".to_string(),
            format!("token{}", i + 1),
            None,
        )
        .unwrap();
    }
    let r = execute_bid_listing(&mut state, &env_at(200), &info("A", Some(coin("u", 5))), 120)
        .unwrap();
    assert_eq!(r.attributes[0].value, "120");
}
