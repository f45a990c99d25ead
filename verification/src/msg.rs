//! External interface: request variants, query variants, the response
//! with its outbound intents, and the query answers.

use vstd::prelude::*;
use crate::state::{Coin, CoinV, Config, Listing, Metadata, MetadataV, Royalty, opt_coin_view,
    opt_str_view};

verus! {

/// Request that initializes the administrative record.
#[derive(Debug, PartialEq)]
pub struct InstantiateMsg {
    pub nft_contract_address: String,
}

/// Parameters of a mint request.
#[derive(Debug, PartialEq)]
pub struct GFMintMsg {
    /// Identity that will own the minted asset.
    pub owner: String,
    /// Identifies the asset this NFT represents.
    pub name: String,
    /// A URI pointing to an image representing the asset.
    pub image_uri: Option<String>,
    /// An external URI.
    pub external_link: Option<String>,
    /// Describes the asset (may be absent).
    pub description: Option<String>,
    /// A collection this NFT belongs to.
    pub collection: Option<u128>,
    /// Number of real piece representations.
    pub num_real_repr: u128,
    /// Number of collectible units.
    pub num_nfts: u128,
    /// Royalties; accepted only when their rates sum to at most one.
    pub royalties: Vec<Royalty>,
    /// Initial ask price.
    pub init_price: u128,
}

/// Mathematical value of a [`GFMintMsg`].
pub struct GFMintMsgV {
    pub owner: Seq<char>,
    pub name: Seq<char>,
    pub image_uri: Option<Seq<char>>,
    pub external_link: Option<Seq<char>>,
    pub description: Option<Seq<char>>,
    pub collection: Option<u128>,
    pub num_real_repr: u128,
    pub num_nfts: u128,
    pub royalties: Seq<Royalty>,
    pub init_price: u128,
}

impl View for GFMintMsg {
    type V = GFMintMsgV;

    open spec fn view(&self) -> GFMintMsgV {
        GFMintMsgV {
            owner: self.owner@,
            name: self.name@,
            image_uri: opt_str_view(self.image_uri),
            external_link: opt_str_view(self.external_link),
            description: opt_str_view(self.description),
            collection: self.collection,
            num_real_repr: self.num_real_repr,
            num_nfts: self.num_nfts,
            royalties: self.royalties@,
            init_price: self.init_price,
        }
    }
}

/// The metadata a mint request assembles: the caller's fields, with the
/// collection marker fixed to one.
pub open spec fn metadata_of(msg: GFMintMsgV) -> MetadataV {
    MetadataV {
        name: msg.name,
        description: msg.description,
        external_link: msg.external_link,
        collection: Some(1u128),
        num_real_repr: msg.num_real_repr,
        num_nfts: msg.num_nfts,
        royalties: msg.royalties,
        init_price: msg.init_price,
    }
}

/// Request variants, each mapping to one engine operation.
#[derive(Debug, PartialEq)]
pub enum ExecuteMsg {
    /// Place an NFT on auction.
    PlaceListing { nft_contract_address: String, id: String, minimum_bid: Option<Coin> },
    /// Bid on a listed NFT; the funds sent with the request are the bid.
    BidListing { listing_id: u64 },
    /// Withdraw an ended auction.
    WithdrawListing { listing_id: u64 },
    /// Mint a new asset.
    Mint(GFMintMsg),
    /// Register a whitelisted minter, or refresh its window.
    UpdateMinter { minter: String },
    /// Remove a minter from the whitelist.
    RemoveMinter { minter: String },
}

/// Query variants.
#[derive(Debug, PartialEq)]
pub enum QueryMsg {
    /// The administrative record.
    Config {},
    /// All details of one listing.
    ResolveListing { id: u64 },
    /// Identities of the registered minters.
    QueryMinter {},
}

/// Details of one listing, as a query answer.
#[derive(Debug, PartialEq)]
pub struct ResolveListingResponse {
    pub token_id: String,
    pub contract_addr: String,
    pub seller: String,
    pub max_bid: Option<Coin>,
    pub max_bidder: String,
    pub block_limit: u64,
}

/// Mathematical value of a [`ResolveListingResponse`].
pub struct ResolveListingResponseV {
    pub token_id: Seq<char>,
    pub contract_addr: Seq<char>,
    pub seller: Seq<char>,
    pub max_bid: Option<CoinV>,
    pub max_bidder: Seq<char>,
    pub block_limit: u64,
}

impl View for ResolveListingResponse {
    type V = ResolveListingResponseV;

    open spec fn view(&self) -> ResolveListingResponseV {
        ResolveListingResponseV {
            token_id: self.token_id@,
            contract_addr: self.contract_addr@,
            seller: self.seller@,
            max_bid: opt_coin_view(self.max_bid),
            max_bidder: self.max_bidder@,
            block_limit: self.block_limit,
        }
    }
}

/// Answer to a query.
#[derive(Debug, PartialEq)]
pub enum QueryAnswer {
    Config(Config),
    Listing(ResolveListingResponse),
    Minters(Vec<String>),
}

/// An outbound intent: a request the engine computes for the execution
/// environment to carry out against an external collaborator.  The
/// engine never executes one itself.
#[derive(Debug, PartialEq)]
pub enum Intent {
    /// Ask the Asset Custodian to grant `spender` transfer approval over
    /// the asset, until `expires_at`.
    Approve { contract_addr: String, spender: String, token_id: String, expires_at: u64 },
    /// Ask the Asset Custodian to transfer custody of the asset.
    TransferNft { contract_addr: String, recipient: String, token_id: String },
    /// Ask the Value Transfer Service to pay `amount` to `to_address`.
    BankSend { to_address: String, amount: Coin },
    /// Ask the Asset Custodian to mint a new asset.
    MintNft {
        contract_addr: String,
        token_id: String,
        owner: String,
        token_uri: Option<String>,
        extension: Metadata,
    },
}

/// Mathematical value of an [`Intent`].
pub enum IntentV {
    Approve { contract_addr: Seq<char>, spender: Seq<char>, token_id: Seq<char>, expires_at: u64 },
    TransferNft { contract_addr: Seq<char>, recipient: Seq<char>, token_id: Seq<char> },
    BankSend { to_address: Seq<char>, amount: CoinV },
    MintNft {
        contract_addr: Seq<char>,
        token_id: Seq<char>,
        owner: Seq<char>,
        token_uri: Option<Seq<char>>,
        extension: MetadataV,
    },
}

impl View for Intent {
    type V = IntentV;

    open spec fn view(&self) -> IntentV {
        match self {
            Intent::Approve { contract_addr, spender, token_id, expires_at } => (IntentV::Approve {
                contract_addr: contract_addr@,
                spender: spender@,
                token_id: token_id@,
                expires_at: *expires_at,
            }),
            Intent::TransferNft { contract_addr, recipient, token_id } => (IntentV::TransferNft {
                contract_addr: contract_addr@,
                recipient: recipient@,
                token_id: token_id@,
            }),
            Intent::BankSend { to_address, amount } => (IntentV::BankSend {
                to_address: to_address@,
                amount: amount@,
            }),
            Intent::MintNft { contract_addr, token_id, owner, token_uri, extension } => (
            IntentV::MintNft {
                contract_addr: contract_addr@,
                token_id: token_id@,
                owner: owner@,
                token_uri: opt_str_view(*token_uri),
                extension: extension@,
            }),
        }
    }
}

/// One key/value attribute of a response.
#[derive(Debug, PartialEq)]
pub struct Attribute {
    pub key: String,
    pub value: String,
}

/// Mathematical value of an [`Attribute`].
pub struct AttributeV {
    pub key: Seq<char>,
    pub value: Seq<char>,
}

impl View for Attribute {
    type V = AttributeV;

    open spec fn view(&self) -> AttributeV {
        AttributeV { key: self.key@, value: self.value@ }
    }
}

/// What a successful operation returns: descriptive attributes and the
/// outbound intents, in the order the environment must apply them.
#[derive(Debug, PartialEq)]
pub struct Response {
    pub attributes: Vec<Attribute>,
    pub messages: Vec<Intent>,
}

/// Mathematical value of a [`Response`].
pub struct ResponseV {
    pub attributes: Seq<AttributeV>,
    pub messages: Seq<IntentV>,
}

/// Mathematical value of a sequence of attributes.
pub open spec fn attrs_view(s: Seq<Attribute>) -> Seq<AttributeV> {
    s.map_values(|a: Attribute| a@)
}

/// Mathematical value of a sequence of intents.
pub open spec fn intents_view(s: Seq<Intent>) -> Seq<IntentV> {
    s.map_values(|m: Intent| m@)
}

impl View for Response {
    type V = ResponseV;

    open spec fn view(&self) -> ResponseV {
        ResponseV { attributes: attrs_view(self.attributes@), messages: intents_view(self.messages@) }
    }
}

impl Response {
    /// A response with no attributes and no intents.
    pub fn empty() -> (r: Response)
        ensures
            r@.attributes == Seq::<AttributeV>::empty(),
            r@.messages == Seq::<IntentV>::empty(),
    {
        let r = Response { attributes: Vec::new(), messages: Vec::new() };
        proof {
            assert(r@.attributes =~= Seq::<AttributeV>::empty());
            assert(r@.messages =~= Seq::<IntentV>::empty());
        }
        r
    }
}

/// The environment of one request: current block height and the
/// engine's own address (the sentinel bidder).
#[derive(Debug, PartialEq)]
pub struct Env {
    pub height: u64,
    pub contract_address: String,
}

/// The caller of one request: its identity and the funds it sent along.
#[derive(Debug, PartialEq)]
pub struct MessageInfo {
    pub sender: String,
    pub funds: Option<Coin>,
}

} // verus!
