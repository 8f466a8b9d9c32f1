//! What callers send and what they get back.

use vstd::prelude::*;

use cw721::ContractInfoResponse;
use cw721_metadata_onchain::Metadata;

verus! {

/// An account identifier as a caller wrote it, together with the host's
/// verdict on its form. Only the host can tell a well-formed address, so the
/// verdict comes in with the message.
#[derive(Clone, Debug, PartialEq, Eq)]
pub struct Account {
    pub address: String,
    pub valid: bool,
}

pub struct AccountView {
    pub address: Seq<char>,
    pub valid: bool,
}

impl View for Account {
    type V = AccountView;

    open spec fn view(&self) -> AccountView {
        AccountView { address: self.address@, valid: self.valid }
    }
}

/// The views of a list of accounts, in order.
pub open spec fn account_views(v: Seq<Account>) -> Seq<AccountView> {
    Seq::new(v.len(), |i: int| v[i]@)
}

impl Account {
    /// An identifier that the host accepted.
    pub fn accepted(address: String) -> (a: Account)
        ensures
            a@ == (AccountView { address: address@, valid: true }),
    {
        Account { address, valid: true }
    }

    /// An identifier that the host rejected.
    pub fn rejected(address: String) -> (a: Account)
        ensures
            a@ == (AccountView { address: address@, valid: false }),
    {
        Account { address, valid: false }
    }
}

/// Who sent a message. The host vouches for the sender's address.
#[derive(Clone, Debug, PartialEq, Eq)]
pub struct MessageInfo {
    pub sender: String,
}

/// The block in which a call is evaluated.
#[derive(Clone, Copy, Debug, PartialEq, Eq, Structural)]
pub struct BlockInfo {
    /// The number of blocks before this one.
    pub height: u64,
    /// The block's time, in nanoseconds since the epoch.
    pub time: u64,
}

/// The environment of a call.
#[derive(Clone, Copy, Debug, PartialEq, Eq, Structural)]
pub struct Env {
    pub block: BlockInfo,
}

/// The point at which an approval lapses.
#[derive(Clone, Copy, Debug, PartialEq, Eq, Structural)]
pub enum Expiration {
    /// Lapses once the block height has reached this number.
    AtHeight(u64),
    /// Lapses once the block time has reached this many nanoseconds.
    AtTime(u64),
    /// Never lapses.
    Never {},
}

impl Expiration {
    /// Whether the point has been reached in `block`.
    pub open spec fn expired_at(self, block: BlockInfo) -> bool {
        match self {
            Expiration::AtHeight(height) => block.height >= height,
            Expiration::AtTime(time) => block.time >= time,
            Expiration::Never {  } => false,
        }
    }

    /// Whether the point has been reached in `block`.
    pub fn is_expired(&self, block: &BlockInfo) -> (b: bool)
        ensures
            b == self.expired_at(*block),
    {
        match self {
            Expiration::AtHeight(height) => block.height >= *height,
            Expiration::AtTime(time) => block.time >= *time,
            Expiration::Never {  } => false,
        }
    }
}

/// What sets up an instance.
#[derive(Debug, PartialEq)]
pub struct InstantiateMsg {
    /// Name and symbol of the series.
    pub contract_info: ContractInfoResponse,
    /// The account that may mint.
    pub minter: Account,
    /// The metadata of each level: the first record is for level 1, the
    /// second for level 2, and so on.
    pub metadatas: Vec<Metadata>,
}

/// The operations that change state.
#[derive(Clone, Debug, PartialEq)]
pub enum ExecuteMsg {
    /// Mints one token of the given level to each owner, in order.
    Mint { level: u8, owners: Vec<Account> },
    /// Hands the minting privilege to another account.
    UpdateMinter { new_minter: Account },
    TransferNft { recipient: String, token_id: String },
    SendNft { contract: String, token_id: String, msg: Vec<u8> },
    Approve { spender: String, token_id: String, expires: Option<Expiration> },
    Revoke { spender: String, token_id: String },
    ApproveAll { operator: String, expires: Option<Expiration> },
    RevokeAll { operator: String },
}

/// The questions that can be asked.
#[derive(Clone, Debug, PartialEq)]
pub enum QueryMsg {
    /// The metadata of a token's level.
    NftInfo { token_id: String },
    /// A token's owner and approvals together with its metadata.
    AllNftInfo { token_id: String, include_expired: Option<bool> },
    ContractInfo {  },
    Minter {  },
    NumTokens {  },
    OwnerOf { token_id: String, include_expired: Option<bool> },
    ApprovedForAll {
        owner: String,
        include_expired: Option<bool>,
        start_after: Option<String>,
        limit: Option<u32>,
    },
    Tokens { owner: String, start_after: Option<String>, limit: Option<u32> },
    AllTokens { start_after: Option<String>, limit: Option<u32> },
}

/// A migration carries nothing.
#[derive(Clone, Copy, Debug, PartialEq, Eq, Structural)]
pub struct MigrateMsg {}

/// One observable effect of a call: a key and its value.
#[derive(Clone, Debug, PartialEq, Eq)]
pub struct Attribute {
    pub key: String,
    pub value: String,
}

/// What a successful call reports.
#[derive(Clone, Debug, PartialEq, Eq)]
pub struct Response {
    /// The reported effects, in the order in which they were added.
    pub attributes: Vec<Attribute>,
}

impl View for Response {
    type V = Seq<(Seq<char>, Seq<char>)>;

    open spec fn view(&self) -> Seq<(Seq<char>, Seq<char>)> {
        Seq::new(
            self.attributes@.len(),
            |i: int| (self.attributes@[i].key@, self.attributes@[i].value@),
        )
    }
}

impl Response {
    /// A response that reports nothing.
    pub fn new() -> (r: Response)
        ensures
            r@ == Seq::<(Seq<char>, Seq<char>)>::empty(),
    {
        Response { attributes: Vec::new() }
    }

    /// The same response with one more attribute after those it had.
    pub fn add_attribute(self, key: &str, value: &str) -> (r: Response)
        ensures
            r@ == self@.push((key@, value@)),
    {
        let mut attributes = self.attributes;
        attributes.push(Attribute { key: String::from_str(key), value: String::from_str(value) });
        Response { attributes }
    }
}

/// A permission to transfer one token.
#[derive(Clone, Debug, PartialEq, Eq)]
pub struct Approval {
    /// The account that may transfer the token.
    pub spender: String,
    /// When the permission lapses.
    pub expires: Expiration,
}

pub struct ApprovalView {
    pub spender: Seq<char>,
    pub expires: Expiration,
}

impl View for Approval {
    type V = ApprovalView;

    open spec fn view(&self) -> ApprovalView {
        ApprovalView { spender: self.spender@, expires: self.expires }
    }
}

/// The views of a list of approvals, in order.
pub open spec fn approval_views(v: Seq<Approval>) -> Seq<ApprovalView> {
    Seq::new(v.len(), |i: int| v[i]@)
}

/// Who holds a token and who else may transfer it.
#[derive(Clone, Debug, PartialEq, Eq)]
pub struct OwnerOfResponse {
    pub owner: String,
    pub approvals: Vec<Approval>,
}

pub struct OwnerOfView {
    pub owner: Seq<char>,
    pub approvals: Seq<ApprovalView>,
}

impl View for OwnerOfResponse {
    type V = OwnerOfView;

    open spec fn view(&self) -> OwnerOfView {
        OwnerOfView { owner: self.owner@, approvals: approval_views(self.approvals@) }
    }
}

/// What describes a token.
#[derive(Clone, Debug, PartialEq)]
pub struct NftInfoResponse {
    /// Always absent: the description comes from the level's record.
    pub token_uri: Option<String>,
    /// The metadata record of the token's level.
    pub extension: Metadata,
}

pub struct NftInfoView {
    pub token_uri: Option<Seq<char>>,
    pub extension: Metadata,
}

impl View for NftInfoResponse {
    type V = NftInfoView;

    open spec fn view(&self) -> NftInfoView {
        NftInfoView {
            token_uri: match self.token_uri {
                Some(uri) => Some(uri@),
                None => None,
            },
            extension: self.extension,
        }
    }
}

/// A token's owner and approvals together with its description.
#[derive(Clone, Debug, PartialEq)]
pub struct AllNftInfoResponse {
    pub access: OwnerOfResponse,
    pub info: NftInfoResponse,
}

pub struct AllNftInfoView {
    pub access: OwnerOfView,
    pub info: NftInfoView,
}

impl View for AllNftInfoResponse {
    type V = AllNftInfoView;

    open spec fn view(&self) -> AllNftInfoView {
        AllNftInfoView { access: self.access@, info: self.info@ }
    }
}

/// What became of an `ExecuteMsg`.
#[derive(Clone, Debug, PartialEq)]
pub enum ExecuteOutcome {
    /// The operation was carried out here; this is its report.
    Done(Response),
    /// The operation belongs to the token registry, which is to carry out
    /// the message as it stands.
    Forward(ExecuteMsg),
}

/// What became of a `QueryMsg`.
#[derive(Clone, Debug, PartialEq)]
pub enum QueryOutcome {
    NftInfo(NftInfoResponse),
    AllNftInfo(AllNftInfoResponse),
    /// The question belongs to the token registry, which is to answer the
    /// message as it stands.
    Forward(QueryMsg),
}

} // verus!
