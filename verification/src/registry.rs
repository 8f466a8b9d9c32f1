//! The token registry as the contract uses it: which tokens exist, who owns
//! each, who may transfer it, and which level it has.

use vstd::prelude::*;

use crate::error::ContractError;
use crate::msg::{approval_views, Approval, ApprovalView, BlockInfo, OwnerOfResponse, OwnerOfView};

verus! {

/// What the registry records of one token.
#[derive(Clone, Debug, PartialEq, Eq)]
pub struct TokenInfo {
    /// The account that holds the token.
    pub owner: String,
    /// The accounts that may transfer it for the owner.
    pub approvals: Vec<Approval>,
    /// The level that the token was minted with.
    pub level: u8,
}

pub struct TokenInfoView {
    pub owner: Seq<char>,
    pub approvals: Seq<ApprovalView>,
    pub level: u8,
}

impl View for TokenInfo {
    type V = TokenInfoView;

    open spec fn view(&self) -> TokenInfoView {
        TokenInfoView {
            owner: self.owner@,
            approvals: approval_views(self.approvals@),
            level: self.level,
        }
    }
}

/// A token: its identifier and what is recorded under it.
#[derive(Clone, Debug, PartialEq, Eq)]
pub struct Token {
    pub token_id: String,
    pub info: TokenInfo,
}

pub struct TokenView {
    pub token_id: Seq<char>,
    pub info: TokenInfoView,
}

impl View for Token {
    type V = TokenView;

    open spec fn view(&self) -> TokenView {
        TokenView { token_id: self.token_id@, info: self.info@ }
    }
}

/// The views of a list of tokens, in order.
pub open spec fn token_views(v: Seq<Token>) -> Seq<TokenView> {
    Seq::new(v.len(), |i: int| v[i]@)
}

/// The views of a list of strings, in order.
pub open spec fn string_views(v: Seq<String>) -> Seq<Seq<char>> {
    Seq::new(v.len(), |i: int| v[i]@)
}

/// What is recorded under `token_id`: the entry created last under that
/// identifier, if there is one.
pub open spec fn lookup(tokens: Seq<TokenView>, token_id: Seq<char>) -> Option<TokenInfoView>
    decreases tokens.len(),
{
    if tokens.len() == 0 {
        None
    } else if tokens.last().token_id == token_id {
        Some(tokens.last().info)
    } else {
        lookup(tokens.drop_last(), token_id)
    }
}

/// Whether an approval is shown in `block`: one that has lapsed is shown only
/// on request.
pub open spec fn shown(block: BlockInfo, include_expired: bool) -> spec_fn(ApprovalView) -> bool {
    |a: ApprovalView| include_expired || !a.expires.expired_at(block)
}

/// The approvals that are shown in `block`, in their order.
pub open spec fn visible(
    approvals: Seq<ApprovalView>,
    block: BlockInfo,
    include_expired: bool,
) -> Seq<ApprovalView> {
    approvals.filter(shown(block, include_expired))
}

/// Who holds `token_id` and who else may transfer it, as of `block`.
pub open spec fn owner_of_spec(
    tokens: Seq<TokenView>,
    block: BlockInfo,
    token_id: Seq<char>,
    include_expired: bool,
) -> Result<OwnerOfView, ContractError> {
    match lookup(tokens, token_id) {
        Some(info) => Ok(
            OwnerOfView {
                owner: info.owner,
                approvals: visible(info.approvals, block, include_expired),
            },
        ),
        None => Err(ContractError::TokenNotFound {  }),
    }
}

/// The identifiers of the tokens, in order.
pub open spec fn token_ids_spec(tokens: Seq<TokenView>) -> Seq<Seq<char>> {
    Seq::new(tokens.len(), |i: int| tokens[i].token_id)
}

/// Whether a token is recorded as held by `owner`.
pub open spec fn held_by(owner: Seq<char>) -> spec_fn(TokenView) -> bool {
    |t: TokenView| t.info.owner == owner
}

/// The identifiers of the tokens recorded as held by `owner`, in order.
pub open spec fn tokens_of_spec(tokens: Seq<TokenView>, owner: Seq<char>) -> Seq<Seq<char>> {
    token_ids_spec(tokens.filter(held_by(owner)))
}

/// The tokens, in the order in which they were created. Its view is the
/// sequence of their views.
#[derive(Clone, Debug, PartialEq, Eq)]
pub struct TokenRegistry {
    pub tokens: Vec<Token>,
}

impl View for TokenRegistry {
    type V = Seq<TokenView>;

    open spec fn view(&self) -> Seq<TokenView> {
        token_views(self.tokens@)
    }
}

impl TokenRegistry {
    /// A registry without tokens.
    pub fn new() -> (registry: TokenRegistry)
        ensures
            registry@ == Seq::<TokenView>::empty(),
    {
        TokenRegistry { tokens: Vec::new() }
    }

    /// Records a new token of `level` for `owner`, with no approvals, after
    /// the tokens recorded so far.
    pub fn create(&mut self, token_id: String, owner: String, level: u8)
        ensures
            final(self)@ == old(self)@.push(
                TokenView {
                    token_id: token_id@,
                    info: TokenInfoView { owner: owner@, approvals: Seq::empty(), level },
                },
            ),
    {
        let info = TokenInfo { owner, approvals: Vec::new(), level };
        assert(info@.approvals =~= Seq::<ApprovalView>::empty());
        self.tokens.push(Token { token_id, info });
    }

    /// Records the tokens of `other` after the tokens recorded so far.
    pub fn append(&mut self, other: TokenRegistry)
        ensures
            final(self)@ == old(self)@ + other@,
    {
        let mut incoming = other.tokens;
        self.tokens.append(&mut incoming);
    }

    /// What is recorded under `token_id`.
    pub fn load(&self, token_id: &String) -> (r: Result<&TokenInfo, ContractError>)
        ensures
            match r {
                Ok(info) => lookup(self@, token_id@) == Some(info@),
                Err(e) => e == ContractError::TokenNotFound {  } && lookup(self@, token_id@)
                    is None,
            },
    {
        let mut i: usize = self.tokens.len();
        assert(self@.subrange(0, i as int) =~= self@);
        while i > 0
            invariant
                i <= self.tokens.len(),
                lookup(self@, token_id@) == lookup(self@.subrange(0, i as int), token_id@),
            decreases i,
        {
            i = i - 1;
            proof {
                let upto = self@.subrange(0, i + 1);
                assert(upto.drop_last() =~= self@.subrange(0, i as int));
            }
            if self.tokens[i].token_id == *token_id {
                return Ok(&self.tokens[i].info);
            }
        }
        Err(ContractError::TokenNotFound {  })
    }

    /// Who holds `token_id` and who else may transfer it, as of `block`.
    /// Approvals that have lapsed are left out unless `include_expired`.
    pub fn owner_of(&self, block: &BlockInfo, token_id: &String, include_expired: bool) -> (r:
        Result<OwnerOfResponse, ContractError>)
        ensures
            match r {
                Ok(access) => owner_of_spec(self@, *block, token_id@, include_expired) == Ok::<
                    OwnerOfView,
                    ContractError,
                >(access@),
                Err(e) => owner_of_spec(self@, *block, token_id@, include_expired) == Err::<
                    OwnerOfView,
                    ContractError,
                >(e),
            },
    {
        let info = match self.load(token_id) {
            Ok(info) => info,
            Err(e) => {
                return Err(e);
            },
        };
        let ghost all = approval_views(info.approvals@);
        let mut approvals: Vec<Approval> = Vec::new();
        let mut i: usize = 0;
        proof {
            reveal(Seq::filter);
        }
        while i < info.approvals.len()
            invariant
                i <= info.approvals.len(),
                all == approval_views(info.approvals@),
                approval_views(approvals@) == visible(
                    all.subrange(0, i as int),
                    *block,
                    include_expired,
                ),
            decreases info.approvals.len() - i,
        {
            let approval = &info.approvals[i];
            proof {
                reveal(Seq::filter);
                let upto = all.subrange(0, i + 1);
                assert(upto.drop_last() =~= all.subrange(0, i as int));
            }
            if include_expired || !approval.expires.is_expired(block) {
                approvals.push(
                    Approval { spender: approval.spender.clone(), expires: approval.expires },
                );
            }
            i = i + 1;
        }
        assert(all.subrange(0, i as int) =~= all);
        Ok(OwnerOfResponse { owner: info.owner.clone(), approvals })
    }

    /// The number of tokens recorded.
    pub fn num_tokens(&self) -> (n: usize)
        ensures
            n == self@.len(),
    {
        self.tokens.len()
    }

    /// The identifiers of the tokens, in the order in which they were
    /// created.
    pub fn token_ids(&self) -> (ids: Vec<String>)
        ensures
            string_views(ids@) == token_ids_spec(self@),
    {
        let mut ids: Vec<String> = Vec::new();
        let mut i: usize = 0;
        while i < self.tokens.len()
            invariant
                i <= self.tokens.len(),
                ids@.len() == i,
                forall|k: int| 0 <= k < i ==> ids@[k]@ == self.tokens@[k].token_id@,
            decreases self.tokens.len() - i,
        {
            ids.push(self.tokens[i].token_id.clone());
            i = i + 1;
        }
        ids
    }

    /// The identifiers of the tokens recorded as held by `owner`, in the
    /// order in which they were created.
    pub fn tokens_of(&self, owner: &String) -> (ids: Vec<String>)
        ensures
            string_views(ids@) == tokens_of_spec(self@, owner@),
    {
        let mut ids: Vec<String> = Vec::new();
        let mut i: usize = 0;
        proof {
            reveal(Seq::filter);
        }
        while i < self.tokens.len()
            invariant
                i <= self.tokens.len(),
                string_views(ids@) == tokens_of_spec(self@.subrange(0, i as int), owner@),
            decreases self.tokens.len() - i,
        {
            let ghost before = string_views(ids@);
            proof {
                reveal(Seq::filter);
                let upto = self@.subrange(0, i + 1);
                assert(upto.drop_last() =~= self@.subrange(0, i as int));
            }
            if self.tokens[i].info.owner == *owner {
                ids.push(self.tokens[i].token_id.clone());
                assert(tokens_of_spec(self@.subrange(0, i + 1), owner@) =~= before.push(
                    self.tokens@[i as int].token_id@,
                ));
            }
            i = i + 1;
        }
        assert(self@.subrange(0, i as int) =~= self@);
        ids
    }
}

} // verus!
