//! What holds of every instance, whatever calls it has seen.

use vstd::prelude::*;

use crate::contract::{
    all_nft_info_spec, mint_outcome, mint_refusal, mint_spec, minted, nft_info_spec,
    update_minter_outcome,
};
use crate::decimal::{decimal, lemma_decimal_injective};
use crate::error::ContractError;
use crate::msg::{
    AccountView, AllNftInfoView, ApprovalView, BlockInfo, NftInfoView, OwnerOfView,
};
use crate::registry::{lookup, owner_of_spec, visible, TokenInfoView, TokenView};
use crate::state::{well_numbered, StateView};

verus! {

/// One request to mint: a level and the owners, in order.
pub struct MintCall {
    pub level: u8,
    pub owners: Seq<AccountView>,
}

/// The state after `sender` has asked for each of `calls` in turn, or the
/// first refusal.
pub open spec fn run_mints(s: StateView, sender: Seq<char>, calls: Seq<MintCall>) -> Result<
    StateView,
    ContractError,
>
    decreases calls.len(),
{
    if calls.len() == 0 {
        Ok(s)
    } else {
        match run_mints(s, sender, calls.drop_last()) {
            Err(e) => Err(e),
            Ok(mid) => mint_outcome(mid, sender, calls.last().level, calls.last().owners),
        }
    }
}

/// The sum of the lengths of the owner lists.
pub open spec fn total_owners(calls: Seq<MintCall>) -> nat
    decreases calls.len(),
{
    if calls.len() == 0 {
        0
    } else {
        total_owners(calls.drop_last()) + calls.last().owners.len()
    }
}

/// What the calls ask for, in the order of the calls and, within a call, of
/// its list: each owner with the level of its call.
pub open spec fn requested(calls: Seq<MintCall>) -> Seq<(Seq<char>, u8)>
    decreases calls.len(),
{
    if calls.len() == 0 {
        Seq::empty()
    } else {
        requested(calls.drop_last()) + Seq::new(
            calls.last().owners.len(),
            |i: int| (calls.last().owners[i].address, calls.last().level),
        )
    }
}

/// The tokens that stand for `entries` when they are numbered from 1 on.
pub open spec fn numbered_from_one(entries: Seq<(Seq<char>, u8)>) -> Seq<TokenView> {
    Seq::new(
        entries.len(),
        |k: int|
            TokenView {
                token_id: decimal((k + 1) as nat),
                info: TokenInfoView {
                    owner: entries[k].0,
                    approvals: Seq::empty(),
                    level: entries[k].1,
                },
            },
    )
}

/// A mint keeps the tokens numbered without gaps.
pub proof fn law_mint_keeps_numbering(s: StateView, level: u8, owners: Seq<AccountView>)
    requires
        well_numbered(s),
    ensures
        well_numbered(mint_spec(s, level, owners)),
{
    let after = mint_spec(s, level, owners);
    assert forall|k: int| 0 <= k < after.tokens.len() implies (#[trigger] after.tokens[k]).token_id
        == decimal((k + 1) as nat) by {}
}

/// Among tokens numbered without gaps, the identifier `k + 1` finds the
/// token at position `k`.
pub proof fn lemma_lookup_numbered(tokens: Seq<TokenView>, k: int)
    requires
        forall|j: int|
            0 <= j < tokens.len() ==> (#[trigger] tokens[j]).token_id == decimal((j + 1) as nat),
        0 <= k < tokens.len(),
    ensures
        lookup(tokens, decimal((k + 1) as nat)) == Some(tokens[k].info),
    decreases tokens.len(),
{
    let last = tokens.len() - 1;
    if k != last {
        if decimal((last + 1) as nat) == decimal((k + 1) as nat) {
            lemma_decimal_injective((last + 1) as nat, (k + 1) as nat);
        }
        let rest = tokens.drop_last();
        assert forall|j: int| 0 <= j < rest.len() implies (#[trigger] rest[j]).token_id == decimal(
            (j + 1) as nat,
        ) by {}
        lemma_lookup_numbered(rest, k);
    }
}

/// An identifier that no token carries finds nothing.
pub proof fn lemma_lookup_unknown(tokens: Seq<TokenView>, token_id: Seq<char>)
    requires
        forall|j: int| 0 <= j < tokens.len() ==> (#[trigger] tokens[j]).token_id != token_id,
    ensures
        lookup(tokens, token_id) is None,
    decreases tokens.len(),
{
    if tokens.len() > 0 {
        let rest = tokens.drop_last();
        assert forall|j: int| 0 <= j < rest.len() implies (#[trigger] rest[j]).token_id
            != token_id by {}
        lemma_lookup_unknown(rest, token_id);
    }
}

/// Where the tokens are numbered without gaps, no identifier is carried by
/// two tokens.
pub proof fn law_identifiers_distinct(s: StateView, i: int, j: int)
    requires
        well_numbered(s),
        0 <= i < s.tokens.len(),
        0 <= j < s.tokens.len(),
        i != j,
    ensures
        s.tokens[i].token_id != s.tokens[j].token_id,
{
    if decimal((i + 1) as nat) == decimal((j + 1) as nat) {
        lemma_decimal_injective((i + 1) as nat, (j + 1) as nat);
    }
}

/// Rotating the minter leaves the tokens and their numbering alone.
pub proof fn law_rotation_keeps_numbering(s: StateView, sender: Seq<char>, new_minter: AccountView)
    requires
        well_numbered(s),
    ensures
        match update_minter_outcome(s, sender, new_minter) {
            Ok(after) => well_numbered(after),
            Err(_) => true,
        },
{
}

/// Where the tokens are numbered without gaps, a number that the counter
/// has not reached yet, and zero, name no token: a question about such an
/// item fails for want of the token.
pub proof fn law_unissued_identifier_unknown(
    s: StateView,
    n: nat,
    block: BlockInfo,
    include_expired: bool,
)
    requires
        well_numbered(s),
        n == 0 || n > s.token_count,
    ensures
        nft_info_spec(s, decimal(n)) == Err::<NftInfoView, ContractError>(
            ContractError::TokenNotFound {  },
        ),
        all_nft_info_spec(s, block, decimal(n), include_expired) == Err::<
            AllNftInfoView,
            ContractError,
        >(ContractError::TokenNotFound {  }),
{
    assert forall|j: int| 0 <= j < s.tokens.len() implies (#[trigger] s.tokens[j]).token_id
        != decimal(n) by {
        if decimal((j + 1) as nat) == decimal(n) {
            lemma_decimal_injective((j + 1) as nat, n);
        }
    }
    lemma_lookup_unknown(s.tokens, decimal(n));
}

/// After any sequence of mints that the minter asked for and none of which
/// was refused, on an instance that had issued nothing: the counter is the
/// sum of the lengths of the owner lists, and the tokens are exactly what was
/// asked for, in the order of the calls and of each list, under the
/// identifiers 1, 2, 3 and so on without a gap. Nothing else has changed.
pub proof fn law_mint_sequence(s0: StateView, sender: Seq<char>, calls: Seq<MintCall>)
    requires
        s0.token_count == 0,
        s0.tokens.len() == 0,
        run_mints(s0, sender, calls) is Ok,
    ensures
        match run_mints(s0, sender, calls) {
            Ok(s) => {
                &&& s.token_count == total_owners(calls)
                &&& requested(calls).len() == total_owners(calls)
                &&& s.tokens == numbered_from_one(requested(calls))
                &&& well_numbered(s)
                &&& s.minter == s0.minter
                &&& s.levels == s0.levels
                &&& s.contract_info == s0.contract_info
            },
            Err(_) => false,
        },
    decreases calls.len(),
{
    if calls.len() > 0 {
        law_mint_sequence(s0, sender, calls.drop_last());
    }
}

/// After such a sequence of mints, asking for the description of the token
/// with identifier `k + 1` gives the record of the level that was asked for
/// that token, with no URI; and where that level has no record, the question
/// fails for want of the level.
pub proof fn law_item_info_after_mints(
    s0: StateView,
    sender: Seq<char>,
    calls: Seq<MintCall>,
    k: int,
)
    requires
        s0.token_count == 0,
        s0.tokens.len() == 0,
        run_mints(s0, sender, calls) is Ok,
        0 <= k < requested(calls).len(),
    ensures
        ({
            let s = run_mints(s0, sender, calls)->Ok_0;
            let level = requested(calls)[k].1;
            nft_info_spec(s, decimal((k + 1) as nat)) == if s0.levels.dom().contains(level) {
                Ok::<NftInfoView, ContractError>(
                    NftInfoView { token_uri: None, extension: s0.levels[level] },
                )
            } else {
                Err::<NftInfoView, ContractError>(ContractError::LevelNotFound {  })
            }
        }),
{
    law_mint_sequence(s0, sender, calls);
    let s = run_mints(s0, sender, calls)->Ok_0;
    lemma_lookup_numbered(s.tokens, k);
}

/// After such a sequence of mints, the token with identifier `k + 1` is
/// held by the owner that was asked for at that place, with no approvals;
/// and the question for all of an item's information names that owner
/// wherever it has an answer, which is wherever the token's level has a
/// record.
pub proof fn law_item_owner_after_mints(
    s0: StateView,
    sender: Seq<char>,
    calls: Seq<MintCall>,
    k: int,
    block: BlockInfo,
    include_expired: bool,
)
    requires
        s0.token_count == 0,
        s0.tokens.len() == 0,
        run_mints(s0, sender, calls) is Ok,
        0 <= k < requested(calls).len(),
    ensures
        ({
            let s = run_mints(s0, sender, calls)->Ok_0;
            let token_id = decimal((k + 1) as nat);
            let owner = requested(calls)[k].0;
            let level = requested(calls)[k].1;
            &&& owner_of_spec(s.tokens, block, token_id, include_expired) == Ok::<
                OwnerOfView,
                ContractError,
            >(OwnerOfView { owner, approvals: Seq::empty() })
            &&& all_nft_info_spec(s, block, token_id, include_expired) is Ok
                <==> s0.levels.dom().contains(level)
            &&& match all_nft_info_spec(s, block, token_id, include_expired) {
                Ok(answer) => answer.access.owner == owner && answer.info.extension
                    == s0.levels[level],
                Err(e) => e == ContractError::LevelNotFound {  },
            }
        }),
{
    law_mint_sequence(s0, sender, calls);
    law_item_info_after_mints(s0, sender, calls, k);
    let s = run_mints(s0, sender, calls)->Ok_0;
    lemma_lookup_numbered(s.tokens, k);
    reveal(Seq::filter);
}

/// A mint that anyone but the minter asks for is refused as unauthorized.
pub proof fn law_mint_needs_authority(
    s: StateView,
    sender: Seq<char>,
    level: u8,
    owners: Seq<AccountView>,
)
    requires
        sender != s.minter,
    ensures
        mint_outcome(s, sender, level, owners) == Err::<StateView, ContractError>(
            ContractError::Unauthorized {  },
        ),
{
}

/// Rotating the minter. Anyone but the minter is refused. The minter
/// succeeds with any address that the host accepted; after that the new
/// account passes the authority check of every mint, so that it can mint
/// whatever the old minter could have minted before, and the old account,
/// unless it is the new one, is refused every mint.
pub proof fn law_rotation(
    s: StateView,
    sender: Seq<char>,
    new_minter: AccountView,
    level: u8,
    owners: Seq<AccountView>,
)
    ensures
        sender != s.minter ==> update_minter_outcome(s, sender, new_minter) == Err::<
            StateView,
            ContractError,
        >(ContractError::Unauthorized {  }),
        sender == s.minter && new_minter.valid ==> match update_minter_outcome(
            s,
            sender,
            new_minter,
        ) {
            Ok(after) => {
                &&& after == StateView { minter: new_minter.address, ..s }
                &&& mint_refusal(after, new_minter.address, owners) != Some(
                    ContractError::Unauthorized {  },
                )
                &&& mint_outcome(s, s.minter, level, owners) is Ok ==> mint_outcome(
                    after,
                    new_minter.address,
                    level,
                    owners,
                ) is Ok
                &&& new_minter.address != s.minter ==> mint_outcome(after, s.minter, level, owners)
                    == Err::<StateView, ContractError>(ContractError::Unauthorized {  })
            },
            Err(_) => false,
        },
{
}

} // verus!
