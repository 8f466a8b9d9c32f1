//! The state of one instance.

use vstd::prelude::*;

use crate::authority::MintAuthority;
use crate::counter::TokenCounter;
use crate::decimal::decimal;
use crate::levels::LevelStore;
use crate::registry::{TokenRegistry, TokenView};
use cw721::ContractInfoResponse;
use cw721_metadata_onchain::Metadata;

verus! {

/// All that an instance keeps between calls.
#[derive(Debug, PartialEq)]
pub struct State {
    /// Name and symbol of the series.
    pub contract_info: ContractInfoResponse,
    /// Who may mint.
    pub authority: MintAuthority,
    /// How many tokens were issued.
    pub counter: TokenCounter,
    /// The metadata record of each level.
    pub levels: LevelStore,
    /// The tokens.
    pub registry: TokenRegistry,
}

pub struct StateView {
    pub contract_info: ContractInfoResponse,
    pub minter: Seq<char>,
    pub token_count: nat,
    pub levels: Map<u8, Metadata>,
    pub tokens: Seq<TokenView>,
}

impl View for State {
    type V = StateView;

    open spec fn view(&self) -> StateView {
        StateView {
            contract_info: self.contract_info,
            minter: self.authority@,
            token_count: self.counter@,
            levels: self.levels@,
            tokens: self.registry@,
        }
    }
}

/// Whether the tokens are numbered without gaps: as many as the counter
/// says, the token at position `k`, counted from zero, under the identifier
/// `k + 1`. Every state that an instance reaches is so.
pub open spec fn well_numbered(s: StateView) -> bool {
    &&& s.tokens.len() == s.token_count
    &&& forall|k: int|
        0 <= k < s.tokens.len() ==> (#[trigger] s.tokens[k]).token_id == decimal((k + 1) as nat)
}

} // verus!
