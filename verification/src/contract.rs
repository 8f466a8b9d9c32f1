//! The contract's entry points: setting up an instance, minting, rotating
//! the minter, and answering questions about items.

use vstd::prelude::*;

use crate::authority::{rotation_report, MintAuthority};
use crate::counter::TokenCounter;
use crate::decimal::{decimal, decimal_string};
use crate::error::ContractError;
use crate::levels::{level_map, LevelStore};
use crate::msg::{
    account_views, Account, AccountView, AllNftInfoResponse, AllNftInfoView, BlockInfo, Env,
    ExecuteMsg, ExecuteOutcome, InstantiateMsg, MessageInfo, MigrateMsg, NftInfoResponse,
    NftInfoView, QueryMsg, QueryOutcome, Response,
};
use crate::registry::{lookup, owner_of_spec, TokenInfoView, TokenRegistry, TokenView};
use crate::laws::law_mint_keeps_numbering;
use crate::state::{well_numbered, State, StateView};
use cw721::ContractInfoResponse;
use cw721_metadata_onchain::Metadata;

verus! {

/// The state of an instance that has minted nothing yet.
pub open spec fn fresh_state(
    contract_info: ContractInfoResponse,
    minter: Seq<char>,
    metadatas: Seq<Metadata>,
) -> StateView {
    StateView {
        contract_info,
        minter,
        token_count: 0,
        levels: level_map(metadatas),
        tokens: Seq::empty(),
    }
}

/// The tokens that one mint adds: one for each owner, in the order of the
/// list, numbered from `first` on and all of the same level.
pub open spec fn minted(first: nat, level: u8, owners: Seq<AccountView>) -> Seq<TokenView> {
    Seq::new(
        owners.len(),
        |i: int|
            TokenView {
                token_id: decimal((first + i) as nat),
                info: TokenInfoView { owner: owners[i].address, approvals: Seq::empty(), level },
            },
    )
}

/// Why a mint is refused, if it is. The sender is checked first. Then the
/// owners are taken in order, and for each the counter is advanced before
/// the address is looked at: the first owner at which either fails decides.
pub open spec fn mint_refusal(s: StateView, sender: Seq<char>, owners: Seq<AccountView>) -> Option<
    ContractError,
> {
    if sender != s.minter {
        Some(ContractError::Unauthorized {  })
    } else if exists|j: int|
        0 <= j < owners.len() && !(#[trigger] owners[j]).valid && s.token_count + j + 1
            <= u64::MAX {
        Some(ContractError::InvalidAddress {  })
    } else if s.token_count + owners.len() > u64::MAX {
        Some(ContractError::CounterOverflow {  })
    } else {
        None
    }
}

/// The state after a mint that was not refused: the new tokens follow the
/// old ones, and the counter has advanced by their number.
pub open spec fn mint_spec(s: StateView, level: u8, owners: Seq<AccountView>) -> StateView {
    StateView {
        token_count: s.token_count + owners.len(),
        tokens: s.tokens + minted(s.token_count + 1, level, owners),
        ..s
    }
}

/// What becomes of the state when `sender` asks for a mint.
pub open spec fn mint_outcome(
    s: StateView,
    sender: Seq<char>,
    level: u8,
    owners: Seq<AccountView>,
) -> Result<StateView, ContractError> {
    match mint_refusal(s, sender, owners) {
        Some(e) => Err(e),
        None => Ok(mint_spec(s, level, owners)),
    }
}

/// What a mint reports: the action, the minter and the number of tokens.
pub open spec fn mint_report(minter: Seq<char>, num_minted: nat) -> Seq<(Seq<char>, Seq<char>)> {
    seq![
        ("action"@, "lockdrop-nft/execute/mint"@),
        ("minter"@, minter),
        ("num_minted"@, decimal(num_minted)),
    ]
}

/// What becomes of the state when `sender` asks to hand the minting
/// privilege to `new_minter`.
pub open spec fn update_minter_outcome(
    s: StateView,
    sender: Seq<char>,
    new_minter: AccountView,
) -> Result<StateView, ContractError> {
    if sender != s.minter {
        Err(ContractError::Unauthorized {  })
    } else if !new_minter.valid {
        Err(ContractError::InvalidAddress {  })
    } else {
        Ok(StateView { minter: new_minter.address, ..s })
    }
}

/// What describes the token `token_id`: the record of its level, and never a
/// URI of its own.
pub open spec fn nft_info_spec(s: StateView, token_id: Seq<char>) -> Result<
    NftInfoView,
    ContractError,
> {
    match lookup(s.tokens, token_id) {
        None => Err(ContractError::TokenNotFound {  }),
        Some(info) => if s.levels.dom().contains(info.level) {
            Ok(NftInfoView { token_uri: None, extension: s.levels[info.level] })
        } else {
            Err(ContractError::LevelNotFound {  })
        },
    }
}

/// The owner and approvals of `token_id` together with its description. It
/// fails as a whole where either part fails.
pub open spec fn all_nft_info_spec(
    s: StateView,
    block: BlockInfo,
    token_id: Seq<char>,
    include_expired: bool,
) -> Result<AllNftInfoView, ContractError> {
    match owner_of_spec(s.tokens, block, token_id, include_expired) {
        Err(e) => Err(e),
        Ok(access) => match nft_info_spec(s, token_id) {
            Err(e) => Err(e),
            Ok(info) => Ok(AllNftInfoView { access, info }),
        },
    }
}

/// What `execute_mint` owes its caller.
pub open spec fn mint_ensures(
    before: State,
    after: State,
    sender: Seq<char>,
    level: u8,
    owners: Seq<AccountView>,
    r: Result<Response, ContractError>,
) -> bool {
    match r {
        Ok(report) => {
            &&& mint_outcome(before@, sender, level, owners) == Ok::<StateView, ContractError>(
                after@,
            )
            &&& report@ == mint_report(sender, owners.len())
        },
        Err(e) => {
            &&& mint_outcome(before@, sender, level, owners) == Err::<StateView, ContractError>(e)
            &&& after == before
        },
    }
}

/// What `execute_update_minter` owes its caller.
pub open spec fn update_minter_ensures(
    before: State,
    after: State,
    sender: Seq<char>,
    new_minter: AccountView,
    r: Result<Response, ContractError>,
) -> bool {
    match r {
        Ok(report) => {
            &&& update_minter_outcome(before@, sender, new_minter) == Ok::<
                StateView,
                ContractError,
            >(after@)
            &&& report@ == rotation_report(before@.minter, new_minter.address)
        },
        Err(e) => {
            &&& update_minter_outcome(before@, sender, new_minter) == Err::<
                StateView,
                ContractError,
            >(e)
            &&& after == before
        },
    }
}

/// Sets up an instance: the minter, a counter at zero, no tokens, and the
/// records of `metadatas` as levels 1, 2 and so on. It fails only where the
/// host rejected the minter's address. A level is a `u8`, so there are at
/// most 255 records.
pub fn instantiate(env: Env, info: MessageInfo, msg: InstantiateMsg) -> (r: Result<
    (State, Response),
    ContractError,
>)
    requires
        msg.metadatas.len() <= 255,
    ensures
        match r {
            Ok((state, report)) => {
                &&& msg.minter.valid
                &&& state@ == fresh_state(msg.contract_info, msg.minter.address@, msg.metadatas@)
                &&& well_numbered(state@)
                &&& report@ == Seq::<(Seq<char>, Seq<char>)>::empty()
            },
            Err(e) => e == ContractError::InvalidAddress {  } && !msg.minter.valid,
        },
{
    if !msg.minter.valid {
        return Err(ContractError::InvalidAddress {  });
    }
    let state = State {
        contract_info: msg.contract_info,
        authority: MintAuthority::initialize(msg.minter.address),
        counter: TokenCounter::new(),
        levels: LevelStore::initialize(msg.metadatas),
        registry: TokenRegistry::new(),
    };
    Ok((state, Response::new()))
}

/// Carries out `msg` for the sender in `info`. Minting and rotating the
/// minter are done here; every other message is the token registry's and is
/// handed on as it stands, with the state untouched.
pub fn execute(state: &mut State, env: Env, info: MessageInfo, msg: ExecuteMsg) -> (r: Result<
    ExecuteOutcome,
    ContractError,
>)
    ensures
        match msg {
            ExecuteMsg::Mint { level, owners } => match r {
                Ok(ExecuteOutcome::Done(report)) => mint_ensures(
                    *old(state),
                    *final(state),
                    info.sender@,
                    level,
                    account_views(owners@),
                    Ok(report),
                ),
                Ok(ExecuteOutcome::Forward(_)) => false,
                Err(e) => mint_ensures(
                    *old(state),
                    *final(state),
                    info.sender@,
                    level,
                    account_views(owners@),
                    Err(e),
                ),
            },
            ExecuteMsg::UpdateMinter { new_minter } => match r {
                Ok(ExecuteOutcome::Done(report)) => update_minter_ensures(
                    *old(state),
                    *final(state),
                    info.sender@,
                    new_minter@,
                    Ok(report),
                ),
                Ok(ExecuteOutcome::Forward(_)) => false,
                Err(e) => update_minter_ensures(
                    *old(state),
                    *final(state),
                    info.sender@,
                    new_minter@,
                    Err(e),
                ),
            },
            _ => r == Ok::<ExecuteOutcome, ContractError>(ExecuteOutcome::Forward(msg))
                && *final(state) == *old(state),
        },
        well_numbered(old(state)@) ==> well_numbered(final(state)@),
        final(state)@.token_count >= old(state)@.token_count,
        final(state)@.levels == old(state)@.levels,
        final(state)@.contract_info == old(state)@.contract_info,
{
    match msg {
        ExecuteMsg::Mint { level, owners } => {
            match execute_mint(state, info, level, owners) {
                Ok(report) => Ok(ExecuteOutcome::Done(report)),
                Err(e) => Err(e),
            }
        },
        ExecuteMsg::UpdateMinter { new_minter } => {
            match execute_update_minter(state, info, new_minter) {
                Ok(report) => Ok(ExecuteOutcome::Done(report)),
                Err(e) => Err(e),
            }
        },
        other => Ok(ExecuteOutcome::Forward(other)),
    }
}

/// Mints one token of `level` to each of `owners`, in the order of the
/// list. The sender must be the minter. Each token's identifier is the
/// counter's next value in decimal notation. Whether `level` has a metadata
/// record is not looked at. A refused mint changes nothing.
pub fn execute_mint(state: &mut State, info: MessageInfo, level: u8, owners: Vec<Account>) -> (r:
    Result<Response, ContractError>)
    ensures
        mint_ensures(*old(state), *final(state), info.sender@, level, account_views(owners@), r),
        info.sender@ != old(state)@.minter ==> r == Err::<Response, ContractError>(
            ContractError::Unauthorized {  },
        ) && *final(state) == *old(state),
        well_numbered(old(state)@) ==> well_numbered(final(state)@),
        final(state)@.token_count >= old(state)@.token_count,
        final(state)@.levels == old(state)@.levels,
        final(state)@.contract_info == old(state)@.contract_info,
{
    let ghost before = state@;
    let ghost all = account_views(owners@);
    if !state.authority.authorize(&info.sender) {
        return Err(ContractError::Unauthorized {  });
    }
    let mut counter = state.counter;
    let mut batch = TokenRegistry::new();
    let mut i: usize = 0;
    while i < owners.len()
        invariant
            i <= owners.len(),
            all == account_views(owners@),
            before == old(state)@,
            *state == *old(state),
            info.sender@ == before.minter,
            counter@ == before.token_count + i,
            forall|j: int| 0 <= j < i ==> (#[trigger] all[j]).valid,
            batch@ == minted(before.token_count + 1, level, all.subrange(0, i as int)),
        decreases owners.len() - i,
    {
        let number = match counter.next() {
            Ok(number) => number,
            Err(e) => {
                assert forall|j: int| 0 <= j < all.len() && !(#[trigger] all[j]).valid implies
                    before.token_count + j + 1 > u64::MAX by {}
                return Err(e);
            },
        };
        let owner = &owners[i];
        assert(all[i as int] == owner@);
        if !owner.valid {
            return Err(ContractError::InvalidAddress {  });
        }
        batch.create(decimal_string(number), owner.address.clone(), level);
        i = i + 1;
    }
    assert(all.subrange(0, i as int) =~= all);
    state.registry.append(batch);
    state.counter = counter;
    let num_minted = decimal_string(owners.len() as u64);
    let report = Response::new().add_attribute("action", "lockdrop-nft/execute/mint").add_attribute(
        "minter",
        info.sender.as_str(),
    ).add_attribute("num_minted", num_minted.as_str());
    assert(report@ =~= mint_report(info.sender@, owners.len() as nat));
    proof {
        if well_numbered(before) {
            law_mint_keeps_numbering(before, level, all);
        }
    }
    Ok(report)
}

/// Hands the minting privilege to `new_minter`. The sender must be the
/// minter, and the host must have accepted the new address. A refused
/// rotation changes nothing.
pub fn execute_update_minter(state: &mut State, info: MessageInfo, new_minter: Account) -> (r:
    Result<Response, ContractError>)
    ensures
        update_minter_ensures(*old(state), *final(state), info.sender@, new_minter@, r),
        well_numbered(old(state)@) ==> well_numbered(final(state)@),
        final(state)@.token_count == old(state)@.token_count,
        final(state)@.tokens == old(state)@.tokens,
        final(state)@.levels == old(state)@.levels,
        final(state)@.contract_info == old(state)@.contract_info,
{
    if !state.authority.authorize(&info.sender) {
        return Err(ContractError::Unauthorized {  });
    }
    if !new_minter.valid {
        return Err(ContractError::InvalidAddress {  });
    }
    state.authority.rotate(&info.sender, new_minter.address)
}

/// Answers `msg` as of the block in `env`. Questions about an item's
/// description are answered here; every other question is the token
/// registry's and is handed on as it stands.
pub fn query(state: &State, env: Env, msg: QueryMsg) -> (r: Result<QueryOutcome, ContractError>)
    ensures
        match msg {
            QueryMsg::NftInfo { token_id } => match r {
                Ok(QueryOutcome::NftInfo(answer)) => nft_info_spec(state@, token_id@) == Ok::<
                    NftInfoView,
                    ContractError,
                >(answer@),
                Ok(_) => false,
                Err(e) => nft_info_spec(state@, token_id@) == Err::<NftInfoView, ContractError>(e),
            },
            QueryMsg::AllNftInfo { token_id, include_expired } => match r {
                Ok(QueryOutcome::AllNftInfo(answer)) => all_nft_info_spec(
                    state@,
                    env.block,
                    token_id@,
                    include_expired.unwrap_or(false),
                ) == Ok::<AllNftInfoView, ContractError>(answer@),
                Ok(_) => false,
                Err(e) => all_nft_info_spec(
                    state@,
                    env.block,
                    token_id@,
                    include_expired.unwrap_or(false),
                ) == Err::<AllNftInfoView, ContractError>(e),
            },
            _ => r == Ok::<QueryOutcome, ContractError>(QueryOutcome::Forward(msg)),
        },
{
    match msg {
        QueryMsg::NftInfo { token_id } => {
            match query_nft_info(state, token_id) {
                Ok(answer) => Ok(QueryOutcome::NftInfo(answer)),
                Err(e) => Err(e),
            }
        },
        QueryMsg::AllNftInfo { token_id, include_expired } => {
            let include_expired = match include_expired {
                Some(b) => b,
                None => false,
            };
            match query_all_nft_info(state, env, token_id, include_expired) {
                Ok(answer) => Ok(QueryOutcome::AllNftInfo(answer)),
                Err(e) => Err(e),
            }
        },
        other => Ok(QueryOutcome::Forward(other)),
    }
}

/// What describes the token `token_id`: the metadata record of its level.
/// The token's own URI is always reported as absent.
pub fn query_nft_info(state: &State, token_id: String) -> (r: Result<
    NftInfoResponse,
    ContractError,
>)
    ensures
        match r {
            Ok(answer) => nft_info_spec(state@, token_id@) == Ok::<NftInfoView, ContractError>(
                answer@,
            ),
            Err(e) => nft_info_spec(state@, token_id@) == Err::<NftInfoView, ContractError>(e),
        },
{
    let level = match state.registry.load(&token_id) {
        Ok(info) => info.level,
        Err(e) => {
            return Err(e);
        },
    };
    match state.levels.get(level) {
        Ok(metadata) => Ok(NftInfoResponse { token_uri: None, extension: metadata }),
        Err(e) => Err(e),
    }
}

/// The owner and approvals of `token_id` as of the block in `env`, together
/// with its description. Where the token does not exist, or its level has
/// no record, the whole call fails.
pub fn query_all_nft_info(state: &State, env: Env, token_id: String, include_expired: bool) -> (r:
    Result<AllNftInfoResponse, ContractError>)
    ensures
        match r {
            Ok(answer) => all_nft_info_spec(state@, env.block, token_id@, include_expired) == Ok::<
                AllNftInfoView,
                ContractError,
            >(answer@),
            Err(e) => all_nft_info_spec(state@, env.block, token_id@, include_expired) == Err::<
                AllNftInfoView,
                ContractError,
            >(e),
        },
{
    let access = match state.registry.owner_of(&env.block, &token_id, include_expired) {
        Ok(access) => access,
        Err(e) => {
            return Err(e);
        },
    };
    match query_nft_info(state, token_id) {
        Ok(info) => Ok(AllNftInfoResponse { access, info }),
        Err(e) => Err(e),
    }
}

/// Migrates an instance: there is nothing to do. The state is not even
/// handed in, so nothing can change.
pub fn migrate(env: Env, msg: MigrateMsg) -> (r: Result<Response, ContractError>)
    ensures
        match r {
            Ok(report) => report@ == Seq::<(Seq<char>, Seq<char>)>::empty(),
            Err(_) => false,
        },
{
    Ok(Response::new())
}

} // verus!
