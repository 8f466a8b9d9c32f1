use cw721::ContractInfoResponse;
use cw721_metadata_onchain::{Metadata, Trait};

use lockdrop_nft::contract::{execute, instantiate, query};
use lockdrop_nft::error::ContractError;
use lockdrop_nft::msg::{
    Account, AllNftInfoResponse, BlockInfo, Env, ExecuteMsg, ExecuteOutcome, InstantiateMsg,
    MessageInfo, NftInfoResponse, OwnerOfResponse, QueryMsg, QueryOutcome,
};
use lockdrop_nft::state::State;

fn mock_env() -> Env {
    Env { block: BlockInfo { height: 12_345, time: 1_571_797_419_879_305_533 } }
}

fn mock_info(sender: &str) -> MessageInfo {
    MessageInfo { sender: String::from(sender) }
}

fn accepted(address: &str) -> Account {
    Account::accepted(String::from(address))
}

fn level_metadata(level: &str, description: &str) -> Metadata {
    Metadata {
        name: Some(format!("Astroport Lockdrop NFT - Lv. {}", level)),
        description: Some(String::from(description)),
        external_url: Some(String::from("https://astroport.fi")),
        image: Some(format!("ipfs://hash_{}", level)),
        attributes: Some(vec![
            Trait {
                display_type: None,
                trait_type: String::from("protocol"),
                value: String::from("astroport"),
            },
            Trait {
                display_type: None,
                trait_type: String::from("level"),
                value: String::from(level),
            },
        ]),
        image_data: None,
        background_color: None,
        animation_url: None,
        youtube_url: None,
    }
}

fn create_init_msg() -> InstantiateMsg {
    let contract_info = ContractInfoResponse {
        name: String::from("Astroport Lockdrop NFT"),
        symbol: String::from("n/a"),
    };

    let metadata_lv_1 =
        level_metadata("1", "You have participated in any phase of the Astroport lockdrop");
    let metadata_lv_2 =
        level_metadata("2", "You have participated in both phases of the Astroport lockdrop");
    let metadata_lv_3 =
        level_metadata("3", "You have locked for maximum time in Astroport lockdrop phase 1");

    InstantiateMsg {
        contract_info,
        minter: accepted("larry"),
        metadatas: vec![metadata_lv_1, metadata_lv_2, metadata_lv_3],
    }
}

fn create_mint_msgs() -> Vec<ExecuteMsg> {
    vec![
        ExecuteMsg::Mint {
            level: 1u8,
            owners: vec![accepted("alice"), accepted("bob"), accepted("larry")],
        },
        ExecuteMsg::Mint { level: 2u8, owners: vec![accepted("karen")] },
        ExecuteMsg::Mint { level: 3u8, owners: vec![accepted("larry"), accepted("chad")] },
    ]
}

fn setup_test() -> State {
    let (state, _) = instantiate(mock_env(), mock_info("larry"), create_init_msg()).unwrap();
    state
}

fn nft_info(state: &State, token_id: &str) -> NftInfoResponse {
    match query(state, mock_env(), QueryMsg::NftInfo { token_id: String::from(token_id) }).unwrap()
    {
        QueryOutcome::NftInfo(answer) => answer,
        other => panic!("unexpected outcome: {:?}", other),
    }
}

#[test]
fn proper_instantiation() {
    let state = setup_test();

    // the question itself belongs to the registry
    let res = query(&state, mock_env(), QueryMsg::ContractInfo {}).unwrap();
    assert_eq!(res, QueryOutcome::Forward(QueryMsg::ContractInfo {}));

    assert_eq!(state.contract_info, create_init_msg().contract_info);
    assert_eq!(state.authority.account, "larry");
    assert_eq!(state.counter.value, 0u64);
    assert_eq!(state.registry.num_tokens(), 0);
    assert_eq!(state.levels.records, create_init_msg().metadatas);
}

#[test]
fn minting() {
    let mut state = setup_test();

    let msgs = create_mint_msgs();

    // Non-minter cannot mint
    let err = execute(&mut state, mock_env(), mock_info("jake"), msgs[0].clone()).unwrap_err();
    assert_eq!(err, ContractError::Unauthorized {});
    assert_eq!(state.counter.value, 0u64);
    assert_eq!(state.registry.num_tokens(), 0);

    // Minter can mint
    for msg in msgs {
        let outcome = execute(&mut state, mock_env(), mock_info("larry"), msg).unwrap();
        assert!(matches!(outcome, ExecuteOutcome::Done(_)));
    }

    let res = query(&state, mock_env(), QueryMsg::NumTokens {}).unwrap();
    assert_eq!(res, QueryOutcome::Forward(QueryMsg::NumTokens {}));
    assert_eq!(state.counter.value, 6u64);
    assert_eq!(state.registry.num_tokens(), 6);

    let all_tokens = QueryMsg::AllTokens { start_after: None, limit: None };
    let res = query(&state, mock_env(), all_tokens.clone()).unwrap();
    assert_eq!(res, QueryOutcome::Forward(all_tokens));
    assert_eq!(state.registry.token_ids(), vec!["1", "2", "3", "4", "5", "6"]);

    let tokens =
        QueryMsg::Tokens { owner: String::from("larry"), start_after: None, limit: None };
    let res = query(&state, mock_env(), tokens.clone()).unwrap();
    assert_eq!(res, QueryOutcome::Forward(tokens));
    assert_eq!(state.registry.tokens_of(&String::from("larry")), vec!["3", "5"]);
}

#[test]
fn querying_nft_info() {
    let mut state = setup_test();

    let msgs = create_mint_msgs();
    for msg in msgs {
        execute(&mut state, mock_env(), mock_info("larry"), msg).unwrap();
    }

    let metadatas = create_init_msg().metadatas;

    let res = nft_info(&state, "1");
    assert_eq!(res, NftInfoResponse { token_uri: None, extension: metadatas[0].clone() });

    let res = nft_info(&state, "4");
    assert_eq!(res, NftInfoResponse { token_uri: None, extension: metadatas[1].clone() });

    let res = query(
        &state,
        mock_env(),
        QueryMsg::AllNftInfo { token_id: String::from("5"), include_expired: None },
    )
    .unwrap();
    assert_eq!(
        res,
        QueryOutcome::AllNftInfo(AllNftInfoResponse {
            access: OwnerOfResponse { owner: String::from("larry"), approvals: vec![] },
            info: NftInfoResponse { token_uri: None, extension: metadatas[2].clone() }
        })
    );
}
