use swapper::contract::{execute, instantiate, query, query_pool};
use swapper::msg::{
    ExecuteMsg, InstantiateMsg, QueryMsg, SifchainMsg, SifchainQuery, SifchainResponse,
};
use swapper::response::{Attribute, CosmosMsg, Response};

#[test]
fn instantiate_returns_empty_response() {
    let r = instantiate(InstantiateMsg {}).unwrap();
    assert!(r.attributes.is_empty());
    assert!(r.messages.is_empty());
}

#[test]
fn execute_swap_builds_fixed_swap_message() {
    let r = execute(ExecuteMsg::Swap { amount: 42 }).unwrap();
    let expected = Response {
        attributes: vec![Attribute { key: "action".to_string(), value: "swap".to_string() }],
        messages: vec![CosmosMsg::Custom(SifchainMsg::Swap {
            sent_asset: "rowan".to_string(),
            received_asset: "ceth".to_string(),
            sent_amount: "42".to_string(),
            min_received_amount: "0".to_string(),
        })],
    };
    assert_eq!(r, expected);
}

#[test]
fn execute_swap_of_zero() {
    let r = execute(ExecuteMsg::Swap { amount: 0 }).unwrap();
    assert_eq!(r.messages.len(), 1);
    let CosmosMsg::Custom(SifchainMsg::Swap { sent_amount, min_received_amount, .. }) =
        r.messages.into_iter().next().unwrap();
    assert_eq!(sent_amount, "0");
    assert_eq!(min_received_amount, "0");
}

#[test]
fn execute_swap_of_largest_amount() {
    let r = execute(ExecuteMsg::Swap { amount: u32::MAX }).unwrap();
    let CosmosMsg::Custom(SifchainMsg::Swap { sent_amount, .. }) =
        r.messages.into_iter().next().unwrap();
    assert_eq!(sent_amount, "4294967295");
}

#[test]
fn query_pool_issues_a_ping() {
    let q = query(QueryMsg::Pool { external_asset: "ceth".to_string() });
    assert_eq!(q, SifchainQuery::Ping {});
}

#[test]
fn query_pool_forwards_the_reply() {
    let reply = SifchainResponse { msg: "pong".to_string() };
    let r = query_pool(reply.clone(), "ceth".to_string());
    assert_eq!(r, reply);
}

#[test]
fn swap_message_converts_to_a_custom_message() {
    let m = SifchainMsg::Swap {
        sent_asset: "rowan".to_string(),
        received_asset: "ceth".to_string(),
        sent_amount: "1".to_string(),
        min_received_amount: "0".to_string(),
    };
    let converted: CosmosMsg<SifchainMsg> = CosmosMsg::from(m.clone());
    assert_eq!(converted, CosmosMsg::Custom(m));
}
