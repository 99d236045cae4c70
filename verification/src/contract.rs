//! The three entry points of the contract. Each is a single dispatch on its
//! message and builds a fixed response, stated exactly in its contract.

use vstd::prelude::*;
use vstd::string::StringExecFns;
use crate::error::SwapperError;
use crate::msg::{ExecuteMsg, InstantiateMsg, QueryMsg, SifchainMsg, SifchainQuery, SifchainResponse};
use crate::numeral::{decimal, u32_to_decimal};
use crate::response::{CosmosMsg, Empty, Response};

verus! {

/// What `execute` promises of the swap message it emits for `amount`: a swap
/// of "rowan" for "ceth", of the amount written in decimal, with a minimum
/// received amount of "0".
pub open spec fn swap_msg_spec(amount: u32, m: SifchainMsg) -> bool {
    &&& m matches SifchainMsg::Swap { sent_asset, received_asset, sent_amount, min_received_amount }
    &&& sent_asset@ == "rowan"@
    &&& received_asset@ == "ceth"@
    &&& sent_amount@ == decimal(amount as nat)
    &&& min_received_amount@ == "0"@
}

/// What `execute` returns for `msg`: always success, with one
/// "action: swap" attribute and the one custom swap message.
pub open spec fn execute_spec(msg: ExecuteMsg, r: Result<Response<SifchainMsg>, SwapperError>) -> bool {
    match msg {
        ExecuteMsg::Swap { amount } => {
            &&& r matches Ok(resp)
            &&& resp.attributes@.len() == 1
            &&& resp.attributes@[0].key@ == "action"@
            &&& resp.attributes@[0].value@ == "swap"@
            &&& resp.messages@.len() == 1
            &&& resp.messages@[0] matches CosmosMsg::Custom(m) && swap_msg_spec(amount, m)
        },
    }
}

/// Instantiation succeeds on every message and does nothing: the response is
/// empty.
pub fn instantiate(_msg: InstantiateMsg) -> (r: Result<Response<Empty>, SwapperError>)
    ensures
        r matches Ok(resp) && resp.attributes@.len() == 0 && resp.messages@.len() == 0,
{
    Ok(Response::default())
}

/// Executes a message: the one message there is, a swap, always succeeds and
/// answers with the fixed swap of "rowan" for "ceth" described by
/// `execute_spec`.
pub fn execute(msg: ExecuteMsg) -> (r: Result<Response<SifchainMsg>, SwapperError>)
    ensures
        execute_spec(msg, r),
{
    match msg {
        ExecuteMsg::Swap { amount } => {
            let swap_msg = SifchainMsg::Swap {
                sent_asset: String::from_str("rowan"),
                received_asset: String::from_str("ceth"),
                sent_amount: u32_to_decimal(amount),
                min_received_amount: String::from_str("0"),
            };
            Ok(Response::new().add_attribute("action", "swap").add_message(CosmosMsg::from(swap_msg)))
        },
    }
}

/// Query dispatch: every query (there is only the pool query) is answered by
/// putting the one custom query, a ping, to the host chain. The caller
/// performs that query and hands its reply to `query_pool`.
pub fn query(msg: QueryMsg) -> (q: SifchainQuery)
    ensures
        q is Ping,
{
    match msg {
        QueryMsg::Pool { external_asset: _ } => SifchainQuery::Ping {},
    }
}

/// The pool query forwards the host chain's reply unchanged, whatever asset
/// was asked about.
pub fn query_pool(response: SifchainResponse, _external_asset: String) -> (r: SifchainResponse)
    ensures
        r == response,
{
    response
}

} // verus!
