//! The message shapes of the contract: what instantiates it, what it
//! executes, what it can be asked, and what it says to the host chain.

use vstd::prelude::*;

verus! {

/// The message that instantiates the contract. It carries nothing.
#[derive(Clone, Debug, PartialEq)]
pub struct InstantiateMsg {}

/// The messages the contract executes.
#[derive(Clone, Debug, PartialEq)]
pub enum ExecuteMsg {
    Swap { amount: u32 },
}

/// The custom messages the contract hands to the host chain.
#[derive(Clone, Debug, PartialEq)]
pub enum SifchainMsg {
    Swap {
        sent_asset: String,
        received_asset: String,
        sent_amount: String,
        min_received_amount: String,
    },
}

/// The queries the contract answers.
#[derive(Clone, Debug, PartialEq)]
pub enum QueryMsg {
    Pool { external_asset: String },
}

/// The custom queries the contract puts to the host chain.
#[derive(Clone, Debug, PartialEq)]
pub enum SifchainQuery {
    Ping {},
}

/// The host chain's reply to a custom query.
#[derive(Clone, Debug, PartialEq)]
pub struct SifchainResponse {
    pub msg: String,
}

} // verus!
