//! The shape of what an entry point hands back to the host: attributes to
//! log and messages for the chain to carry out.

use vstd::prelude::*;
use vstd::string::StringExecFns;
use crate::msg::SifchainMsg;

verus! {

/// A key/value attribute of a response, logged by the host.
#[derive(Clone, Debug, PartialEq)]
pub struct Attribute {
    pub key: String,
    pub value: String,
}

/// A message with no fields: the message type of entry points that emit no
/// custom message.
#[derive(Clone, Debug, PartialEq)]
pub struct Empty {}

/// A message for the host chain. Only custom messages occur here.
#[derive(Clone, Debug, PartialEq)]
pub enum CosmosMsg<M> {
    Custom(M),
}

impl From<SifchainMsg> for CosmosMsg<SifchainMsg> {
    fn from(original: SifchainMsg) -> (r: Self) {
        CosmosMsg::Custom(original)
    }
}

impl vstd::std_specs::convert::FromSpecImpl<SifchainMsg> for CosmosMsg<SifchainMsg> {
    open spec fn obeys_from_spec() -> bool {
        true
    }

    open spec fn from_spec(original: SifchainMsg) -> Self {
        CosmosMsg::Custom(original)
    }
}

/// What an entry point returns to the host.
#[derive(Clone, Debug, PartialEq)]
pub struct Response<M> {
    pub attributes: Vec<Attribute>,
    pub messages: Vec<CosmosMsg<M>>,
}

impl<M> Response<M> {
    /// An empty response.
    pub fn new() -> (r: Response<M>)
        ensures
            r.attributes@.len() == 0,
            r.messages@.len() == 0,
    {
        Response { attributes: Vec::new(), messages: Vec::new() }
    }

    /// Appends one attribute; everything already there is kept.
    pub fn add_attribute(self, key: &str, value: &str) -> (r: Response<M>)
        ensures
            r.attributes@.len() == self.attributes@.len() + 1,
            forall|i: int|
                0 <= i < self.attributes@.len() ==> r.attributes@[i] == self.attributes@[i],
            r.attributes@.last().key@ == key@,
            r.attributes@.last().value@ == value@,
            r.messages@ == self.messages@,
    {
        let Response { mut attributes, messages } = self;
        attributes.push(Attribute { key: String::from_str(key), value: String::from_str(value) });
        Response { attributes, messages }
    }

    /// Appends one message; everything already there is kept.
    pub fn add_message(self, msg: CosmosMsg<M>) -> (r: Response<M>)
        ensures
            r.messages@ == self.messages@.push(msg),
            r.attributes@ == self.attributes@,
    {
        let Response { attributes, mut messages } = self;
        messages.push(msg);
        Response { attributes, messages }
    }
}

impl<M> Default for Response<M> {
    /// The default response is the empty one.
    fn default() -> (r: Response<M>)
        ensures
            r.attributes@.len() == 0,
            r.messages@.len() == 0,
    {
        Response::new()
    }
}

} // verus!
