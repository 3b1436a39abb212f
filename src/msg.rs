use vstd::prelude::*;

use crate::state::State;

verus! {

/// The one-time setup message: the first downstream address.
#[derive(Clone, Debug, PartialEq, Eq)]
pub struct InitMsg {
    pub ref_addr: String,
}

/// The commands that change the configuration.
#[derive(Clone, Debug, PartialEq, Eq)]
pub enum HandleMsg {
    SetRef { new_ref: String },
}

/// The read-only requests; `GetReferenceData` is also what is sent downstream.
#[derive(Clone, Debug, PartialEq, Eq)]
pub enum QueryMsg {
    GetRefs {},
    GetReferenceData { base: String, quote: String },
}

/// What the downstream provider answers for a base/quote pair, passed on as is.
#[derive(Clone, Copy, Debug, PartialEq, Eq, Structural)]
pub struct ReferenceData {
    pub rate: u128,
    pub last_updated_base: u128,
    pub last_updated_quote: u128,
}

/// The answer to `GetRefs`: the stored configuration.
pub type ConfigResponse = State;

/// What a command returns on success: the commands it asks the host to pass on to
/// other deployments.
#[derive(Debug)]
pub struct Response {
    pub messages: Vec<HandleMsg>,
}

impl Response {
    /// A response that sends nothing.
    pub fn empty() -> (r: Response)
        ensures
            r.messages@.len() == 0,
    {
        Response { messages: Vec::new() }
    }
}

/// A read-only request addressed to the downstream provider.
#[derive(Clone, Debug, PartialEq, Eq)]
pub struct ForwardQuery {
    pub contract_addr: String,
    pub msg: QueryMsg,
}

/// How a query is answered: from the store directly, or by one downstream round trip
/// whose reply is the answer unchanged.
#[derive(Debug)]
pub enum QueryAnswer {
    Refs(ConfigResponse),
    Forward(ForwardQuery),
}

} // verus!
