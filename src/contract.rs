use vstd::prelude::*;

use crate::msg::{ConfigResponse, ForwardQuery, HandleMsg, InitMsg, QueryAnswer, QueryMsg, Response};
use crate::state::{load_of, ConfigStore, ContractError, State};

verus! {

/// The configuration once `init` has written address `a`.
pub open spec fn after_init(a: Seq<char>) -> Option<Seq<char>> {
    Some(a)
}

/// The configuration once `SetRef { new_ref: b }` has run on `cfg`: repointed when there
/// was one, untouched otherwise.
pub open spec fn after_set_ref(cfg: Option<Seq<char>>, b: Seq<char>) -> Option<Seq<char>> {
    match cfg {
        Some(_) => Some(b),
        None => None,
    }
}

/// Whether `SetRef` succeeds on `cfg`.
pub open spec fn set_ref_outcome(cfg: Option<Seq<char>>) -> Result<(), ContractError> {
    match cfg {
        Some(_) => Ok(()),
        None => Err(ContractError::NotFound),
    }
}

/// The answer to `GetRefs` on `cfg`.
pub open spec fn refs_of(cfg: Option<Seq<char>>) -> Result<Seq<char>, ContractError> {
    load_of(cfg)
}

/// The downstream request that `GetReferenceData { base, quote }` makes on `cfg`, as
/// (address, base, quote).
pub open spec fn forward_of(cfg: Option<Seq<char>>, base: Seq<char>, quote: Seq<char>) -> Result<
    (Seq<char>, Seq<char>, Seq<char>),
    ContractError,
> {
    match cfg {
        Some(a) => Ok((a, base, quote)),
        None => Err(ContractError::NotFound),
    }
}

impl ForwardQuery {
    /// Whether the request asks for reference data.
    pub open spec fn is_reference_request(&self) -> bool {
        self.msg is GetReferenceData
    }

    /// The request as (address, base, quote).
    pub open spec fn view(&self) -> (Seq<char>, Seq<char>, Seq<char>) {
        match self.msg {
            QueryMsg::GetReferenceData { base, quote } => (self.contract_addr@, base@, quote@),
            QueryMsg::GetRefs {} => (self.contract_addr@, Seq::empty(), Seq::empty()),
        }
    }
}

/// Writes the first configuration, holding `msg.ref_addr`.
pub fn init(store: &mut ConfigStore, msg: InitMsg) -> (r: Result<Response, ContractError>)
    ensures
        final(store)@ == after_init(msg.ref_addr@),
        r matches Ok(resp) && resp.messages@.len() == 0,
{
    let state = State { ref_addr: msg.ref_addr };
    store.save(state);
    Ok(Response::empty())
}

/// Applies a command to the configuration.
pub fn handle(store: &mut ConfigStore, msg: HandleMsg) -> (r: Result<Response, ContractError>)
    ensures
        match msg {
            HandleMsg::SetRef { new_ref } => {
                &&& final(store)@ == after_set_ref(old(store)@, new_ref@)
                &&& match r {
                    Ok(resp) => set_ref_outcome(old(store)@) == Ok::<(), ContractError>(())
                        && resp.messages@.len() == 0,
                    Err(e) => set_ref_outcome(old(store)@) == Err::<(), ContractError>(e),
                }
            },
        },
{
    match msg {
        HandleMsg::SetRef { new_ref } => try_set_ref(store, new_ref),
    }
}

/// Repoints the configuration at `new_ref`: a read-modify-write of the stored record.
pub fn try_set_ref(store: &mut ConfigStore, new_ref: String) -> (r: Result<Response, ContractError>)
    ensures
        final(store)@ == after_set_ref(old(store)@, new_ref@),
        match r {
            Ok(resp) => set_ref_outcome(old(store)@) == Ok::<(), ContractError>(())
                && resp.messages@.len() == 0,
            Err(e) => set_ref_outcome(old(store)@) == Err::<(), ContractError>(e),
        },
{
    match store.load() {
        Ok(state) => {
            let mut state = state;
            state.ref_addr = new_ref;
            store.save(state);
            Ok(Response::empty())
        },
        Err(e) => Err(e),
    }
}

/// Answers a query: `GetRefs` from the store, `GetReferenceData` by naming the one
/// downstream request whose reply is the answer.
pub fn query(store: &ConfigStore, msg: QueryMsg) -> (r: Result<QueryAnswer, ContractError>)
    ensures
        match msg {
            QueryMsg::GetRefs {} => match r {
                Ok(QueryAnswer::Refs(s)) => refs_of(store@) == Ok::<Seq<char>, ContractError>(s@),
                Ok(QueryAnswer::Forward(_)) => false,
                Err(e) => refs_of(store@) == Err::<Seq<char>, ContractError>(e),
            },
            QueryMsg::GetReferenceData { base, quote } => match r {
                Ok(QueryAnswer::Forward(q)) => q.is_reference_request() && forward_of(
                    store@,
                    base@,
                    quote@,
                ) == Ok::<(Seq<char>, Seq<char>, Seq<char>), ContractError>(q@),
                Ok(QueryAnswer::Refs(_)) => false,
                Err(e) => forward_of(store@, base@, quote@) == Err::<
                    (Seq<char>, Seq<char>, Seq<char>),
                    ContractError,
                >(e),
            },
        },
{
    match msg {
        QueryMsg::GetRefs {} => match query_refs(store) {
            Ok(s) => Ok(QueryAnswer::Refs(s)),
            Err(e) => Err(e),
        },
        QueryMsg::GetReferenceData { base, quote } => match query_reference_data(
            store,
            base,
            quote,
        ) {
            Ok(q) => Ok(QueryAnswer::Forward(q)),
            Err(e) => Err(e),
        },
    }
}

/// The stored configuration, as it stands.
pub fn query_refs(store: &ConfigStore) -> (r: Result<ConfigResponse, ContractError>)
    ensures
        match r {
            Ok(s) => refs_of(store@) == Ok::<Seq<char>, ContractError>(s@),
            Err(e) => refs_of(store@) == Err::<Seq<char>, ContractError>(e),
        },
{
    store.load()
}

/// The request for reference data on `base`/`quote`, addressed to the stored downstream
/// provider and carrying the pair unchanged.
pub fn query_reference_data(store: &ConfigStore, base: String, quote: String) -> (r: Result<
    ForwardQuery,
    ContractError,
>)
    ensures
        match r {
            Ok(q) => q.is_reference_request() && forward_of(store@, base@, quote@) == Ok::<
                (Seq<char>, Seq<char>, Seq<char>),
                ContractError,
            >(q@),
            Err(e) => forward_of(store@, base@, quote@) == Err::<
                (Seq<char>, Seq<char>, Seq<char>),
                ContractError,
            >(e),
        },
{
    match store.load() {
        Ok(state) => Ok(
            ForwardQuery {
                contract_addr: state.ref_addr,
                msg: QueryMsg::GetReferenceData { base, quote },
            },
        ),
        Err(e) => Err(e),
    }
}

} // verus!
