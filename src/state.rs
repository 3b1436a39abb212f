use vstd::prelude::*;

verus! {

/// The persisted configuration: the address of the downstream provider.
#[derive(Debug, PartialEq, Eq)]
pub struct State {
    pub ref_addr: String,
}

impl State {
    pub open spec fn view(&self) -> Seq<char> {
        self.ref_addr@
    }

    /// A copy of this record, with the same address.
    pub fn duplicate(&self) -> (r: State)
        ensures
            r@ == self@,
    {
        State { ref_addr: self.ref_addr.clone() }
    }
}

/// Failures that the configuration logic itself produces.
#[derive(Clone, Copy, Debug, PartialEq, Eq, Structural)]
pub enum ContractError {
    /// The configuration was read before it was ever written.
    NotFound,
}

/// The outcome of reading a slot whose contents are `cfg`.
pub open spec fn load_of(cfg: Option<Seq<char>>) -> Result<Seq<char>, ContractError> {
    match cfg {
        Some(a) => Ok(a),
        None => Err(ContractError::NotFound),
    }
}

/// The single-slot configuration store: empty until the first save.
#[derive(Debug)]
pub struct ConfigStore {
    pub config: Option<State>,
}

impl ConfigStore {
    /// The address held, or `None` while nothing was saved.
    pub open spec fn view(&self) -> Option<Seq<char>> {
        match self.config {
            Some(s) => Some(s@),
            None => None,
        }
    }

    /// A store of a deployment that has not been initialized.
    pub fn new() -> (r: ConfigStore)
        ensures
            r@ == None::<Seq<char>>,
    {
        ConfigStore { config: None }
    }

    /// Reads the current record.
    pub fn load(&self) -> (r: Result<State, ContractError>)
        ensures
            match r {
                Ok(s) => load_of(self@) == Ok::<Seq<char>, ContractError>(s@),
                Err(e) => load_of(self@) == Err::<Seq<char>, ContractError>(e),
            },
    {
        match &self.config {
            Some(s) => Ok(s.duplicate()),
            None => Err(ContractError::NotFound),
        }
    }

    /// Writes `state` over whatever the slot held.
    pub fn save(&mut self, state: State)
        ensures
            final(self)@ == Some(state@),
    {
        self.config = Some(state);
    }
}

} // verus!
