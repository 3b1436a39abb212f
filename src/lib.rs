//! A proxy that stores the address of a downstream reference-data provider, lets it be
//! repointed, and names the one downstream request that answers each reference-data query.

pub mod contract;
pub mod laws;
pub mod msg;
pub mod state;
