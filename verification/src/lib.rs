//! Heliobond: a verified model of a green-bond project registry and the
//! investment vault that funds its projects.
use vstd::prelude::*;

pub mod common;
pub mod digest;
pub mod fees;
pub mod multisig;
pub mod rate;
pub mod registry;
pub mod registry_laws;
pub mod registry_types;
pub mod vault;
pub mod vault_laws;
pub mod vault_types;
pub mod wormhole;

verus! {

} // verus!
