//! Servers of the Model Context Protocol that configuration files name.
use vstd::prelude::*;

pub mod config;
pub mod effect_laws;
pub mod list_laws;
pub mod manager;
pub mod registry;
pub mod registry_laws;

verus! {

} // verus!
