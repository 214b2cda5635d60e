//! The local multi-agent service: its configuration, how it is started, and the state of the
//! manager that keeps it running.
use vstd::prelude::*;

pub mod config;
pub mod config_laws;
pub mod launch;
pub mod manager;
pub mod manager_laws;
pub mod node;
pub mod service;
pub mod service_laws;
pub mod start;
pub mod stored;

verus! {

} // verus!
