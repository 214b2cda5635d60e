//! The integration of OpenCode: reading what an OpenCode server sends, and the state behind the
//! panel that shows its sessions.
use vstd::prelude::*;

pub mod address;
pub mod catalog;
pub mod conversations;
pub mod effect;
pub mod flow_laws;
pub mod forms;
pub mod history;
pub mod history_laws;
pub mod laws;
pub mod list_laws;
pub mod machine;
pub mod message;
pub mod model;
pub mod pending;
pub mod provider;
pub mod types;
pub mod wire;
pub mod wire_laws;

verus! {

} // verus!
