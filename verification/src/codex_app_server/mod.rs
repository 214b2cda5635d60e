//! Conversations with a Codex app server.
use vstd::prelude::*;

pub mod address;
pub mod approval;
pub mod approval_laws;
pub mod capture;
pub mod catalog;
pub mod conversations;
pub mod effect;
pub mod fields;
pub mod flow_laws;
pub mod history;
pub mod history_laws;
pub mod laws;
pub mod machine;
pub mod model;
pub mod panel_laws;
pub mod prompt;
pub mod request;
pub mod request_laws;
pub mod role_laws;
pub mod rpc;
pub mod transcript;
pub mod transcript_laws;
pub mod turn;
pub mod types;
pub mod wire;
pub mod wire_laws;

verus! {

} // verus!
