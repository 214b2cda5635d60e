//! What the Slipstream terminal decides: the state machines, wire formats, transcripts and rules
//! behind its agent servers, its panels and its settings.
use vstd::prelude::*;

pub mod agent_action;
pub mod cloud_sharing_page;
pub mod codex_app_server;
pub mod conversation;
pub mod conversation_laws;
pub mod conversation_list;
pub mod cursor_trail;
pub mod decode;
pub mod docker_containers;
pub mod docker_laws;
pub mod docker_panel;
pub mod document_laws;
pub mod json;
pub mod links;
pub mod local_command_autocomplete;
pub mod local_multi_agent;
pub mod login_slide;
pub mod mcp;
pub mod members;
pub mod message_laws;
pub mod modeled;
pub mod opencode_server;
pub mod ordered;
pub mod panel_laws;
pub mod path;
pub mod path_laws;
pub mod reconnect;
pub mod requested_command;
pub mod server_url;
pub mod shape;
pub mod shared_session;
pub mod shell;
pub mod shell_laws;
pub mod ssh_laws;
pub mod ssh_transport;
pub mod text;
pub mod text_laws;
pub mod text_map;
pub mod time;
pub mod warpify;

verus! {

} // verus!
