//! Decisions behind creator-granted homeserver authority on a Lock Server.

pub mod capability;
pub mod complete_creator_connect_flow;
pub mod connect_flow;
pub mod creator_authority;
pub mod creator_connect_flows;
pub mod debug_text;
pub mod error;
pub mod frontend_session;
pub mod get_creator_authority_status;
pub mod grant_connect_flow;
pub mod grant_pop_keys;
pub mod grant_state;
pub mod json;
pub mod keys;
pub mod legacy_creator_authority;
pub mod start_creator_connect_flow;
pub mod text;
pub mod timestamp;
