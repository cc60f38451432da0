//! Managed-directory client: enrollment continuity, directory polling, managed
//! updates, out-of-session chat and local input priority.

pub mod api_error;
pub mod api_types;
pub mod crypto;
pub mod debug_log;
pub mod directory_state;
pub mod enrollment;
pub mod identity;
pub mod json;
pub mod local_input_guard;
pub mod managed_chat;
pub mod managed_chat_store;
pub mod managed_update;
pub mod ordering;
pub mod persisted_auth;
pub mod requests;
pub mod responses;
pub mod schedule;
pub mod sessions;
pub mod settings;
pub mod state_file;
pub mod text;
pub mod web;
pub mod worker;
pub mod worker_laws;
