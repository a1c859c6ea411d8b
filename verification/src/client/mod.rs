//! The client: its connection, its stanzas, its state.

pub mod account;
pub mod app_state;
pub mod diagnostics;
pub mod error;
pub mod failure;
pub mod filter;
pub mod inbound;
pub mod keys;
pub mod link;
pub mod login;
pub mod reader;
pub mod stanza;
pub mod state;
pub mod sync;
