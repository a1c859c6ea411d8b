//! The rules of a WhatsApp client.
//!
//! The library holds what a client decides: how addresses and stanzas are read, which messages
//! are decrypted, asked for again or given up, when a connection is made anew, what a login
//! leads to, how the shared state of an account is fetched. It does no input or output of its
//! own. Where the outside world is needed in the middle of a decision, the decision is a state
//! machine: it says what to do next, and is told what came of it.

pub mod backoff;
pub mod client;
pub mod features;
pub mod flush_scope;
pub mod frames;
pub mod handlers;
pub mod jid;
pub mod message;
pub mod node;
pub mod text;
pub mod text_map;
pub mod types;
pub mod wire;
