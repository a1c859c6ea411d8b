//! Inbound messages: from the stanza to the event.

pub mod classify;
pub mod group;
pub mod info;
pub mod plaintext;
pub mod process;
pub mod protocol;
pub mod retry;
pub mod sender_key;
pub mod session;
