//! What takes care of stanzas.

pub mod message;
