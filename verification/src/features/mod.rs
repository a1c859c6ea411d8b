//! What applications ask the client for.

pub mod contacts;
