//! What stands where in the pages: each value between the texts that surround it.

pub mod account;
pub mod apps;
pub mod events;
pub mod invite;
pub mod login;
pub mod members;
pub mod pending;
pub mod security;
pub mod settings;
pub mod shell;
