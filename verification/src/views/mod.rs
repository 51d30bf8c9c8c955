//! The pages and fragments.

pub mod account;
pub mod apps;
pub mod events;
pub mod icons;
pub mod invite;
pub mod login;
pub mod members;
pub mod pending;
pub mod scripts;
pub mod security;
pub mod settings;
pub mod shell;
