//! What the handlers decide, request by request.

pub mod account;
pub mod apps;
pub mod devices;
pub mod events;
pub mod factors;
pub mod invitation;
pub mod invites;
pub mod login;
pub mod members;
pub mod pending;
pub mod reauth;
pub mod recovery;
pub mod settings;
pub mod step;
