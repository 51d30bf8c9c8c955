//! What holds of the library as a whole, operation by operation: what the store is asked, what a
//! reply says and shows, and how two requests relate.

pub mod account;
pub mod apps;
pub mod directory;
pub mod events;
pub mod invitation;
pub mod markup;
pub mod outages;
pub mod outcome;
pub mod pages;
pub mod pending;
pub mod recovery;
pub mod refusals;
pub mod replies;
pub mod settings;
pub mod sign_in;
pub mod texts;
pub mod toasts;
pub mod wording;
