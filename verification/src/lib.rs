//! Server-rendered web UI of a Hearth instance: page rendering, form rules and request flows.

pub mod audit;
pub mod cookies;
pub mod display;
pub mod flows;
pub mod forms;
pub mod gate;
pub mod html;
pub mod json;
pub mod laws;
pub mod listing;
pub mod model;
pub mod reply;
pub mod sorting;
pub mod text;
pub mod toast;
pub mod views;
