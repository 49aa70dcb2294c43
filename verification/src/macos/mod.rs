//! The macOS platform layer, as far as it decides anything.

pub mod app;
pub mod event_loop;
pub mod files;
pub mod hook;
pub mod ime;
pub mod keyboard;
pub mod laws;
pub mod login_item;
pub mod output;
pub mod program;
pub mod resources;
pub mod scanmap;
pub mod setup;
pub mod sources;
pub mod tray;
pub mod typing;
pub mod vk;
