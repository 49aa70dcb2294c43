//! Windows: which way the IME is switched, and what window events tell of it.

pub mod ime_controller;
pub mod switching;
pub mod win_event_obs;
