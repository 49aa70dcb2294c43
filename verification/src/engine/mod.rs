//! The engine: simultaneous-stroke detection and the decisions around it.

pub mod decision;
pub mod engine;
pub mod flow;
pub mod fsm_adapter;
pub mod fsm_types;
pub mod input_tracker;
pub mod key_lifecycle;
pub mod laws;
pub mod nicola_fsm;
pub mod output_history;
pub mod special_keys;
pub mod strokes;
pub mod waiting;
