//! Thumb-shift (NICOLA) keyboard remapper.

pub mod config;
pub mod diagnostics;
pub mod engine;
pub mod kana_table;
pub mod layouts;
pub mod macos;
pub mod ngram;
pub mod scanmap;
pub mod settings;
pub mod text;
pub mod timing;
pub mod types;
pub mod windows;
pub mod yab;
