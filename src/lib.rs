//! Client library for a remote redirect service: configuration decoding,
//! request construction, response interpretation and output rendering.

pub mod client;
pub mod command;
pub mod config;
pub mod render;
