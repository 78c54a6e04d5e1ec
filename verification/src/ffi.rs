//! What the embedder hands to the device when it creates one.

pub mod chip_config;
