//! Client core for a local text-generation service that turns security
//! requests into shell commands: configuration, prompt construction,
//! response sanitizing, stream decoding and model-registry decisions.

pub mod client;
pub mod config;
pub mod error;
pub mod invoke;
pub mod models;
pub mod prompt;
pub mod registry;
pub mod sanitize;
pub mod session;
pub mod stream;
pub mod text;
pub mod wire;
