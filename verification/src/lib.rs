//! The host bridge of a Codex build that runs inside a WebAssembly host.
pub mod json;
pub mod fields;
pub mod schema;
pub mod extension;
pub mod routing;
pub mod kernel;
pub mod bridge;
pub mod laws;
pub mod spawn;
pub mod text;
pub mod hooks;
pub mod terminal;
