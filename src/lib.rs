//! Host-side logic of a sandboxed music-provider extension system: manifest
//! discovery, capability grants, the extension registry, command routing with
//! identifier namespacing, reply correlation and per-plugin socket handles,
//! together with the small stores and records the host application keeps.
use vstd::prelude::*;

pub mod correlation;
pub mod entities;
pub mod manifest;
pub mod oauth;
pub mod placeholders;
pub mod providers;
pub mod registry;
pub mod router;
pub mod sanitize;
pub mod scanner;
pub mod sockets;
pub mod strmap;
pub mod text;
pub mod themes;
pub mod tracing_writer;
pub mod ui_store;
