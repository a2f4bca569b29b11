//! Domain logic of the design-QA backend: validated identifiers, the
//! lifecycle of a QA run, and the pure parts of the configuration.

pub mod bindings;
pub mod configuration;
pub mod domain;
pub mod routes;
pub mod text;
pub mod timestamp;
