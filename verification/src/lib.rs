//! Project manifests for the coldbrew package manager: the typed model,
//! its TOML form, and the decisions around creating and storing one.

pub mod codec;
pub mod document;
pub mod error;
pub mod manifest;
pub mod scaffold;
pub mod store;
