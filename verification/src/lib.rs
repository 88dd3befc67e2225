//! Safe, verified core of an OpenCC-style Chinese text conversion wrapper.
//!
//! The native conversion engine itself is an opaque external resource; this
//! crate holds everything around it that can be reasoned about: the preset
//! catalog and its dictionary dependencies, the lifecycle rules of an engine
//! handle, the byte accounting of buffered conversion, and the idempotent
//! materialization of bundled dictionary assets onto a target directory.

pub mod asset;
pub mod config;
pub mod engine;
pub mod error;
pub mod materialize;

pub use asset::AssetName;
pub use asset::AssetStore;
pub use config::DefaultConfig;
pub use error::OpenCCError;
