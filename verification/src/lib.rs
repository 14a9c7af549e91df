//! Local-installation control plane of the orbit package manager: the
//! per-invocation execution context and the self-update pipeline.

pub mod checksums;
pub mod config;
pub mod context;
pub mod digest;
pub mod orbit;
pub mod release;
pub mod sha256;
pub mod text;
pub mod upgrade;
pub mod version;
