//! On-disk layout and resolution engine for a multi-version toolchain
//! manager: canonical, collision-free paths for every managed artifact,
//! derived from a single root directory, together with the resolver that
//! locates the shared shim executable at dispatch time.

pub mod error;
pub mod layout;
pub mod platform;
pub mod resolver;
pub mod strings;
pub mod style;
