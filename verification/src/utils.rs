//! Small helpers shared by the backends.
pub mod env;
pub mod error_ext;
