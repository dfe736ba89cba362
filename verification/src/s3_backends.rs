//! Backends that answer S3 requests directly.
pub mod postgrest;
