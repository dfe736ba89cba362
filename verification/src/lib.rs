//! An S3-compatible gateway whose bucket catalogue lives in a PostgREST database.
//!
//! The request handling decisions (who may list, which error answers a failed
//! lookup, how database rows become buckets, how object keys map to store paths)
//! are verified here; the network plumbing lives in the companion application.
pub mod error;
pub mod utils;
pub mod models;
pub mod auth;
pub mod rest_client;
pub mod dto;
pub mod db;
pub mod backend;
pub mod s3_backends;
pub mod controller;
pub mod object_store;
pub mod server;
