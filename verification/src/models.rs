//! The identity a request is made on behalf of.
pub mod context;

pub use context::Context;
use vstd::prelude::*;

verus! {

/// A user of the gateway.
#[derive(Clone, Debug)]
pub struct User {
    pub id: String,
    pub username: String,
}

} // verus!
