//! What a backend is told about the request it serves.
use super::User;
use vstd::prelude::*;

verus! {

/// The request context handed to a backend.
#[derive(Clone, Debug)]
pub struct Context {
    pub user: Option<User>,
}

} // verus!
