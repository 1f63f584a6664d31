//! Authentication metadata returned for an API token.

use vstd::prelude::*;

verus! {

/// Information about the presented API token.
#[derive(Clone, Debug)]
pub struct AuthInfo {
    pub id: String,
    pub username: String,
    /// The token holder's list read and write permissions.
    pub permissions: Vec<ListPermission>,
}

/// A list permission attached to an API token.
#[derive(Clone, Copy, PartialEq, Eq, Structural, Debug)]
pub enum ListPermission {
    ListRead,
    ListWrite,
}

} // verus!
