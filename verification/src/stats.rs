//! Database-wide record counts.

use vstd::prelude::*;

verus! {

/// The number of entries of each kind stored in the database.
#[derive(Clone, Copy, PartialEq, Eq, Structural, Debug)]
pub struct VndbStats {
    /// Characters.
    pub chars: u32,
    pub producers: u32,
    pub releases: u32,
    pub staff: u32,
    pub tags: u32,
    pub traits: u32,
    /// Visual novels.
    pub vn: u32,
}

} // verus!
