//! Character trait records.

use vstd::prelude::*;

verus! {

/// A character trait record.
#[derive(Clone, Debug)]
pub struct Trait {
    /// Identifier of the trait.
    pub id: Option<String>,
    /// Trait names are not necessarily self-describing, so they should be
    /// displayed together with their group.
    pub name: Option<String>,
    pub aliases: Option<Vec<String>>,
    /// May contain formatting codes.
    pub description: Option<String>,
    pub searchable: Option<bool>,
    pub applicable: Option<bool>,
    /// Identifier of the trait's group.
    pub group_id: Option<String>,
    pub group_name: Option<String>,
    /// Number of characters the trait applies to, child traits included.
    pub char_count: Option<u32>,
}

} // verus!
