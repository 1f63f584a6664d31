//! Tag records.

use vstd::prelude::*;

verus! {

/// A tag record.
#[derive(Clone, Debug)]
pub struct Tag {
    /// Identifier of the tag.
    pub id: Option<String>,
    pub name: Option<String>,
    pub aliases: Option<Vec<String>>,
    /// May contain formatting codes.
    pub description: Option<String>,
    pub category: Option<TagFlag>,
    pub searchable: Option<bool>,
    /// Number of visual novels the tag applies to, child tags included.
    pub vn_count: Option<u32>,
}

/// The category of a tag.
#[derive(Clone, Copy, PartialEq, Eq, Structural, Debug)]
pub enum TagFlag {
    Content,
    SexualContent,
    Technical,
}

/// A spoiler severity level, carried on the wire as its numeric code.
#[derive(Clone, Copy, PartialEq, Eq, Structural, Debug)]
pub enum TagSpoilerLvl {
    NoSpoiler,
    Medium,
    Big,
}

impl TagSpoilerLvl {
    /// The numeric wire code of the level.
    pub open spec fn spec_code(self) -> u8 {
        match self {
            TagSpoilerLvl::NoSpoiler => 0,
            TagSpoilerLvl::Medium => 1,
            TagSpoilerLvl::Big => 2,
        }
    }

    /// Returns the numeric wire code.
    pub fn code(self) -> (r: u8)
        ensures
            r == self.spec_code(),
    {
        match self {
            TagSpoilerLvl::NoSpoiler => 0,
            TagSpoilerLvl::Medium => 1,
            TagSpoilerLvl::Big => 2,
        }
    }
}

} // verus!
