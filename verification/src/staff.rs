//! Staff records.

use vstd::prelude::*;

use crate::release::ExtLink;
use crate::schema::Language;

verus! {

/// A staff record.
#[derive(Clone, Debug)]
pub struct Staff {
    /// Identifier of the staff entry.
    pub id: Option<String>,
    /// Alias identifier.
    pub aid: Option<u32>,
    /// Whether `name` and `original` are the main name of the entry.
    pub ismain: Option<bool>,
    /// Possibly romanized name.
    pub name: Option<String>,
    /// Name in the original script.
    pub original: Option<String>,
    /// The staff member's primary language.
    pub lang: Option<Language>,
    pub gender: Option<StaffGender>,
    /// May contain formatting codes.
    pub description: Option<String>,
    /// Links to external websites.
    pub extlinks: Option<Vec<ExtLink>>,
    /// The names used by this person.
    pub aliases: Option<Vec<StaffAlias>>,
}

/// The recorded gender of a staff member.
#[derive(Clone, Copy, PartialEq, Eq, Structural, Debug)]
pub enum StaffGender {
    Male,
    Female,
}

/// One name used by a staff member.
#[derive(Clone, Debug)]
pub struct StaffAlias {
    /// Alias identifier.
    pub aid: Option<u32>,
    /// Name in the original script.
    pub name: Option<String>,
    /// Romanized version of `name`.
    pub latin: Option<String>,
    /// Whether the alias is the entry's main name.
    pub ismain: Option<bool>,
}

} // verus!
