//! Release vocabulary: the float-free parts of a release record.

use vstd::prelude::*;

use crate::producer::ProducerType;
use crate::schema::{Language, Medium};

verus! {

/// The title of a release in one language.
#[derive(Clone, Debug)]
pub struct ReleaseLanguage {
    pub lang: Option<Language>,
    /// Title in this language.
    pub title: Option<String>,
    /// Romanized version of the title.
    pub latin: Option<String>,
    /// Whether the title is machine-translated.
    pub mtl: Option<bool>,
    /// Whether this is the release's main language.
    pub main: Option<bool>,
}

/// A medium a release ships on.
#[derive(Clone, Debug)]
pub struct ReleaseMedia {
    pub medium: Option<Medium>,
    /// Number of units of the medium.
    pub qty: Option<u32>,
}

/// The completeness of a release.
#[derive(Clone, Copy, PartialEq, Eq, Structural, Debug)]
pub enum ReleaseType {
    Trial,
    Partial,
    Complete,
}

/// A producer's involvement in a release.
#[derive(Clone, Debug)]
pub struct ReleaseProducer {
    pub developer: Option<bool>,
    pub publisher: Option<bool>,
    /// Identifier of the producer.
    pub id: Option<String>,
    pub name: Option<String>,
    pub aliases: Option<Vec<String>>,
    pub lang: Option<Language>,
    /// The producer's kind; the wire key is `type`.
    pub kind: Option<ProducerType>,
    pub description: Option<String>,
}

/// The display resolution of a release: either the width and height, or a
/// non-standard textual description.
#[derive(Clone, Debug)]
pub enum Resolution {
    NonStandard(String),
    Dimensions(Vec<u32>),
}

/// How much of a release is voiced, carried on the wire as its numeric
/// code.
#[derive(Clone, Copy, PartialEq, Eq, Structural, Debug)]
pub enum VoicedType {
    NotVoiced,
    EroScenesOnly,
    PartiallyVoiced,
    FullyVoiced,
}

impl VoicedType {
    /// The numeric wire code.
    pub open spec fn spec_code(self) -> u8 {
        match self {
            VoicedType::NotVoiced => 1,
            VoicedType::EroScenesOnly => 2,
            VoicedType::PartiallyVoiced => 3,
            VoicedType::FullyVoiced => 4,
        }
    }

    /// Returns the numeric wire code.
    pub fn code(self) -> (r: u8)
        ensures
            r == self.spec_code(),
    {
        match self {
            VoicedType::NotVoiced => 1,
            VoicedType::EroScenesOnly => 2,
            VoicedType::PartiallyVoiced => 3,
            VoicedType::FullyVoiced => 4,
        }
    }
}

/// A link to an external website.
#[derive(Clone, Debug)]
pub struct ExtLink {
    /// External website URL.
    pub url: Option<String>,
    /// Human-readable label for the link.
    pub label: Option<String>,
    /// Internal identifier of the site.
    pub name: Option<String>,
    /// Remote identifier for the link.
    pub id: Option<ExtLinkId>,
}

/// The remote identifier of an external link: textual or numeric.
#[derive(Clone, Debug)]
pub enum ExtLinkId {
    Str(String),
    Int(u32),
}

} // verus!
