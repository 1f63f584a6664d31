//! Producer records.

use vstd::prelude::*;

use crate::schema::Language;

verus! {

/// A producer record.
#[derive(Clone, Debug)]
pub struct Producer {
    /// Identifier of the producer.
    pub id: Option<String>,
    pub name: Option<String>,
    pub aliases: Option<Vec<String>>,
    /// Primary language.
    pub lang: Option<Language>,
    /// The producer's kind; the wire key is `type`.
    pub kind: Option<ProducerType>,
    /// May contain formatting codes.
    pub description: Option<String>,
}

/// The kind of a producer.
#[derive(Clone, Copy, PartialEq, Eq, Structural, Debug)]
pub enum ProducerType {
    Company,
    Individual,
    AmateurGroup,
}

} // verus!
