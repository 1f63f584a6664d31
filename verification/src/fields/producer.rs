//! Field selection registry for producer queries.

use vstd::prelude::*;

use crate::fields::{fields_csv, WireField};
use crate::query::{producer_sort_allowed, QueryBuilder, SortField, ProducerQuery};
use crate::wire::spec_csv;

verus! {

/// A selectable field of a producer record, named by its dotted wire path.
#[derive(Clone, Copy, PartialEq, Eq, Structural, Debug)]
pub enum ProducerField {
    Id,
    Name,
    Original,
    Aliases,
    Lang,
    Type,
    Description,
}

impl WireField for ProducerField {
    open spec fn spec_wire(self) -> Seq<char> {
        match self {
            ProducerField::Id => "id"@,
            ProducerField::Name => "name"@,
            ProducerField::Original => "original"@,
            ProducerField::Aliases => "aliases"@,
            ProducerField::Lang => "lang"@,
            ProducerField::Type => "type"@,
            ProducerField::Description => "description"@,
        }
    }

    fn wire_name(self) -> (r: &'static str) {
        match self {
            ProducerField::Id => "id",
            ProducerField::Name => "name",
            ProducerField::Original => "original",
            ProducerField::Aliases => "aliases",
            ProducerField::Lang => "lang",
            ProducerField::Type => "type",
            ProducerField::Description => "description",
        }
    }
}

/// The position of each field in the declared enumeration.
pub open spec fn producer_field_pos(f: ProducerField) -> int {
    match f {
        ProducerField::Id => 0,
        ProducerField::Name => 1,
        ProducerField::Original => 2,
        ProducerField::Aliases => 3,
        ProducerField::Lang => 4,
        ProducerField::Type => 5,
        ProducerField::Description => 6,
    }
}

/// The field declared at position `i` (the last one for any position past
/// the end).
pub open spec fn producer_field_at(i: int) -> ProducerField {
    if i == 0 {
        ProducerField::Id
    } else if i == 1 {
        ProducerField::Name
    } else if i == 2 {
        ProducerField::Original
    } else if i == 3 {
        ProducerField::Aliases
    } else if i == 4 {
        ProducerField::Lang
    } else if i == 5 {
        ProducerField::Type
    } else {
        ProducerField::Description
    }
}

fn producer_field_nth(i: usize) -> (r: ProducerField)
    ensures
        r == producer_field_at(i as int),
{
    match i {
        0 => ProducerField::Id,
        1 => ProducerField::Name,
        2 => ProducerField::Original,
        3 => ProducerField::Aliases,
        4 => ProducerField::Lang,
        5 => ProducerField::Type,
        _ => ProducerField::Description,
    }
}

/// An ordered, duplicate-tolerant selection of producer fields.
pub struct ProducerFieldChoices(pub Vec<ProducerField>);

impl ProducerFieldChoices {
    /// Every selectable field, in declaration order.
    pub open spec fn spec_all() -> Seq<ProducerField> {
        Seq::new(7, |i: int| producer_field_at(i))
    }

    /// Selects nothing beyond the always-included primary fields.
    pub fn new() -> (r: Self)
        ensures
            r.0@ == Seq::<ProducerField>::empty(),
    {
        ProducerFieldChoices(Vec::new())
    }

    /// A caller-chosen selection; duplicates and any order are permitted.
    pub fn from(vec: Vec<ProducerField>) -> (r: Self)
        ensures
            r.0@ == vec@,
    {
        ProducerFieldChoices(vec)
    }

    /// Every known field of the resource, in declaration order.
    pub fn all() -> (r: Self)
        ensures
            r.0@ == Self::spec_all(),
    {
        let mut v: Vec<ProducerField> = Vec::new();
        for i in 0..7usize
            invariant
                v@.len() == i as int,
                forall|k: int| 0 <= k < i as int ==> v@[k] == Self::spec_all()[k],
        {
            v.push(producer_field_nth(i));
        }
        proof {
            assert(v@ =~= Self::spec_all());
        }
        ProducerFieldChoices(v)
    }

    /// The selection rendered as the wire `fields` parameter: names joined
    /// by `,`, in order, with no trailing separator.
    pub fn to_csv(&self) -> (r: String)
        ensures
            r@ == spec_csv(self.0@.map_values(|f: ProducerField| f.spec_wire())),
    {
        fields_csv(&self.0)
    }
}

/// `all()` holds every declared field exactly once, in declaration order,
/// so its CSV rendering lists each field name once, in that order.
pub proof fn lemma_producer_all_fields_once()
    ensures
        forall|i: int, j: int|
            0 <= i < j < ProducerFieldChoices::spec_all().len() ==> ProducerFieldChoices::spec_all()[i]
                != ProducerFieldChoices::spec_all()[j],
{
    assert forall|i: int| 0 <= i < 7 implies producer_field_pos(#[trigger] producer_field_at(i))
        == i by {}
    assert forall|i: int, j: int|
        0 <= i < j < ProducerFieldChoices::spec_all().len() implies ProducerFieldChoices::spec_all()[i]
        != ProducerFieldChoices::spec_all()[j] by {
        assert(producer_field_pos(producer_field_at(i)) == i);
        assert(producer_field_pos(producer_field_at(j)) == j);
    }
}

impl QueryBuilder<ProducerQuery> {
    /// Chooses which fields to fetch; the selection is stored as its CSV
    /// rendering.
    pub fn fields(self, fields: ProducerFieldChoices) -> (r: Self)
        ensures
            fields.0@.len() == 0 ==> r.fields == Option::<String>::None,
            fields.0@.len() > 0 ==> (r.fields matches Some(s) && s@ == spec_csv(
                fields.0@.map_values(|f: ProducerField| f.spec_wire()),
            )),
            r.filters == self.filters,
            r.sort == self.sort,
            r.reverse == self.reverse,
            r.results == self.results,
            r.page == self.page,
            r.user == self.user,
            r.count == self.count,
            r.compact_filters == self.compact_filters,
            r.normalized_filters == self.normalized_filters,
    {
        let mut b = self;
        b.fields = if fields.0.len() == 0 {
            None
        } else {
            Some(fields.to_csv())
        };
        b
    }

    /// Asks the response to include the total match count.
    pub fn enable_count(self) -> (r: Self)
        ensures
            r == (QueryBuilder { count: Some(true), ..self }),
    {
        let mut b = self;
        b.count = Some(true);
        b
    }

    /// Sets the sort key if it applies to this resource; a key that does
    /// not is silently ignored and the previous sort kept.
    pub fn sort(self, sort_field: SortField) -> (r: Self)
        ensures
            r == (QueryBuilder {
                sort: if producer_sort_allowed(sort_field) {
                    Some(sort_field)
                } else {
                    self.sort
                },
                ..self
            }),
    {
        let mut b = self;
        match sort_field {
            SortField::Id | SortField::Name | SortField::Searchrank => {
                b.sort = Some(sort_field);
            },
            _ => {},
        }
        b
    }
}

} // verus!
