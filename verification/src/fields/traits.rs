//! Field selection registry for trait queries.

use vstd::prelude::*;

use crate::fields::{fields_csv, WireField};
use crate::query::{trait_sort_allowed, QueryBuilder, SortField, TraitQuery};
use crate::wire::spec_csv;

verus! {

/// A selectable field of a trait record, named by its dotted wire path.
#[derive(Clone, Copy, PartialEq, Eq, Structural, Debug)]
pub enum TraitField {
    Id,
    Name,
    Aliases,
    Description,
    Searchable,
    Applicable,
    GroupId,
    GroupName,
    CharCount,
}

impl WireField for TraitField {
    open spec fn spec_wire(self) -> Seq<char> {
        match self {
            TraitField::Id => "id"@,
            TraitField::Name => "name"@,
            TraitField::Aliases => "aliases"@,
            TraitField::Description => "description"@,
            TraitField::Searchable => "searchable"@,
            TraitField::Applicable => "applicable"@,
            TraitField::GroupId => "group_id"@,
            TraitField::GroupName => "group_name"@,
            TraitField::CharCount => "char_count"@,
        }
    }

    fn wire_name(self) -> (r: &'static str) {
        match self {
            TraitField::Id => "id",
            TraitField::Name => "name",
            TraitField::Aliases => "aliases",
            TraitField::Description => "description",
            TraitField::Searchable => "searchable",
            TraitField::Applicable => "applicable",
            TraitField::GroupId => "group_id",
            TraitField::GroupName => "group_name",
            TraitField::CharCount => "char_count",
        }
    }
}

/// The position of each field in the declared enumeration.
pub open spec fn traits_field_pos(f: TraitField) -> int {
    match f {
        TraitField::Id => 0,
        TraitField::Name => 1,
        TraitField::Aliases => 2,
        TraitField::Description => 3,
        TraitField::Searchable => 4,
        TraitField::Applicable => 5,
        TraitField::GroupId => 6,
        TraitField::GroupName => 7,
        TraitField::CharCount => 8,
    }
}

/// The field declared at position `i` (the last one for any position past
/// the end).
pub open spec fn traits_field_at(i: int) -> TraitField {
    if i == 0 {
        TraitField::Id
    } else if i == 1 {
        TraitField::Name
    } else if i == 2 {
        TraitField::Aliases
    } else if i == 3 {
        TraitField::Description
    } else if i == 4 {
        TraitField::Searchable
    } else if i == 5 {
        TraitField::Applicable
    } else if i == 6 {
        TraitField::GroupId
    } else if i == 7 {
        TraitField::GroupName
    } else {
        TraitField::CharCount
    }
}

fn traits_field_nth(i: usize) -> (r: TraitField)
    ensures
        r == traits_field_at(i as int),
{
    match i {
        0 => TraitField::Id,
        1 => TraitField::Name,
        2 => TraitField::Aliases,
        3 => TraitField::Description,
        4 => TraitField::Searchable,
        5 => TraitField::Applicable,
        6 => TraitField::GroupId,
        7 => TraitField::GroupName,
        _ => TraitField::CharCount,
    }
}

/// An ordered, duplicate-tolerant selection of trait fields.
pub struct TraitFieldChoices(pub Vec<TraitField>);

impl TraitFieldChoices {
    /// Every selectable field, in declaration order.
    pub open spec fn spec_all() -> Seq<TraitField> {
        Seq::new(9, |i: int| traits_field_at(i))
    }

    /// Selects nothing beyond the always-included primary fields.
    pub fn new() -> (r: Self)
        ensures
            r.0@ == Seq::<TraitField>::empty(),
    {
        TraitFieldChoices(Vec::new())
    }

    /// A caller-chosen selection; duplicates and any order are permitted.
    pub fn from(vec: Vec<TraitField>) -> (r: Self)
        ensures
            r.0@ == vec@,
    {
        TraitFieldChoices(vec)
    }

    /// Every known field of the resource, in declaration order.
    pub fn all() -> (r: Self)
        ensures
            r.0@ == Self::spec_all(),
    {
        let mut v: Vec<TraitField> = Vec::new();
        for i in 0..9usize
            invariant
                v@.len() == i as int,
                forall|k: int| 0 <= k < i as int ==> v@[k] == Self::spec_all()[k],
        {
            v.push(traits_field_nth(i));
        }
        proof {
            assert(v@ =~= Self::spec_all());
        }
        TraitFieldChoices(v)
    }

    /// The selection rendered as the wire `fields` parameter: names joined
    /// by `,`, in order, with no trailing separator.
    pub fn to_csv(&self) -> (r: String)
        ensures
            r@ == spec_csv(self.0@.map_values(|f: TraitField| f.spec_wire())),
    {
        fields_csv(&self.0)
    }
}

/// `all()` holds every declared field exactly once, in declaration order,
/// so its CSV rendering lists each field name once, in that order.
pub proof fn lemma_traits_all_fields_once()
    ensures
        forall|i: int, j: int|
            0 <= i < j < TraitFieldChoices::spec_all().len() ==> TraitFieldChoices::spec_all()[i]
                != TraitFieldChoices::spec_all()[j],
{
    assert forall|i: int| 0 <= i < 9 implies traits_field_pos(#[trigger] traits_field_at(i))
        == i by {}
    assert forall|i: int, j: int|
        0 <= i < j < TraitFieldChoices::spec_all().len() implies TraitFieldChoices::spec_all()[i]
        != TraitFieldChoices::spec_all()[j] by {
        assert(traits_field_pos(traits_field_at(i)) == i);
        assert(traits_field_pos(traits_field_at(j)) == j);
    }
}

impl QueryBuilder<TraitQuery> {
    /// Chooses which fields to fetch; the selection is stored as its CSV
    /// rendering.
    pub fn fields(self, fields: TraitFieldChoices) -> (r: Self)
        ensures
            fields.0@.len() == 0 ==> r.fields == Option::<String>::None,
            fields.0@.len() > 0 ==> (r.fields matches Some(s) && s@ == spec_csv(
                fields.0@.map_values(|f: TraitField| f.spec_wire()),
            )),
            r.filters == self.filters,
            r.sort == self.sort,
            r.reverse == self.reverse,
            r.results == self.results,
            r.page == self.page,
            r.user == self.user,
            r.count == self.count,
            r.compact_filters == self.compact_filters,
            r.normalized_filters == self.normalized_filters,
    {
        let mut b = self;
        b.fields = if fields.0.len() == 0 {
            None
        } else {
            Some(fields.to_csv())
        };
        b
    }

    /// Asks the response to include the total match count.
    pub fn enable_count(self) -> (r: Self)
        ensures
            r == (QueryBuilder { count: Some(true), ..self }),
    {
        let mut b = self;
        b.count = Some(true);
        b
    }

    /// Sets the sort key if it applies to this resource; a key that does
    /// not is silently ignored and the previous sort kept.
    pub fn sort(self, sort_field: SortField) -> (r: Self)
        ensures
            r == (QueryBuilder {
                sort: if trait_sort_allowed(sort_field) {
                    Some(sort_field)
                } else {
                    self.sort
                },
                ..self
            }),
    {
        let mut b = self;
        match sort_field {
            SortField::Id | SortField::Name | SortField::CharCount | SortField::Searchrank => {
                b.sort = Some(sort_field);
            },
            _ => {},
        }
        b
    }
}

} // verus!
