//! Field selection registry for tag queries.

use vstd::prelude::*;

use crate::fields::{fields_csv, WireField};
use crate::query::{tag_sort_allowed, QueryBuilder, SortField, TagQuery};
use crate::wire::spec_csv;

verus! {

/// A selectable field of a tag record, named by its dotted wire path.
#[derive(Clone, Copy, PartialEq, Eq, Structural, Debug)]
pub enum TagField {
    Id,
    Name,
    Aliases,
    Description,
    Category,
    Searchable,
    Applicable,
}

impl WireField for TagField {
    open spec fn spec_wire(self) -> Seq<char> {
        match self {
            TagField::Id => "id"@,
            TagField::Name => "name"@,
            TagField::Aliases => "aliases"@,
            TagField::Description => "description"@,
            TagField::Category => "category"@,
            TagField::Searchable => "searchable"@,
            TagField::Applicable => "applicable"@,
        }
    }

    fn wire_name(self) -> (r: &'static str) {
        match self {
            TagField::Id => "id",
            TagField::Name => "name",
            TagField::Aliases => "aliases",
            TagField::Description => "description",
            TagField::Category => "category",
            TagField::Searchable => "searchable",
            TagField::Applicable => "applicable",
        }
    }
}

/// The position of each field in the declared enumeration.
pub open spec fn tag_field_pos(f: TagField) -> int {
    match f {
        TagField::Id => 0,
        TagField::Name => 1,
        TagField::Aliases => 2,
        TagField::Description => 3,
        TagField::Category => 4,
        TagField::Searchable => 5,
        TagField::Applicable => 6,
    }
}

/// The field declared at position `i` (the last one for any position past
/// the end).
pub open spec fn tag_field_at(i: int) -> TagField {
    if i == 0 {
        TagField::Id
    } else if i == 1 {
        TagField::Name
    } else if i == 2 {
        TagField::Aliases
    } else if i == 3 {
        TagField::Description
    } else if i == 4 {
        TagField::Category
    } else if i == 5 {
        TagField::Searchable
    } else {
        TagField::Applicable
    }
}

fn tag_field_nth(i: usize) -> (r: TagField)
    ensures
        r == tag_field_at(i as int),
{
    match i {
        0 => TagField::Id,
        1 => TagField::Name,
        2 => TagField::Aliases,
        3 => TagField::Description,
        4 => TagField::Category,
        5 => TagField::Searchable,
        _ => TagField::Applicable,
    }
}

/// An ordered, duplicate-tolerant selection of tag fields.
pub struct TagFieldChoices(pub Vec<TagField>);

impl TagFieldChoices {
    /// Every selectable field, in declaration order.
    pub open spec fn spec_all() -> Seq<TagField> {
        Seq::new(7, |i: int| tag_field_at(i))
    }

    /// Selects nothing beyond the always-included primary fields.
    pub fn new() -> (r: Self)
        ensures
            r.0@ == Seq::<TagField>::empty(),
    {
        TagFieldChoices(Vec::new())
    }

    /// A caller-chosen selection; duplicates and any order are permitted.
    pub fn from(vec: Vec<TagField>) -> (r: Self)
        ensures
            r.0@ == vec@,
    {
        TagFieldChoices(vec)
    }

    /// Every known field of the resource, in declaration order.
    pub fn all() -> (r: Self)
        ensures
            r.0@ == Self::spec_all(),
    {
        let mut v: Vec<TagField> = Vec::new();
        for i in 0..7usize
            invariant
                v@.len() == i as int,
                forall|k: int| 0 <= k < i as int ==> v@[k] == Self::spec_all()[k],
        {
            v.push(tag_field_nth(i));
        }
        proof {
            assert(v@ =~= Self::spec_all());
        }
        TagFieldChoices(v)
    }

    /// The selection rendered as the wire `fields` parameter: names joined
    /// by `,`, in order, with no trailing separator.
    pub fn to_csv(&self) -> (r: String)
        ensures
            r@ == spec_csv(self.0@.map_values(|f: TagField| f.spec_wire())),
    {
        fields_csv(&self.0)
    }
}

/// `all()` holds every declared field exactly once, in declaration order,
/// so its CSV rendering lists each field name once, in that order.
pub proof fn lemma_tag_all_fields_once()
    ensures
        forall|i: int, j: int|
            0 <= i < j < TagFieldChoices::spec_all().len() ==> TagFieldChoices::spec_all()[i]
                != TagFieldChoices::spec_all()[j],
{
    assert forall|i: int| 0 <= i < 7 implies tag_field_pos(#[trigger] tag_field_at(i))
        == i by {}
    assert forall|i: int, j: int|
        0 <= i < j < TagFieldChoices::spec_all().len() implies TagFieldChoices::spec_all()[i]
        != TagFieldChoices::spec_all()[j] by {
        assert(tag_field_pos(tag_field_at(i)) == i);
        assert(tag_field_pos(tag_field_at(j)) == j);
    }
}

impl QueryBuilder<TagQuery> {
    /// Chooses which fields to fetch; the selection is stored as its CSV
    /// rendering.
    pub fn fields(self, fields: TagFieldChoices) -> (r: Self)
        ensures
            fields.0@.len() == 0 ==> r.fields == Option::<String>::None,
            fields.0@.len() > 0 ==> (r.fields matches Some(s) && s@ == spec_csv(
                fields.0@.map_values(|f: TagField| f.spec_wire()),
            )),
            r.filters == self.filters,
            r.sort == self.sort,
            r.reverse == self.reverse,
            r.results == self.results,
            r.page == self.page,
            r.user == self.user,
            r.count == self.count,
            r.compact_filters == self.compact_filters,
            r.normalized_filters == self.normalized_filters,
    {
        let mut b = self;
        b.fields = if fields.0.len() == 0 {
            None
        } else {
            Some(fields.to_csv())
        };
        b
    }

    /// Asks the response to include the total match count.
    pub fn enable_count(self) -> (r: Self)
        ensures
            r == (QueryBuilder { count: Some(true), ..self }),
    {
        let mut b = self;
        b.count = Some(true);
        b
    }

    /// Sets the sort key if it applies to this resource; a key that does
    /// not is silently ignored and the previous sort kept.
    pub fn sort(self, sort_field: SortField) -> (r: Self)
        ensures
            r == (QueryBuilder {
                sort: if tag_sort_allowed(sort_field) {
                    Some(sort_field)
                } else {
                    self.sort
                },
                ..self
            }),
    {
        let mut b = self;
        match sort_field {
            SortField::Id | SortField::Name | SortField::VnCount | SortField::Searchrank => {
                b.sort = Some(sort_field);
            },
            _ => {},
        }
        b
    }
}

} // verus!
