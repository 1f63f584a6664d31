//! Field selection registry for staff queries.

use vstd::prelude::*;

use crate::fields::{fields_csv, WireField};
use crate::query::{staff_sort_allowed, QueryBuilder, SortField, StaffQuery};
use crate::wire::spec_csv;

verus! {

/// A selectable field of a staff record, named by its dotted wire path.
#[derive(Clone, Copy, PartialEq, Eq, Structural, Debug)]
pub enum StaffField {
    Id,
    Aid,
    Ismain,
    Name,
    Lang,
    Gender,
    Description,
    ExtlinksUrl,
    ExtlinksLabel,
    ExtlinksName,
    ExtlinksId,
    AliasesAid,
    AliasesName,
    AliasesLatin,
    AliasesIsmain,
}

impl WireField for StaffField {
    open spec fn spec_wire(self) -> Seq<char> {
        match self {
            StaffField::Id => "id"@,
            StaffField::Aid => "aid"@,
            StaffField::Ismain => "ismain"@,
            StaffField::Name => "name"@,
            StaffField::Lang => "lang"@,
            StaffField::Gender => "gender"@,
            StaffField::Description => "description"@,
            StaffField::ExtlinksUrl => "extlinks.url"@,
            StaffField::ExtlinksLabel => "extlinks.label"@,
            StaffField::ExtlinksName => "extlinks.name"@,
            StaffField::ExtlinksId => "extlinks.id"@,
            StaffField::AliasesAid => "aliases.aid"@,
            StaffField::AliasesName => "aliases.name"@,
            StaffField::AliasesLatin => "aliases.latin"@,
            StaffField::AliasesIsmain => "aliases.ismain"@,
        }
    }

    fn wire_name(self) -> (r: &'static str) {
        match self {
            StaffField::Id => "id",
            StaffField::Aid => "aid",
            StaffField::Ismain => "ismain",
            StaffField::Name => "name",
            StaffField::Lang => "lang",
            StaffField::Gender => "gender",
            StaffField::Description => "description",
            StaffField::ExtlinksUrl => "extlinks.url",
            StaffField::ExtlinksLabel => "extlinks.label",
            StaffField::ExtlinksName => "extlinks.name",
            StaffField::ExtlinksId => "extlinks.id",
            StaffField::AliasesAid => "aliases.aid",
            StaffField::AliasesName => "aliases.name",
            StaffField::AliasesLatin => "aliases.latin",
            StaffField::AliasesIsmain => "aliases.ismain",
        }
    }
}

/// The position of each field in the declared enumeration.
pub open spec fn staff_field_pos(f: StaffField) -> int {
    match f {
        StaffField::Id => 0,
        StaffField::Aid => 1,
        StaffField::Ismain => 2,
        StaffField::Name => 3,
        StaffField::Lang => 4,
        StaffField::Gender => 5,
        StaffField::Description => 6,
        StaffField::ExtlinksUrl => 7,
        StaffField::ExtlinksLabel => 8,
        StaffField::ExtlinksName => 9,
        StaffField::ExtlinksId => 10,
        StaffField::AliasesAid => 11,
        StaffField::AliasesName => 12,
        StaffField::AliasesLatin => 13,
        StaffField::AliasesIsmain => 14,
    }
}

/// The field declared at position `i` (the last one for any position past
/// the end).
pub open spec fn staff_field_at(i: int) -> StaffField {
    if i == 0 {
        StaffField::Id
    } else if i == 1 {
        StaffField::Aid
    } else if i == 2 {
        StaffField::Ismain
    } else if i == 3 {
        StaffField::Name
    } else if i == 4 {
        StaffField::Lang
    } else if i == 5 {
        StaffField::Gender
    } else if i == 6 {
        StaffField::Description
    } else if i == 7 {
        StaffField::ExtlinksUrl
    } else if i == 8 {
        StaffField::ExtlinksLabel
    } else if i == 9 {
        StaffField::ExtlinksName
    } else if i == 10 {
        StaffField::ExtlinksId
    } else if i == 11 {
        StaffField::AliasesAid
    } else if i == 12 {
        StaffField::AliasesName
    } else if i == 13 {
        StaffField::AliasesLatin
    } else {
        StaffField::AliasesIsmain
    }
}

fn staff_field_nth(i: usize) -> (r: StaffField)
    ensures
        r == staff_field_at(i as int),
{
    match i {
        0 => StaffField::Id,
        1 => StaffField::Aid,
        2 => StaffField::Ismain,
        3 => StaffField::Name,
        4 => StaffField::Lang,
        5 => StaffField::Gender,
        6 => StaffField::Description,
        7 => StaffField::ExtlinksUrl,
        8 => StaffField::ExtlinksLabel,
        9 => StaffField::ExtlinksName,
        10 => StaffField::ExtlinksId,
        11 => StaffField::AliasesAid,
        12 => StaffField::AliasesName,
        13 => StaffField::AliasesLatin,
        _ => StaffField::AliasesIsmain,
    }
}

/// An ordered, duplicate-tolerant selection of staff fields.
pub struct StaffFieldChoices(pub Vec<StaffField>);

impl StaffFieldChoices {
    /// Every selectable field, in declaration order.
    pub open spec fn spec_all() -> Seq<StaffField> {
        Seq::new(15, |i: int| staff_field_at(i))
    }

    /// Selects nothing beyond the always-included primary fields.
    pub fn new() -> (r: Self)
        ensures
            r.0@ == Seq::<StaffField>::empty(),
    {
        StaffFieldChoices(Vec::new())
    }

    /// A caller-chosen selection; duplicates and any order are permitted.
    pub fn from(vec: Vec<StaffField>) -> (r: Self)
        ensures
            r.0@ == vec@,
    {
        StaffFieldChoices(vec)
    }

    /// Every known field of the resource, in declaration order.
    pub fn all() -> (r: Self)
        ensures
            r.0@ == Self::spec_all(),
    {
        let mut v: Vec<StaffField> = Vec::new();
        for i in 0..15usize
            invariant
                v@.len() == i as int,
                forall|k: int| 0 <= k < i as int ==> v@[k] == Self::spec_all()[k],
        {
            v.push(staff_field_nth(i));
        }
        proof {
            assert(v@ =~= Self::spec_all());
        }
        StaffFieldChoices(v)
    }

    /// The selection rendered as the wire `fields` parameter: names joined
    /// by `,`, in order, with no trailing separator.
    pub fn to_csv(&self) -> (r: String)
        ensures
            r@ == spec_csv(self.0@.map_values(|f: StaffField| f.spec_wire())),
    {
        fields_csv(&self.0)
    }
}

/// `all()` holds every declared field exactly once, in declaration order,
/// so its CSV rendering lists each field name once, in that order.
pub proof fn lemma_staff_all_fields_once()
    ensures
        forall|i: int, j: int|
            0 <= i < j < StaffFieldChoices::spec_all().len() ==> StaffFieldChoices::spec_all()[i]
                != StaffFieldChoices::spec_all()[j],
{
    assert forall|i: int| 0 <= i < 15 implies staff_field_pos(#[trigger] staff_field_at(i))
        == i by {}
    assert forall|i: int, j: int|
        0 <= i < j < StaffFieldChoices::spec_all().len() implies StaffFieldChoices::spec_all()[i]
        != StaffFieldChoices::spec_all()[j] by {
        assert(staff_field_pos(staff_field_at(i)) == i);
        assert(staff_field_pos(staff_field_at(j)) == j);
    }
}

impl QueryBuilder<StaffQuery> {
    /// Chooses which fields to fetch; the selection is stored as its CSV
    /// rendering.
    pub fn fields(self, fields: StaffFieldChoices) -> (r: Self)
        ensures
            fields.0@.len() == 0 ==> r.fields == Option::<String>::None,
            fields.0@.len() > 0 ==> (r.fields matches Some(s) && s@ == spec_csv(
                fields.0@.map_values(|f: StaffField| f.spec_wire()),
            )),
            r.filters == self.filters,
            r.sort == self.sort,
            r.reverse == self.reverse,
            r.results == self.results,
            r.page == self.page,
            r.user == self.user,
            r.count == self.count,
            r.compact_filters == self.compact_filters,
            r.normalized_filters == self.normalized_filters,
    {
        let mut b = self;
        b.fields = if fields.0.len() == 0 {
            None
        } else {
            Some(fields.to_csv())
        };
        b
    }

    /// Asks the response to include the total match count.
    pub fn enable_count(self) -> (r: Self)
        ensures
            r == (QueryBuilder { count: Some(true), ..self }),
    {
        let mut b = self;
        b.count = Some(true);
        b
    }

    /// Sets the sort key if it applies to this resource; a key that does
    /// not is silently ignored and the previous sort kept.
    pub fn sort(self, sort_field: SortField) -> (r: Self)
        ensures
            r == (QueryBuilder {
                sort: if staff_sort_allowed(sort_field) {
                    Some(sort_field)
                } else {
                    self.sort
                },
                ..self
            }),
    {
        let mut b = self;
        match sort_field {
            SortField::Id | SortField::Name | SortField::Searchrank => {
                b.sort = Some(sort_field);
            },
            _ => {},
        }
        b
    }
}

} // verus!
