//! Field selection registry for character queries.

use vstd::prelude::*;

use crate::fields::{fields_csv, WireField};
use crate::query::{character_sort_allowed, QueryBuilder, SortField, CharacterQuery};
use crate::wire::spec_csv;

verus! {

/// A selectable field of a character record, named by its dotted wire path.
#[derive(Clone, Copy, PartialEq, Eq, Structural, Debug)]
pub enum CharacterField {
    Id,
    Name,
    Original,
    Aliases,
    Description,
    ImageId,
    ImageUrl,
    ImageDims,
    ImageSexual,
    ImageViolence,
    ImageVoteCount,
    BloodType,
    Height,
    Weight,
    Bust,
    Waist,
    Hips,
    Cup,
    Age,
    Birthday,
    Sex,
    VnsSpoiler,
    VnsRole,
    VnsId,
    VnsTitle,
    VnsReleaseId,
    VnsReleaseTitle,
    TraitsSpoiler,
    TraitsLie,
    TraitsId,
    TraitsName,
    TraitsAliases,
    TraitsDescription,
    TraitsSearchable,
    TraitsApplicable,
    TraitsGroupId,
    TraitsGroupName,
    TraitsCharCount,
}

impl WireField for CharacterField {
    open spec fn spec_wire(self) -> Seq<char> {
        match self {
            CharacterField::Id => "id"@,
            CharacterField::Name => "name"@,
            CharacterField::Original => "original"@,
            CharacterField::Aliases => "aliases"@,
            CharacterField::Description => "description"@,
            CharacterField::ImageId => "image.id"@,
            CharacterField::ImageUrl => "image.url"@,
            CharacterField::ImageDims => "image.dims"@,
            CharacterField::ImageSexual => "image.sexual"@,
            CharacterField::ImageViolence => "image.violence"@,
            CharacterField::ImageVoteCount => "image.votecount"@,
            CharacterField::BloodType => "blood_type"@,
            CharacterField::Height => "height"@,
            CharacterField::Weight => "weight"@,
            CharacterField::Bust => "bust"@,
            CharacterField::Waist => "waist"@,
            CharacterField::Hips => "hips"@,
            CharacterField::Cup => "cup"@,
            CharacterField::Age => "age"@,
            CharacterField::Birthday => "birthday"@,
            CharacterField::Sex => "sex"@,
            CharacterField::VnsSpoiler => "vns.spoiler"@,
            CharacterField::VnsRole => "vns.role"@,
            CharacterField::VnsId => "vns.id"@,
            CharacterField::VnsTitle => "vns.title"@,
            CharacterField::VnsReleaseId => "vns.release.id"@,
            CharacterField::VnsReleaseTitle => "vns.release.title"@,
            CharacterField::TraitsSpoiler => "traits.spoiler"@,
            CharacterField::TraitsLie => "traits.lie"@,
            CharacterField::TraitsId => "traits.id"@,
            CharacterField::TraitsName => "traits.name"@,
            CharacterField::TraitsAliases => "traits.aliases"@,
            CharacterField::TraitsDescription => "traits.description"@,
            CharacterField::TraitsSearchable => "traits.searchable"@,
            CharacterField::TraitsApplicable => "traits.applicable"@,
            CharacterField::TraitsGroupId => "traits.group_id"@,
            CharacterField::TraitsGroupName => "traits.group_name"@,
            CharacterField::TraitsCharCount => "traits.char_count"@,
        }
    }

    fn wire_name(self) -> (r: &'static str) {
        match self {
            CharacterField::Id => "id",
            CharacterField::Name => "name",
            CharacterField::Original => "original",
            CharacterField::Aliases => "aliases",
            CharacterField::Description => "description",
            CharacterField::ImageId => "image.id",
            CharacterField::ImageUrl => "image.url",
            CharacterField::ImageDims => "image.dims",
            CharacterField::ImageSexual => "image.sexual",
            CharacterField::ImageViolence => "image.violence",
            CharacterField::ImageVoteCount => "image.votecount",
            CharacterField::BloodType => "blood_type",
            CharacterField::Height => "height",
            CharacterField::Weight => "weight",
            CharacterField::Bust => "bust",
            CharacterField::Waist => "waist",
            CharacterField::Hips => "hips",
            CharacterField::Cup => "cup",
            CharacterField::Age => "age",
            CharacterField::Birthday => "birthday",
            CharacterField::Sex => "sex",
            CharacterField::VnsSpoiler => "vns.spoiler",
            CharacterField::VnsRole => "vns.role",
            CharacterField::VnsId => "vns.id",
            CharacterField::VnsTitle => "vns.title",
            CharacterField::VnsReleaseId => "vns.release.id",
            CharacterField::VnsReleaseTitle => "vns.release.title",
            CharacterField::TraitsSpoiler => "traits.spoiler",
            CharacterField::TraitsLie => "traits.lie",
            CharacterField::TraitsId => "traits.id",
            CharacterField::TraitsName => "traits.name",
            CharacterField::TraitsAliases => "traits.aliases",
            CharacterField::TraitsDescription => "traits.description",
            CharacterField::TraitsSearchable => "traits.searchable",
            CharacterField::TraitsApplicable => "traits.applicable",
            CharacterField::TraitsGroupId => "traits.group_id",
            CharacterField::TraitsGroupName => "traits.group_name",
            CharacterField::TraitsCharCount => "traits.char_count",
        }
    }
}

/// The position of each field in the declared enumeration.
pub open spec fn character_field_pos(f: CharacterField) -> int {
    match f {
        CharacterField::Id => 0,
        CharacterField::Name => 1,
        CharacterField::Original => 2,
        CharacterField::Aliases => 3,
        CharacterField::Description => 4,
        CharacterField::ImageId => 5,
        CharacterField::ImageUrl => 6,
        CharacterField::ImageDims => 7,
        CharacterField::ImageSexual => 8,
        CharacterField::ImageViolence => 9,
        CharacterField::ImageVoteCount => 10,
        CharacterField::BloodType => 11,
        CharacterField::Height => 12,
        CharacterField::Weight => 13,
        CharacterField::Bust => 14,
        CharacterField::Waist => 15,
        CharacterField::Hips => 16,
        CharacterField::Cup => 17,
        CharacterField::Age => 18,
        CharacterField::Birthday => 19,
        CharacterField::Sex => 20,
        CharacterField::VnsSpoiler => 21,
        CharacterField::VnsRole => 22,
        CharacterField::VnsId => 23,
        CharacterField::VnsTitle => 24,
        CharacterField::VnsReleaseId => 25,
        CharacterField::VnsReleaseTitle => 26,
        CharacterField::TraitsSpoiler => 27,
        CharacterField::TraitsLie => 28,
        CharacterField::TraitsId => 29,
        CharacterField::TraitsName => 30,
        CharacterField::TraitsAliases => 31,
        CharacterField::TraitsDescription => 32,
        CharacterField::TraitsSearchable => 33,
        CharacterField::TraitsApplicable => 34,
        CharacterField::TraitsGroupId => 35,
        CharacterField::TraitsGroupName => 36,
        CharacterField::TraitsCharCount => 37,
    }
}

/// The field declared at position `i` (the last one for any position past
/// the end).
pub open spec fn character_field_at(i: int) -> CharacterField {
    if i == 0 {
        CharacterField::Id
    } else if i == 1 {
        CharacterField::Name
    } else if i == 2 {
        CharacterField::Original
    } else if i == 3 {
        CharacterField::Aliases
    } else if i == 4 {
        CharacterField::Description
    } else if i == 5 {
        CharacterField::ImageId
    } else if i == 6 {
        CharacterField::ImageUrl
    } else if i == 7 {
        CharacterField::ImageDims
    } else if i == 8 {
        CharacterField::ImageSexual
    } else if i == 9 {
        CharacterField::ImageViolence
    } else if i == 10 {
        CharacterField::ImageVoteCount
    } else if i == 11 {
        CharacterField::BloodType
    } else if i == 12 {
        CharacterField::Height
    } else if i == 13 {
        CharacterField::Weight
    } else if i == 14 {
        CharacterField::Bust
    } else if i == 15 {
        CharacterField::Waist
    } else if i == 16 {
        CharacterField::Hips
    } else if i == 17 {
        CharacterField::Cup
    } else if i == 18 {
        CharacterField::Age
    } else if i == 19 {
        CharacterField::Birthday
    } else if i == 20 {
        CharacterField::Sex
    } else if i == 21 {
        CharacterField::VnsSpoiler
    } else if i == 22 {
        CharacterField::VnsRole
    } else if i == 23 {
        CharacterField::VnsId
    } else if i == 24 {
        CharacterField::VnsTitle
    } else if i == 25 {
        CharacterField::VnsReleaseId
    } else if i == 26 {
        CharacterField::VnsReleaseTitle
    } else if i == 27 {
        CharacterField::TraitsSpoiler
    } else if i == 28 {
        CharacterField::TraitsLie
    } else if i == 29 {
        CharacterField::TraitsId
    } else if i == 30 {
        CharacterField::TraitsName
    } else if i == 31 {
        CharacterField::TraitsAliases
    } else if i == 32 {
        CharacterField::TraitsDescription
    } else if i == 33 {
        CharacterField::TraitsSearchable
    } else if i == 34 {
        CharacterField::TraitsApplicable
    } else if i == 35 {
        CharacterField::TraitsGroupId
    } else if i == 36 {
        CharacterField::TraitsGroupName
    } else {
        CharacterField::TraitsCharCount
    }
}

fn character_field_nth(i: usize) -> (r: CharacterField)
    ensures
        r == character_field_at(i as int),
{
    match i {
        0 => CharacterField::Id,
        1 => CharacterField::Name,
        2 => CharacterField::Original,
        3 => CharacterField::Aliases,
        4 => CharacterField::Description,
        5 => CharacterField::ImageId,
        6 => CharacterField::ImageUrl,
        7 => CharacterField::ImageDims,
        8 => CharacterField::ImageSexual,
        9 => CharacterField::ImageViolence,
        10 => CharacterField::ImageVoteCount,
        11 => CharacterField::BloodType,
        12 => CharacterField::Height,
        13 => CharacterField::Weight,
        14 => CharacterField::Bust,
        15 => CharacterField::Waist,
        16 => CharacterField::Hips,
        17 => CharacterField::Cup,
        18 => CharacterField::Age,
        19 => CharacterField::Birthday,
        20 => CharacterField::Sex,
        21 => CharacterField::VnsSpoiler,
        22 => CharacterField::VnsRole,
        23 => CharacterField::VnsId,
        24 => CharacterField::VnsTitle,
        25 => CharacterField::VnsReleaseId,
        26 => CharacterField::VnsReleaseTitle,
        27 => CharacterField::TraitsSpoiler,
        28 => CharacterField::TraitsLie,
        29 => CharacterField::TraitsId,
        30 => CharacterField::TraitsName,
        31 => CharacterField::TraitsAliases,
        32 => CharacterField::TraitsDescription,
        33 => CharacterField::TraitsSearchable,
        34 => CharacterField::TraitsApplicable,
        35 => CharacterField::TraitsGroupId,
        36 => CharacterField::TraitsGroupName,
        _ => CharacterField::TraitsCharCount,
    }
}

/// An ordered, duplicate-tolerant selection of character fields.
pub struct CharacterFieldChoices(pub Vec<CharacterField>);

impl CharacterFieldChoices {
    /// Every selectable field, in declaration order.
    pub open spec fn spec_all() -> Seq<CharacterField> {
        Seq::new(38, |i: int| character_field_at(i))
    }

    /// Selects nothing beyond the always-included primary fields.
    pub fn new() -> (r: Self)
        ensures
            r.0@ == Seq::<CharacterField>::empty(),
    {
        CharacterFieldChoices(Vec::new())
    }

    /// A caller-chosen selection; duplicates and any order are permitted.
    pub fn from(vec: Vec<CharacterField>) -> (r: Self)
        ensures
            r.0@ == vec@,
    {
        CharacterFieldChoices(vec)
    }

    /// Every known field of the resource, in declaration order.
    pub fn all() -> (r: Self)
        ensures
            r.0@ == Self::spec_all(),
    {
        let mut v: Vec<CharacterField> = Vec::new();
        for i in 0..38usize
            invariant
                v@.len() == i as int,
                forall|k: int| 0 <= k < i as int ==> v@[k] == Self::spec_all()[k],
        {
            v.push(character_field_nth(i));
        }
        proof {
            assert(v@ =~= Self::spec_all());
        }
        CharacterFieldChoices(v)
    }

    /// The selection rendered as the wire `fields` parameter: names joined
    /// by `,`, in order, with no trailing separator.
    pub fn to_csv(&self) -> (r: String)
        ensures
            r@ == spec_csv(self.0@.map_values(|f: CharacterField| f.spec_wire())),
    {
        fields_csv(&self.0)
    }
}

/// `all()` holds every declared field exactly once, in declaration order,
/// so its CSV rendering lists each field name once, in that order.
pub proof fn lemma_character_all_fields_once()
    ensures
        forall|i: int, j: int|
            0 <= i < j < CharacterFieldChoices::spec_all().len() ==> CharacterFieldChoices::spec_all()[i]
                != CharacterFieldChoices::spec_all()[j],
{
    assert forall|i: int| 0 <= i < 38 implies character_field_pos(#[trigger] character_field_at(i))
        == i by {}
    assert forall|i: int, j: int|
        0 <= i < j < CharacterFieldChoices::spec_all().len() implies CharacterFieldChoices::spec_all()[i]
        != CharacterFieldChoices::spec_all()[j] by {
        assert(character_field_pos(character_field_at(i)) == i);
        assert(character_field_pos(character_field_at(j)) == j);
    }
}

impl QueryBuilder<CharacterQuery> {
    /// Chooses which fields to fetch; the selection is stored as its CSV
    /// rendering.
    pub fn fields(self, fields: CharacterFieldChoices) -> (r: Self)
        ensures
            fields.0@.len() == 0 ==> r.fields == Option::<String>::None,
            fields.0@.len() > 0 ==> (r.fields matches Some(s) && s@ == spec_csv(
                fields.0@.map_values(|f: CharacterField| f.spec_wire()),
            )),
            r.filters == self.filters,
            r.sort == self.sort,
            r.reverse == self.reverse,
            r.results == self.results,
            r.page == self.page,
            r.user == self.user,
            r.count == self.count,
            r.compact_filters == self.compact_filters,
            r.normalized_filters == self.normalized_filters,
    {
        let mut b = self;
        b.fields = if fields.0.len() == 0 {
            None
        } else {
            Some(fields.to_csv())
        };
        b
    }

    /// Asks the response to include the total match count.
    pub fn enable_count(self) -> (r: Self)
        ensures
            r == (QueryBuilder { count: Some(true), ..self }),
    {
        let mut b = self;
        b.count = Some(true);
        b
    }

    /// Sets the sort key if it applies to this resource; a key that does
    /// not is silently ignored and the previous sort kept.
    pub fn sort(self, sort_field: SortField) -> (r: Self)
        ensures
            r == (QueryBuilder {
                sort: if character_sort_allowed(sort_field) {
                    Some(sort_field)
                } else {
                    self.sort
                },
                ..self
            }),
    {
        let mut b = self;
        match sort_field {
            SortField::Id | SortField::Name | SortField::Searchrank => {
                b.sort = Some(sort_field);
            },
            _ => {},
        }
        b
    }
}

} // verus!
