//! Field selection registry for release queries.

use vstd::prelude::*;

use crate::fields::{fields_csv, WireField};
use crate::query::{release_sort_allowed, QueryBuilder, SortField, ReleaseQuery};
use crate::wire::spec_csv;

verus! {

/// A selectable field of a release record, named by its dotted wire path.
#[derive(Clone, Copy, PartialEq, Eq, Structural, Debug)]
pub enum ReleaseField {
    Id,
    Title,
    Alttitle,
    LanguagesLang,
    LanguagesTitle,
    LanguagesLatin,
    LaguagesMtl,
    LanguagesMain,
    Platforms,
    MediaMedium,
    MediaQty,
    VnsRtype,
    VnsId,
    VnsTitle,
    ProducersDeveloper,
    ProducersPublisher,
    ProducersId,
    ProducersName,
    ProducersOriginal,
    ProducersAliases,
    ProducersLang,
    ProducersType,
    ProducersDescription,
    Released,
    MinAge,
    Patch,
    Freeware,
    Uncensored,
    Official,
    HasEro,
    Resolution,
    Engine,
    Voiced,
    Notes,
    Gtin,
    Catalog,
    ExtlinksUrl,
    ExtlinksLabel,
    ExtlinksName,
    ExtlinksId,
}

impl WireField for ReleaseField {
    open spec fn spec_wire(self) -> Seq<char> {
        match self {
            ReleaseField::Id => "id"@,
            ReleaseField::Title => "title"@,
            ReleaseField::Alttitle => "alttitle"@,
            ReleaseField::LanguagesLang => "languages.lang"@,
            ReleaseField::LanguagesTitle => "languages.title"@,
            ReleaseField::LanguagesLatin => "languages.latin"@,
            ReleaseField::LaguagesMtl => "languages.mtl"@,
            ReleaseField::LanguagesMain => "languages.main"@,
            ReleaseField::Platforms => "platforms"@,
            ReleaseField::MediaMedium => "media.medium"@,
            ReleaseField::MediaQty => "media.qty"@,
            ReleaseField::VnsRtype => "vns.rtype"@,
            ReleaseField::VnsId => "vns.id"@,
            ReleaseField::VnsTitle => "vns.title"@,
            ReleaseField::ProducersDeveloper => "producers.developer"@,
            ReleaseField::ProducersPublisher => "producers.publisher"@,
            ReleaseField::ProducersId => "producers.id"@,
            ReleaseField::ProducersName => "producers.name"@,
            ReleaseField::ProducersOriginal => "producers.original"@,
            ReleaseField::ProducersAliases => "producers.aliases"@,
            ReleaseField::ProducersLang => "producers.lang"@,
            ReleaseField::ProducersType => "producers.type"@,
            ReleaseField::ProducersDescription => "producers.description"@,
            ReleaseField::Released => "released"@,
            ReleaseField::MinAge => "minage"@,
            ReleaseField::Patch => "patch"@,
            ReleaseField::Freeware => "freeware"@,
            ReleaseField::Uncensored => "uncensored"@,
            ReleaseField::Official => "official"@,
            ReleaseField::HasEro => "has_ero"@,
            ReleaseField::Resolution => "resolution"@,
            ReleaseField::Engine => "engine"@,
            ReleaseField::Voiced => "voiced"@,
            ReleaseField::Notes => "notes"@,
            ReleaseField::Gtin => "gtin"@,
            ReleaseField::Catalog => "catalog"@,
            ReleaseField::ExtlinksUrl => "extlinks.url"@,
            ReleaseField::ExtlinksLabel => "extlinks.label"@,
            ReleaseField::ExtlinksName => "extlinks.name"@,
            ReleaseField::ExtlinksId => "extlinks.id"@,
        }
    }

    fn wire_name(self) -> (r: &'static str) {
        match self {
            ReleaseField::Id => "id",
            ReleaseField::Title => "title",
            ReleaseField::Alttitle => "alttitle",
            ReleaseField::LanguagesLang => "languages.lang",
            ReleaseField::LanguagesTitle => "languages.title",
            ReleaseField::LanguagesLatin => "languages.latin",
            ReleaseField::LaguagesMtl => "languages.mtl",
            ReleaseField::LanguagesMain => "languages.main",
            ReleaseField::Platforms => "platforms",
            ReleaseField::MediaMedium => "media.medium",
            ReleaseField::MediaQty => "media.qty",
            ReleaseField::VnsRtype => "vns.rtype",
            ReleaseField::VnsId => "vns.id",
            ReleaseField::VnsTitle => "vns.title",
            ReleaseField::ProducersDeveloper => "producers.developer",
            ReleaseField::ProducersPublisher => "producers.publisher",
            ReleaseField::ProducersId => "producers.id",
            ReleaseField::ProducersName => "producers.name",
            ReleaseField::ProducersOriginal => "producers.original",
            ReleaseField::ProducersAliases => "producers.aliases",
            ReleaseField::ProducersLang => "producers.lang",
            ReleaseField::ProducersType => "producers.type",
            ReleaseField::ProducersDescription => "producers.description",
            ReleaseField::Released => "released",
            ReleaseField::MinAge => "minage",
            ReleaseField::Patch => "patch",
            ReleaseField::Freeware => "freeware",
            ReleaseField::Uncensored => "uncensored",
            ReleaseField::Official => "official",
            ReleaseField::HasEro => "has_ero",
            ReleaseField::Resolution => "resolution",
            ReleaseField::Engine => "engine",
            ReleaseField::Voiced => "voiced",
            ReleaseField::Notes => "notes",
            ReleaseField::Gtin => "gtin",
            ReleaseField::Catalog => "catalog",
            ReleaseField::ExtlinksUrl => "extlinks.url",
            ReleaseField::ExtlinksLabel => "extlinks.label",
            ReleaseField::ExtlinksName => "extlinks.name",
            ReleaseField::ExtlinksId => "extlinks.id",
        }
    }
}

/// The position of each field in the declared enumeration.
pub open spec fn release_field_pos(f: ReleaseField) -> int {
    match f {
        ReleaseField::Id => 0,
        ReleaseField::Title => 1,
        ReleaseField::Alttitle => 2,
        ReleaseField::LanguagesLang => 3,
        ReleaseField::LanguagesTitle => 4,
        ReleaseField::LanguagesLatin => 5,
        ReleaseField::LaguagesMtl => 6,
        ReleaseField::LanguagesMain => 7,
        ReleaseField::Platforms => 8,
        ReleaseField::MediaMedium => 9,
        ReleaseField::MediaQty => 10,
        ReleaseField::VnsRtype => 11,
        ReleaseField::VnsId => 12,
        ReleaseField::VnsTitle => 13,
        ReleaseField::ProducersDeveloper => 14,
        ReleaseField::ProducersPublisher => 15,
        ReleaseField::ProducersId => 16,
        ReleaseField::ProducersName => 17,
        ReleaseField::ProducersOriginal => 18,
        ReleaseField::ProducersAliases => 19,
        ReleaseField::ProducersLang => 20,
        ReleaseField::ProducersType => 21,
        ReleaseField::ProducersDescription => 22,
        ReleaseField::Released => 23,
        ReleaseField::MinAge => 24,
        ReleaseField::Patch => 25,
        ReleaseField::Freeware => 26,
        ReleaseField::Uncensored => 27,
        ReleaseField::Official => 28,
        ReleaseField::HasEro => 29,
        ReleaseField::Resolution => 30,
        ReleaseField::Engine => 31,
        ReleaseField::Voiced => 32,
        ReleaseField::Notes => 33,
        ReleaseField::Gtin => 34,
        ReleaseField::Catalog => 35,
        ReleaseField::ExtlinksUrl => 36,
        ReleaseField::ExtlinksLabel => 37,
        ReleaseField::ExtlinksName => 38,
        ReleaseField::ExtlinksId => 39,
    }
}

/// The field declared at position `i` (the last one for any position past
/// the end).
pub open spec fn release_field_at(i: int) -> ReleaseField {
    if i == 0 {
        ReleaseField::Id
    } else if i == 1 {
        ReleaseField::Title
    } else if i == 2 {
        ReleaseField::Alttitle
    } else if i == 3 {
        ReleaseField::LanguagesLang
    } else if i == 4 {
        ReleaseField::LanguagesTitle
    } else if i == 5 {
        ReleaseField::LanguagesLatin
    } else if i == 6 {
        ReleaseField::LaguagesMtl
    } else if i == 7 {
        ReleaseField::LanguagesMain
    } else if i == 8 {
        ReleaseField::Platforms
    } else if i == 9 {
        ReleaseField::MediaMedium
    } else if i == 10 {
        ReleaseField::MediaQty
    } else if i == 11 {
        ReleaseField::VnsRtype
    } else if i == 12 {
        ReleaseField::VnsId
    } else if i == 13 {
        ReleaseField::VnsTitle
    } else if i == 14 {
        ReleaseField::ProducersDeveloper
    } else if i == 15 {
        ReleaseField::ProducersPublisher
    } else if i == 16 {
        ReleaseField::ProducersId
    } else if i == 17 {
        ReleaseField::ProducersName
    } else if i == 18 {
        ReleaseField::ProducersOriginal
    } else if i == 19 {
        ReleaseField::ProducersAliases
    } else if i == 20 {
        ReleaseField::ProducersLang
    } else if i == 21 {
        ReleaseField::ProducersType
    } else if i == 22 {
        ReleaseField::ProducersDescription
    } else if i == 23 {
        ReleaseField::Released
    } else if i == 24 {
        ReleaseField::MinAge
    } else if i == 25 {
        ReleaseField::Patch
    } else if i == 26 {
        ReleaseField::Freeware
    } else if i == 27 {
        ReleaseField::Uncensored
    } else if i == 28 {
        ReleaseField::Official
    } else if i == 29 {
        ReleaseField::HasEro
    } else if i == 30 {
        ReleaseField::Resolution
    } else if i == 31 {
        ReleaseField::Engine
    } else if i == 32 {
        ReleaseField::Voiced
    } else if i == 33 {
        ReleaseField::Notes
    } else if i == 34 {
        ReleaseField::Gtin
    } else if i == 35 {
        ReleaseField::Catalog
    } else if i == 36 {
        ReleaseField::ExtlinksUrl
    } else if i == 37 {
        ReleaseField::ExtlinksLabel
    } else if i == 38 {
        ReleaseField::ExtlinksName
    } else {
        ReleaseField::ExtlinksId
    }
}

fn release_field_nth(i: usize) -> (r: ReleaseField)
    ensures
        r == release_field_at(i as int),
{
    match i {
        0 => ReleaseField::Id,
        1 => ReleaseField::Title,
        2 => ReleaseField::Alttitle,
        3 => ReleaseField::LanguagesLang,
        4 => ReleaseField::LanguagesTitle,
        5 => ReleaseField::LanguagesLatin,
        6 => ReleaseField::LaguagesMtl,
        7 => ReleaseField::LanguagesMain,
        8 => ReleaseField::Platforms,
        9 => ReleaseField::MediaMedium,
        10 => ReleaseField::MediaQty,
        11 => ReleaseField::VnsRtype,
        12 => ReleaseField::VnsId,
        13 => ReleaseField::VnsTitle,
        14 => ReleaseField::ProducersDeveloper,
        15 => ReleaseField::ProducersPublisher,
        16 => ReleaseField::ProducersId,
        17 => ReleaseField::ProducersName,
        18 => ReleaseField::ProducersOriginal,
        19 => ReleaseField::ProducersAliases,
        20 => ReleaseField::ProducersLang,
        21 => ReleaseField::ProducersType,
        22 => ReleaseField::ProducersDescription,
        23 => ReleaseField::Released,
        24 => ReleaseField::MinAge,
        25 => ReleaseField::Patch,
        26 => ReleaseField::Freeware,
        27 => ReleaseField::Uncensored,
        28 => ReleaseField::Official,
        29 => ReleaseField::HasEro,
        30 => ReleaseField::Resolution,
        31 => ReleaseField::Engine,
        32 => ReleaseField::Voiced,
        33 => ReleaseField::Notes,
        34 => ReleaseField::Gtin,
        35 => ReleaseField::Catalog,
        36 => ReleaseField::ExtlinksUrl,
        37 => ReleaseField::ExtlinksLabel,
        38 => ReleaseField::ExtlinksName,
        _ => ReleaseField::ExtlinksId,
    }
}

/// An ordered, duplicate-tolerant selection of release fields.
pub struct ReleaseFieldChoices(pub Vec<ReleaseField>);

impl ReleaseFieldChoices {
    /// Every selectable field, in declaration order.
    pub open spec fn spec_all() -> Seq<ReleaseField> {
        Seq::new(40, |i: int| release_field_at(i))
    }

    /// Selects nothing beyond the always-included primary fields.
    pub fn new() -> (r: Self)
        ensures
            r.0@ == Seq::<ReleaseField>::empty(),
    {
        ReleaseFieldChoices(Vec::new())
    }

    /// A caller-chosen selection; duplicates and any order are permitted.
    pub fn from(vec: Vec<ReleaseField>) -> (r: Self)
        ensures
            r.0@ == vec@,
    {
        ReleaseFieldChoices(vec)
    }

    /// Every known field of the resource, in declaration order.
    pub fn all() -> (r: Self)
        ensures
            r.0@ == Self::spec_all(),
    {
        let mut v: Vec<ReleaseField> = Vec::new();
        for i in 0..40usize
            invariant
                v@.len() == i as int,
                forall|k: int| 0 <= k < i as int ==> v@[k] == Self::spec_all()[k],
        {
            v.push(release_field_nth(i));
        }
        proof {
            assert(v@ =~= Self::spec_all());
        }
        ReleaseFieldChoices(v)
    }

    /// The selection rendered as the wire `fields` parameter: names joined
    /// by `,`, in order, with no trailing separator.
    pub fn to_csv(&self) -> (r: String)
        ensures
            r@ == spec_csv(self.0@.map_values(|f: ReleaseField| f.spec_wire())),
    {
        fields_csv(&self.0)
    }
}

/// `all()` holds every declared field exactly once, in declaration order,
/// so its CSV rendering lists each field name once, in that order.
pub proof fn lemma_release_all_fields_once()
    ensures
        forall|i: int, j: int|
            0 <= i < j < ReleaseFieldChoices::spec_all().len() ==> ReleaseFieldChoices::spec_all()[i]
                != ReleaseFieldChoices::spec_all()[j],
{
    assert forall|i: int| 0 <= i < 40 implies release_field_pos(#[trigger] release_field_at(i))
        == i by {}
    assert forall|i: int, j: int|
        0 <= i < j < ReleaseFieldChoices::spec_all().len() implies ReleaseFieldChoices::spec_all()[i]
        != ReleaseFieldChoices::spec_all()[j] by {
        assert(release_field_pos(release_field_at(i)) == i);
        assert(release_field_pos(release_field_at(j)) == j);
    }
}

impl QueryBuilder<ReleaseQuery> {
    /// Chooses which fields to fetch; the selection is stored as its CSV
    /// rendering.
    pub fn fields(self, fields: ReleaseFieldChoices) -> (r: Self)
        ensures
            fields.0@.len() == 0 ==> r.fields == Option::<String>::None,
            fields.0@.len() > 0 ==> (r.fields matches Some(s) && s@ == spec_csv(
                fields.0@.map_values(|f: ReleaseField| f.spec_wire()),
            )),
            r.filters == self.filters,
            r.sort == self.sort,
            r.reverse == self.reverse,
            r.results == self.results,
            r.page == self.page,
            r.user == self.user,
            r.count == self.count,
            r.compact_filters == self.compact_filters,
            r.normalized_filters == self.normalized_filters,
    {
        let mut b = self;
        b.fields = if fields.0.len() == 0 {
            None
        } else {
            Some(fields.to_csv())
        };
        b
    }

    /// Asks the response to include the total match count.
    pub fn enable_count(self) -> (r: Self)
        ensures
            r == (QueryBuilder { count: Some(true), ..self }),
    {
        let mut b = self;
        b.count = Some(true);
        b
    }

    /// Sets the sort key if it applies to this resource; a key that does
    /// not is silently ignored and the previous sort kept.
    pub fn sort(self, sort_field: SortField) -> (r: Self)
        ensures
            r == (QueryBuilder {
                sort: if release_sort_allowed(sort_field) {
                    Some(sort_field)
                } else {
                    self.sort
                },
                ..self
            }),
    {
        let mut b = self;
        match sort_field {
            SortField::Id | SortField::Title | SortField::Released | SortField::Searchrank => {
                b.sort = Some(sort_field);
            },
            _ => {},
        }
        b
    }
}

} // verus!
