//! Field selection registry for visual-novel queries.

use vstd::prelude::*;

use crate::fields::{fields_csv, WireField};
use crate::query::{vn_sort_allowed, QueryBuilder, SortField, VnQuery};
use crate::wire::spec_csv;

verus! {

/// A selectable field of a visual-novel record, named by its dotted wire path.
#[derive(Clone, Copy, PartialEq, Eq, Structural, Debug)]
pub enum VnField {
    Id,
    Title,
    Alttitle,
    TitlesLang,
    TitlesTitle,
    TitlesLatin,
    TitlesOfficial,
    TitlesMain,
    Aliases,
    Olang,
    DevStatus,
    Released,
    Languages,
    Platforms,
    ImageId,
    ImageUrl,
    ImageDims,
    ImageSexual,
    ImageViolence,
    ImageVoteCount,
    ImageThumbnail,
    ImageThumbnailDims,
    Length,
    LengthMinutes,
    LengthVotes,
    Description,
    Average,
    Rating,
    VoteCount,
    ScreenshotsId,
    ScreenshotsUrl,
    ScreenshotsDims,
    ScreenshotsSexual,
    ScreenshotsViolence,
    ScreenshotsVoteCount,
    ScreenshotsThumbnail,
    ScreenshotsThumbnailDims,
    ScreenshotsReleaseId,
    ScreenshotsReleaseTitle,
    RelationsRelation,
    RelationsRelationOfficial,
    RelationsId,
    RelationsTitle,
    TagsRating,
    TagsSpoiler,
    TagsLie,
    TagsId,
    TagsName,
    TagsAliases,
    TagsDescription,
    TagsCategory,
    TagsSearchable,
    TagsApplicable,
    DevelopersId,
    DevelopersName,
    DevelopersOriginal,
    DevelopersAliases,
    DevelopersLang,
    DevelopersType,
    DevelopersDescription,
    EditionsEid,
    EditionsLang,
    EditionsName,
    EditionsOfficial,
    StaffEid,
    StaffRole,
    StaffNote,
    StaffId,
    StaffAid,
    StaffIsmain,
    StaffName,
    StaffLang,
    StaffGender,
    StaffDescription,
    StaffAliasesAid,
    StaffAliasesName,
    StaffAliasesLatin,
    StaffAliasesIsmain,
    VaNote,
    VaStaffId,
    VaStaffAid,
    VaStaffIsmain,
    VaStaffName,
    VaStaffLang,
    VaStaffGender,
    VaStaffDescription,
    VaCharacterId,
    VaCharacterName,
    VaStaffExtlinksUrl,
    VaStaffExtlinksLabel,
    VaStaffExtlinksName,
    VaStaffExtlinksId,
    VaStaffAliasesAid,
    VaStaffAliasesName,
    VaStaffAliasesLatin,
    VaStaffAliasesIsmain,
}

impl WireField for VnField {
    open spec fn spec_wire(self) -> Seq<char> {
        match self {
            VnField::Id => "id"@,
            VnField::Title => "title"@,
            VnField::Alttitle => "alttitle"@,
            VnField::TitlesLang => "titles.lang"@,
            VnField::TitlesTitle => "titles.title"@,
            VnField::TitlesLatin => "titles.latin"@,
            VnField::TitlesOfficial => "titles.official"@,
            VnField::TitlesMain => "titles.main"@,
            VnField::Aliases => "aliases"@,
            VnField::Olang => "olang"@,
            VnField::DevStatus => "devstatus"@,
            VnField::Released => "released"@,
            VnField::Languages => "languages"@,
            VnField::Platforms => "platforms"@,
            VnField::ImageId => "image.id"@,
            VnField::ImageUrl => "image.url"@,
            VnField::ImageDims => "image.dims"@,
            VnField::ImageSexual => "image.sexual"@,
            VnField::ImageViolence => "image.violence"@,
            VnField::ImageVoteCount => "image.votecount"@,
            VnField::ImageThumbnail => "image.thumbnail"@,
            VnField::ImageThumbnailDims => "image.thumbnail_dims"@,
            VnField::Length => "length"@,
            VnField::LengthMinutes => "length_minutes"@,
            VnField::LengthVotes => "length_votes"@,
            VnField::Description => "description"@,
            VnField::Average => "average"@,
            VnField::Rating => "rating"@,
            VnField::VoteCount => "votecount"@,
            VnField::ScreenshotsId => "screenshots.id"@,
            VnField::ScreenshotsUrl => "screenshots.url"@,
            VnField::ScreenshotsDims => "screenshots.dims"@,
            VnField::ScreenshotsSexual => "screenshots.sexual"@,
            VnField::ScreenshotsViolence => "screenshots.violence"@,
            VnField::ScreenshotsVoteCount => "screenshots.votecount"@,
            VnField::ScreenshotsThumbnail => "screenshots.thumbnail"@,
            VnField::ScreenshotsThumbnailDims => "screenshots.thumbnail_dims"@,
            VnField::ScreenshotsReleaseId => "screenshots.release.id"@,
            VnField::ScreenshotsReleaseTitle => "screenshots.release.title"@,
            VnField::RelationsRelation => "relations.relation"@,
            VnField::RelationsRelationOfficial => "relations.relation_official"@,
            VnField::RelationsId => "relations.id"@,
            VnField::RelationsTitle => "relations.title"@,
            VnField::TagsRating => "tags.rating"@,
            VnField::TagsSpoiler => "tags.spoiler"@,
            VnField::TagsLie => "tags.lie"@,
            VnField::TagsId => "tags.id"@,
            VnField::TagsName => "tags.name"@,
            VnField::TagsAliases => "tags.aliases"@,
            VnField::TagsDescription => "tags.description"@,
            VnField::TagsCategory => "tags.category"@,
            VnField::TagsSearchable => "tags.searchable"@,
            VnField::TagsApplicable => "tags.applicable"@,
            VnField::DevelopersId => "developers.id"@,
            VnField::DevelopersName => "developers.name"@,
            VnField::DevelopersOriginal => "developers.original"@,
            VnField::DevelopersAliases => "developers.aliases"@,
            VnField::DevelopersLang => "developers.lang"@,
            VnField::DevelopersType => "developers.type"@,
            VnField::DevelopersDescription => "developers.description"@,
            VnField::EditionsEid => "editions.eid"@,
            VnField::EditionsLang => "editions.lang"@,
            VnField::EditionsName => "editions.name"@,
            VnField::EditionsOfficial => "editions.official"@,
            VnField::StaffEid => "staff.eid"@,
            VnField::StaffRole => "staff.role"@,
            VnField::StaffNote => "staff.note"@,
            VnField::StaffId => "staff.id"@,
            VnField::StaffAid => "staff.aid"@,
            VnField::StaffIsmain => "staff.ismain"@,
            VnField::StaffName => "staff.name"@,
            VnField::StaffLang => "staff.lang"@,
            VnField::StaffGender => "staff.gender"@,
            VnField::StaffDescription => "staff.description"@,
            VnField::StaffAliasesAid => "staff.aliases.aid"@,
            VnField::StaffAliasesName => "staff.aliases.name"@,
            VnField::StaffAliasesLatin => "staff.aliases.latin"@,
            VnField::StaffAliasesIsmain => "staff.aliases.ismain"@,
            VnField::VaNote => "va.note"@,
            VnField::VaStaffId => "va.staff.id"@,
            VnField::VaStaffAid => "va.staff.aid"@,
            VnField::VaStaffIsmain => "va.staff.ismain"@,
            VnField::VaStaffName => "va.staff.name"@,
            VnField::VaStaffLang => "va.staff.lang"@,
            VnField::VaStaffGender => "va.staff.gender"@,
            VnField::VaStaffDescription => "va.staff.description"@,
            VnField::VaCharacterId => "va.character.id"@,
            VnField::VaCharacterName => "va.character.name"@,
            VnField::VaStaffExtlinksUrl => "va.staff.extlinks.url"@,
            VnField::VaStaffExtlinksLabel => "va.staff.extlinks.label"@,
            VnField::VaStaffExtlinksName => "va.staff.extlinks.name"@,
            VnField::VaStaffExtlinksId => "va.staff.extlinks.id"@,
            VnField::VaStaffAliasesAid => "va.staff.aliases.aid"@,
            VnField::VaStaffAliasesName => "va.staff.aliases.name"@,
            VnField::VaStaffAliasesLatin => "va.staff.aliases.latin"@,
            VnField::VaStaffAliasesIsmain => "va.staff.aliases.ismain"@,
        }
    }

    fn wire_name(self) -> (r: &'static str) {
        match self {
            VnField::Id => "id",
            VnField::Title => "title",
            VnField::Alttitle => "alttitle",
            VnField::TitlesLang => "titles.lang",
            VnField::TitlesTitle => "titles.title",
            VnField::TitlesLatin => "titles.latin",
            VnField::TitlesOfficial => "titles.official",
            VnField::TitlesMain => "titles.main",
            VnField::Aliases => "aliases",
            VnField::Olang => "olang",
            VnField::DevStatus => "devstatus",
            VnField::Released => "released",
            VnField::Languages => "languages",
            VnField::Platforms => "platforms",
            VnField::ImageId => "image.id",
            VnField::ImageUrl => "image.url",
            VnField::ImageDims => "image.dims",
            VnField::ImageSexual => "image.sexual",
            VnField::ImageViolence => "image.violence",
            VnField::ImageVoteCount => "image.votecount",
            VnField::ImageThumbnail => "image.thumbnail",
            VnField::ImageThumbnailDims => "image.thumbnail_dims",
            VnField::Length => "length",
            VnField::LengthMinutes => "length_minutes",
            VnField::LengthVotes => "length_votes",
            VnField::Description => "description",
            VnField::Average => "average",
            VnField::Rating => "rating",
            VnField::VoteCount => "votecount",
            VnField::ScreenshotsId => "screenshots.id",
            VnField::ScreenshotsUrl => "screenshots.url",
            VnField::ScreenshotsDims => "screenshots.dims",
            VnField::ScreenshotsSexual => "screenshots.sexual",
            VnField::ScreenshotsViolence => "screenshots.violence",
            VnField::ScreenshotsVoteCount => "screenshots.votecount",
            VnField::ScreenshotsThumbnail => "screenshots.thumbnail",
            VnField::ScreenshotsThumbnailDims => "screenshots.thumbnail_dims",
            VnField::ScreenshotsReleaseId => "screenshots.release.id",
            VnField::ScreenshotsReleaseTitle => "screenshots.release.title",
            VnField::RelationsRelation => "relations.relation",
            VnField::RelationsRelationOfficial => "relations.relation_official",
            VnField::RelationsId => "relations.id",
            VnField::RelationsTitle => "relations.title",
            VnField::TagsRating => "tags.rating",
            VnField::TagsSpoiler => "tags.spoiler",
            VnField::TagsLie => "tags.lie",
            VnField::TagsId => "tags.id",
            VnField::TagsName => "tags.name",
            VnField::TagsAliases => "tags.aliases",
            VnField::TagsDescription => "tags.description",
            VnField::TagsCategory => "tags.category",
            VnField::TagsSearchable => "tags.searchable",
            VnField::TagsApplicable => "tags.applicable",
            VnField::DevelopersId => "developers.id",
            VnField::DevelopersName => "developers.name",
            VnField::DevelopersOriginal => "developers.original",
            VnField::DevelopersAliases => "developers.aliases",
            VnField::DevelopersLang => "developers.lang",
            VnField::DevelopersType => "developers.type",
            VnField::DevelopersDescription => "developers.description",
            VnField::EditionsEid => "editions.eid",
            VnField::EditionsLang => "editions.lang",
            VnField::EditionsName => "editions.name",
            VnField::EditionsOfficial => "editions.official",
            VnField::StaffEid => "staff.eid",
            VnField::StaffRole => "staff.role",
            VnField::StaffNote => "staff.note",
            VnField::StaffId => "staff.id",
            VnField::StaffAid => "staff.aid",
            VnField::StaffIsmain => "staff.ismain",
            VnField::StaffName => "staff.name",
            VnField::StaffLang => "staff.lang",
            VnField::StaffGender => "staff.gender",
            VnField::StaffDescription => "staff.description",
            VnField::StaffAliasesAid => "staff.aliases.aid",
            VnField::StaffAliasesName => "staff.aliases.name",
            VnField::StaffAliasesLatin => "staff.aliases.latin",
            VnField::StaffAliasesIsmain => "staff.aliases.ismain",
            VnField::VaNote => "va.note",
            VnField::VaStaffId => "va.staff.id",
            VnField::VaStaffAid => "va.staff.aid",
            VnField::VaStaffIsmain => "va.staff.ismain",
            VnField::VaStaffName => "va.staff.name",
            VnField::VaStaffLang => "va.staff.lang",
            VnField::VaStaffGender => "va.staff.gender",
            VnField::VaStaffDescription => "va.staff.description",
            VnField::VaCharacterId => "va.character.id",
            VnField::VaCharacterName => "va.character.name",
            VnField::VaStaffExtlinksUrl => "va.staff.extlinks.url",
            VnField::VaStaffExtlinksLabel => "va.staff.extlinks.label",
            VnField::VaStaffExtlinksName => "va.staff.extlinks.name",
            VnField::VaStaffExtlinksId => "va.staff.extlinks.id",
            VnField::VaStaffAliasesAid => "va.staff.aliases.aid",
            VnField::VaStaffAliasesName => "va.staff.aliases.name",
            VnField::VaStaffAliasesLatin => "va.staff.aliases.latin",
            VnField::VaStaffAliasesIsmain => "va.staff.aliases.ismain",
        }
    }
}

/// The position of each field in the declared enumeration.
pub open spec fn vn_field_pos(f: VnField) -> int {
    match f {
        VnField::Id => 0,
        VnField::Title => 1,
        VnField::Alttitle => 2,
        VnField::TitlesLang => 3,
        VnField::TitlesTitle => 4,
        VnField::TitlesLatin => 5,
        VnField::TitlesOfficial => 6,
        VnField::TitlesMain => 7,
        VnField::Aliases => 8,
        VnField::Olang => 9,
        VnField::DevStatus => 10,
        VnField::Released => 11,
        VnField::Languages => 12,
        VnField::Platforms => 13,
        VnField::ImageId => 14,
        VnField::ImageUrl => 15,
        VnField::ImageDims => 16,
        VnField::ImageSexual => 17,
        VnField::ImageViolence => 18,
        VnField::ImageVoteCount => 19,
        VnField::ImageThumbnail => 20,
        VnField::ImageThumbnailDims => 21,
        VnField::Length => 22,
        VnField::LengthMinutes => 23,
        VnField::LengthVotes => 24,
        VnField::Description => 25,
        VnField::Average => 26,
        VnField::Rating => 27,
        VnField::VoteCount => 28,
        VnField::ScreenshotsId => 29,
        VnField::ScreenshotsUrl => 30,
        VnField::ScreenshotsDims => 31,
        VnField::ScreenshotsSexual => 32,
        VnField::ScreenshotsViolence => 33,
        VnField::ScreenshotsVoteCount => 34,
        VnField::ScreenshotsThumbnail => 35,
        VnField::ScreenshotsThumbnailDims => 36,
        VnField::ScreenshotsReleaseId => 37,
        VnField::ScreenshotsReleaseTitle => 38,
        VnField::RelationsRelation => 39,
        VnField::RelationsRelationOfficial => 40,
        VnField::RelationsId => 41,
        VnField::RelationsTitle => 42,
        VnField::TagsRating => 43,
        VnField::TagsSpoiler => 44,
        VnField::TagsLie => 45,
        VnField::TagsId => 46,
        VnField::TagsName => 47,
        VnField::TagsAliases => 48,
        VnField::TagsDescription => 49,
        VnField::TagsCategory => 50,
        VnField::TagsSearchable => 51,
        VnField::TagsApplicable => 52,
        VnField::DevelopersId => 53,
        VnField::DevelopersName => 54,
        VnField::DevelopersOriginal => 55,
        VnField::DevelopersAliases => 56,
        VnField::DevelopersLang => 57,
        VnField::DevelopersType => 58,
        VnField::DevelopersDescription => 59,
        VnField::EditionsEid => 60,
        VnField::EditionsLang => 61,
        VnField::EditionsName => 62,
        VnField::EditionsOfficial => 63,
        VnField::StaffEid => 64,
        VnField::StaffRole => 65,
        VnField::StaffNote => 66,
        VnField::StaffId => 67,
        VnField::StaffAid => 68,
        VnField::StaffIsmain => 69,
        VnField::StaffName => 70,
        VnField::StaffLang => 71,
        VnField::StaffGender => 72,
        VnField::StaffDescription => 73,
        VnField::StaffAliasesAid => 74,
        VnField::StaffAliasesName => 75,
        VnField::StaffAliasesLatin => 76,
        VnField::StaffAliasesIsmain => 77,
        VnField::VaNote => 78,
        VnField::VaStaffId => 79,
        VnField::VaStaffAid => 80,
        VnField::VaStaffIsmain => 81,
        VnField::VaStaffName => 82,
        VnField::VaStaffLang => 83,
        VnField::VaStaffGender => 84,
        VnField::VaStaffDescription => 85,
        VnField::VaCharacterId => 86,
        VnField::VaCharacterName => 87,
        VnField::VaStaffExtlinksUrl => 88,
        VnField::VaStaffExtlinksLabel => 89,
        VnField::VaStaffExtlinksName => 90,
        VnField::VaStaffExtlinksId => 91,
        VnField::VaStaffAliasesAid => 92,
        VnField::VaStaffAliasesName => 93,
        VnField::VaStaffAliasesLatin => 94,
        VnField::VaStaffAliasesIsmain => 95,
    }
}

/// The field declared at position `i` (the last one for any position past
/// the end).
pub open spec fn vn_field_at(i: int) -> VnField {
    if i == 0 {
        VnField::Id
    } else if i == 1 {
        VnField::Title
    } else if i == 2 {
        VnField::Alttitle
    } else if i == 3 {
        VnField::TitlesLang
    } else if i == 4 {
        VnField::TitlesTitle
    } else if i == 5 {
        VnField::TitlesLatin
    } else if i == 6 {
        VnField::TitlesOfficial
    } else if i == 7 {
        VnField::TitlesMain
    } else if i == 8 {
        VnField::Aliases
    } else if i == 9 {
        VnField::Olang
    } else if i == 10 {
        VnField::DevStatus
    } else if i == 11 {
        VnField::Released
    } else if i == 12 {
        VnField::Languages
    } else if i == 13 {
        VnField::Platforms
    } else if i == 14 {
        VnField::ImageId
    } else if i == 15 {
        VnField::ImageUrl
    } else if i == 16 {
        VnField::ImageDims
    } else if i == 17 {
        VnField::ImageSexual
    } else if i == 18 {
        VnField::ImageViolence
    } else if i == 19 {
        VnField::ImageVoteCount
    } else if i == 20 {
        VnField::ImageThumbnail
    } else if i == 21 {
        VnField::ImageThumbnailDims
    } else if i == 22 {
        VnField::Length
    } else if i == 23 {
        VnField::LengthMinutes
    } else if i == 24 {
        VnField::LengthVotes
    } else if i == 25 {
        VnField::Description
    } else if i == 26 {
        VnField::Average
    } else if i == 27 {
        VnField::Rating
    } else if i == 28 {
        VnField::VoteCount
    } else if i == 29 {
        VnField::ScreenshotsId
    } else if i == 30 {
        VnField::ScreenshotsUrl
    } else if i == 31 {
        VnField::ScreenshotsDims
    } else if i == 32 {
        VnField::ScreenshotsSexual
    } else if i == 33 {
        VnField::ScreenshotsViolence
    } else if i == 34 {
        VnField::ScreenshotsVoteCount
    } else if i == 35 {
        VnField::ScreenshotsThumbnail
    } else if i == 36 {
        VnField::ScreenshotsThumbnailDims
    } else if i == 37 {
        VnField::ScreenshotsReleaseId
    } else if i == 38 {
        VnField::ScreenshotsReleaseTitle
    } else if i == 39 {
        VnField::RelationsRelation
    } else if i == 40 {
        VnField::RelationsRelationOfficial
    } else if i == 41 {
        VnField::RelationsId
    } else if i == 42 {
        VnField::RelationsTitle
    } else if i == 43 {
        VnField::TagsRating
    } else if i == 44 {
        VnField::TagsSpoiler
    } else if i == 45 {
        VnField::TagsLie
    } else if i == 46 {
        VnField::TagsId
    } else if i == 47 {
        VnField::TagsName
    } else if i == 48 {
        VnField::TagsAliases
    } else if i == 49 {
        VnField::TagsDescription
    } else if i == 50 {
        VnField::TagsCategory
    } else if i == 51 {
        VnField::TagsSearchable
    } else if i == 52 {
        VnField::TagsApplicable
    } else if i == 53 {
        VnField::DevelopersId
    } else if i == 54 {
        VnField::DevelopersName
    } else if i == 55 {
        VnField::DevelopersOriginal
    } else if i == 56 {
        VnField::DevelopersAliases
    } else if i == 57 {
        VnField::DevelopersLang
    } else if i == 58 {
        VnField::DevelopersType
    } else if i == 59 {
        VnField::DevelopersDescription
    } else if i == 60 {
        VnField::EditionsEid
    } else if i == 61 {
        VnField::EditionsLang
    } else if i == 62 {
        VnField::EditionsName
    } else if i == 63 {
        VnField::EditionsOfficial
    } else if i == 64 {
        VnField::StaffEid
    } else if i == 65 {
        VnField::StaffRole
    } else if i == 66 {
        VnField::StaffNote
    } else if i == 67 {
        VnField::StaffId
    } else if i == 68 {
        VnField::StaffAid
    } else if i == 69 {
        VnField::StaffIsmain
    } else if i == 70 {
        VnField::StaffName
    } else if i == 71 {
        VnField::StaffLang
    } else if i == 72 {
        VnField::StaffGender
    } else if i == 73 {
        VnField::StaffDescription
    } else if i == 74 {
        VnField::StaffAliasesAid
    } else if i == 75 {
        VnField::StaffAliasesName
    } else if i == 76 {
        VnField::StaffAliasesLatin
    } else if i == 77 {
        VnField::StaffAliasesIsmain
    } else if i == 78 {
        VnField::VaNote
    } else if i == 79 {
        VnField::VaStaffId
    } else if i == 80 {
        VnField::VaStaffAid
    } else if i == 81 {
        VnField::VaStaffIsmain
    } else if i == 82 {
        VnField::VaStaffName
    } else if i == 83 {
        VnField::VaStaffLang
    } else if i == 84 {
        VnField::VaStaffGender
    } else if i == 85 {
        VnField::VaStaffDescription
    } else if i == 86 {
        VnField::VaCharacterId
    } else if i == 87 {
        VnField::VaCharacterName
    } else if i == 88 {
        VnField::VaStaffExtlinksUrl
    } else if i == 89 {
        VnField::VaStaffExtlinksLabel
    } else if i == 90 {
        VnField::VaStaffExtlinksName
    } else if i == 91 {
        VnField::VaStaffExtlinksId
    } else if i == 92 {
        VnField::VaStaffAliasesAid
    } else if i == 93 {
        VnField::VaStaffAliasesName
    } else if i == 94 {
        VnField::VaStaffAliasesLatin
    } else {
        VnField::VaStaffAliasesIsmain
    }
}

fn vn_field_nth(i: usize) -> (r: VnField)
    ensures
        r == vn_field_at(i as int),
{
    match i {
        0 => VnField::Id,
        1 => VnField::Title,
        2 => VnField::Alttitle,
        3 => VnField::TitlesLang,
        4 => VnField::TitlesTitle,
        5 => VnField::TitlesLatin,
        6 => VnField::TitlesOfficial,
        7 => VnField::TitlesMain,
        8 => VnField::Aliases,
        9 => VnField::Olang,
        10 => VnField::DevStatus,
        11 => VnField::Released,
        12 => VnField::Languages,
        13 => VnField::Platforms,
        14 => VnField::ImageId,
        15 => VnField::ImageUrl,
        16 => VnField::ImageDims,
        17 => VnField::ImageSexual,
        18 => VnField::ImageViolence,
        19 => VnField::ImageVoteCount,
        20 => VnField::ImageThumbnail,
        21 => VnField::ImageThumbnailDims,
        22 => VnField::Length,
        23 => VnField::LengthMinutes,
        24 => VnField::LengthVotes,
        25 => VnField::Description,
        26 => VnField::Average,
        27 => VnField::Rating,
        28 => VnField::VoteCount,
        29 => VnField::ScreenshotsId,
        30 => VnField::ScreenshotsUrl,
        31 => VnField::ScreenshotsDims,
        32 => VnField::ScreenshotsSexual,
        33 => VnField::ScreenshotsViolence,
        34 => VnField::ScreenshotsVoteCount,
        35 => VnField::ScreenshotsThumbnail,
        36 => VnField::ScreenshotsThumbnailDims,
        37 => VnField::ScreenshotsReleaseId,
        38 => VnField::ScreenshotsReleaseTitle,
        39 => VnField::RelationsRelation,
        40 => VnField::RelationsRelationOfficial,
        41 => VnField::RelationsId,
        42 => VnField::RelationsTitle,
        43 => VnField::TagsRating,
        44 => VnField::TagsSpoiler,
        45 => VnField::TagsLie,
        46 => VnField::TagsId,
        47 => VnField::TagsName,
        48 => VnField::TagsAliases,
        49 => VnField::TagsDescription,
        50 => VnField::TagsCategory,
        51 => VnField::TagsSearchable,
        52 => VnField::TagsApplicable,
        53 => VnField::DevelopersId,
        54 => VnField::DevelopersName,
        55 => VnField::DevelopersOriginal,
        56 => VnField::DevelopersAliases,
        57 => VnField::DevelopersLang,
        58 => VnField::DevelopersType,
        59 => VnField::DevelopersDescription,
        60 => VnField::EditionsEid,
        61 => VnField::EditionsLang,
        62 => VnField::EditionsName,
        63 => VnField::EditionsOfficial,
        64 => VnField::StaffEid,
        65 => VnField::StaffRole,
        66 => VnField::StaffNote,
        67 => VnField::StaffId,
        68 => VnField::StaffAid,
        69 => VnField::StaffIsmain,
        70 => VnField::StaffName,
        71 => VnField::StaffLang,
        72 => VnField::StaffGender,
        73 => VnField::StaffDescription,
        74 => VnField::StaffAliasesAid,
        75 => VnField::StaffAliasesName,
        76 => VnField::StaffAliasesLatin,
        77 => VnField::StaffAliasesIsmain,
        78 => VnField::VaNote,
        79 => VnField::VaStaffId,
        80 => VnField::VaStaffAid,
        81 => VnField::VaStaffIsmain,
        82 => VnField::VaStaffName,
        83 => VnField::VaStaffLang,
        84 => VnField::VaStaffGender,
        85 => VnField::VaStaffDescription,
        86 => VnField::VaCharacterId,
        87 => VnField::VaCharacterName,
        88 => VnField::VaStaffExtlinksUrl,
        89 => VnField::VaStaffExtlinksLabel,
        90 => VnField::VaStaffExtlinksName,
        91 => VnField::VaStaffExtlinksId,
        92 => VnField::VaStaffAliasesAid,
        93 => VnField::VaStaffAliasesName,
        94 => VnField::VaStaffAliasesLatin,
        _ => VnField::VaStaffAliasesIsmain,
    }
}

/// An ordered, duplicate-tolerant selection of visual-novel fields.
pub struct VnFieldChoices(pub Vec<VnField>);

impl VnFieldChoices {
    /// Every selectable field, in declaration order.
    pub open spec fn spec_all() -> Seq<VnField> {
        Seq::new(96, |i: int| vn_field_at(i))
    }

    /// Selects nothing beyond the always-included primary fields.
    pub fn new() -> (r: Self)
        ensures
            r.0@ == Seq::<VnField>::empty(),
    {
        VnFieldChoices(Vec::new())
    }

    /// A caller-chosen selection; duplicates and any order are permitted.
    pub fn from(vec: Vec<VnField>) -> (r: Self)
        ensures
            r.0@ == vec@,
    {
        VnFieldChoices(vec)
    }

    /// Every known field of the resource, in declaration order.
    pub fn all() -> (r: Self)
        ensures
            r.0@ == Self::spec_all(),
    {
        let mut v: Vec<VnField> = Vec::new();
        for i in 0..96usize
            invariant
                v@.len() == i as int,
                forall|k: int| 0 <= k < i as int ==> v@[k] == Self::spec_all()[k],
        {
            v.push(vn_field_nth(i));
        }
        proof {
            assert(v@ =~= Self::spec_all());
        }
        VnFieldChoices(v)
    }

    /// The selection rendered as the wire `fields` parameter: names joined
    /// by `,`, in order, with no trailing separator.
    pub fn to_csv(&self) -> (r: String)
        ensures
            r@ == spec_csv(self.0@.map_values(|f: VnField| f.spec_wire())),
    {
        fields_csv(&self.0)
    }
}

/// `all()` holds every declared field exactly once, in declaration order,
/// so its CSV rendering lists each field name once, in that order.
pub proof fn lemma_vn_all_fields_once()
    ensures
        forall|i: int, j: int|
            0 <= i < j < VnFieldChoices::spec_all().len() ==> VnFieldChoices::spec_all()[i]
                != VnFieldChoices::spec_all()[j],
{
    assert forall|i: int| 0 <= i < 96 implies vn_field_pos(#[trigger] vn_field_at(i))
        == i by {}
    assert forall|i: int, j: int|
        0 <= i < j < VnFieldChoices::spec_all().len() implies VnFieldChoices::spec_all()[i]
        != VnFieldChoices::spec_all()[j] by {
        assert(vn_field_pos(vn_field_at(i)) == i);
        assert(vn_field_pos(vn_field_at(j)) == j);
    }
}

impl QueryBuilder<VnQuery> {
    /// Chooses which fields to fetch; the selection is stored as its CSV
    /// rendering.
    pub fn fields(self, fields: VnFieldChoices) -> (r: Self)
        ensures
            fields.0@.len() == 0 ==> r.fields == Option::<String>::None,
            fields.0@.len() > 0 ==> (r.fields matches Some(s) && s@ == spec_csv(
                fields.0@.map_values(|f: VnField| f.spec_wire()),
            )),
            r.filters == self.filters,
            r.sort == self.sort,
            r.reverse == self.reverse,
            r.results == self.results,
            r.page == self.page,
            r.user == self.user,
            r.count == self.count,
            r.compact_filters == self.compact_filters,
            r.normalized_filters == self.normalized_filters,
    {
        let mut b = self;
        b.fields = if fields.0.len() == 0 {
            None
        } else {
            Some(fields.to_csv())
        };
        b
    }

    /// Asks the response to include the total match count.
    pub fn enable_count(self) -> (r: Self)
        ensures
            r == (QueryBuilder { count: Some(true), ..self }),
    {
        let mut b = self;
        b.count = Some(true);
        b
    }

    /// Sets the sort key if it applies to this resource; a key that does
    /// not is silently ignored and the previous sort kept.
    pub fn sort(self, sort_field: SortField) -> (r: Self)
        ensures
            r == (QueryBuilder {
                sort: if vn_sort_allowed(sort_field) {
                    Some(sort_field)
                } else {
                    self.sort
                },
                ..self
            }),
    {
        let mut b = self;
        match sort_field {
            SortField::Id | SortField::Title | SortField::Released | SortField::Rating | SortField::Votecount | SortField::Searchrank => {
                b.sort = Some(sort_field);
            },
            _ => {},
        }
        b
    }
}

} // verus!
