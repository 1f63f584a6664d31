//! Field selection registry for user-list queries.

use vstd::prelude::*;

use crate::fields::{fields_csv, WireField};
use crate::query::{ulist_sort_allowed, QueryBuilder, SortField, UListQuery};
use crate::wire::spec_csv;

verus! {

/// A selectable field of a user-list record, named by its dotted wire path.
#[derive(Clone, Copy, PartialEq, Eq, Structural, Debug)]
pub enum UListField {
    Id,
    Added,
    Voted,
    LastMod,
    Vote,
    Started,
    Finished,
    Notes,
    LabelsId,
    LabelsLabel,
    VnId,
    VnTitle,
    VnAlttitle,
    VnTitlesLang,
    VnTitlesTitle,
    VnTitlesLatin,
    VnTitlesOfficial,
    VnTitlesMain,
    VnAliases,
    VnOlang,
    VnDevStatus,
    VnReleased,
    VnLanguages,
    VnPlatforms,
    VnImageId,
    VnImageUrl,
    VnImageDims,
    VnImageSexual,
    VnImageViolence,
    VnImageVoteCount,
    VnImageThumbnail,
    VnImageThumbnailDims,
    VnLength,
    VnLengthMinutes,
    VnLengthVotes,
    VnDescription,
    VnAverage,
    VnRating,
    VnVoteCount,
    VnScreenshotsId,
    VnScreenshotsUrl,
    VnScreenshotsDims,
    VnScreenshotsSexual,
    VnScreenshotsViolence,
    VnScreenshotsVoteCount,
    VnScreenshotsThumbnail,
    VnScreenshotsThumbnailDims,
    VnScreenshotsReleaseId,
    VnScreenshotsReleaseTitle,
    VnRelationsRelation,
    VnRelationsRelationOfficial,
    VnRelationsId,
    VnRelationsTitle,
    VnTagsRating,
    VnTagsSpoiler,
    VnTagsLie,
    VnTagsId,
    VnTagsName,
    VnTagsAliases,
    VnTagsDescription,
    VnTagsCategory,
    VnTagsSearchable,
    VnTagsApplicable,
    VnDevelopersId,
    VnDevelopersName,
    VnDevelopersOriginal,
    VnDevelopersAliases,
    VnDevelopersLang,
    VnDevelopersType,
    VnDevelopersDescription,
    VnEditionsEid,
    VnEditionsLang,
    VnEditionsName,
    VnEditionsOfficial,
    VnStaffEid,
    VnStaffRole,
    VnStaffNote,
    VnStaffId,
    VnStaffAid,
    VnStaffIsmain,
    VnStaffName,
    VnStaffLang,
    VnStaffGender,
    VnStaffDescription,
    VnStaffAliasesAid,
    VnStaffAliasesName,
    VnStaffAliasesLatin,
    VnStaffAliasesIsmain,
    VnVaNote,
    VnVaStaffId,
    VnVaStaffAid,
    VnVaStaffIsmain,
    VnVaStaffName,
    VnVaStaffLang,
    VnVaStaffGender,
    VnVaStaffDescription,
    VnVaCharacterId,
    VnVaCharacterName,
    VnVaStaffExtlinksUrl,
    VnVaStaffExtlinksLabel,
    VnVaStaffExtlinksName,
    VnVaStaffExtlinksId,
    VnVaStaffAliasesAid,
    VnVaStaffAliasesName,
    VnVaStaffAliasesLatin,
    VnVaStaffAliasesIsmain,
    ReleasesListStatus,
    ReleasesId,
    ReleasesTitle,
    ReleasesAlttitle,
    ReleasesLanguagesLang,
    ReleasesLanguagesTitle,
    ReleasesLanguagesLatin,
    ReleasesLaguagesMtl,
    ReleasesLanguagesMain,
    ReleasesPlatforms,
    ReleasesMediaMedium,
    ReleasesMediaQty,
    ReleasesVnsRtype,
    ReleasesVnsId,
    ReleasesVnsTitle,
    ReleasesProducersDeveloper,
    ReleasesProducersPublisher,
    ReleasesProducersId,
    ReleasesProducersName,
    ReleasesProducersOriginal,
    ReleasesProducersAliases,
    ReleasesProducersLang,
    ReleasesProducersType,
    ReleasesProducersDescription,
    ReleasesReleased,
    ReleasesMinAge,
    ReleasesPatch,
    ReleasesFreeware,
    ReleasesUncensored,
    ReleasesOfficial,
    ReleasesHasEro,
    ReleasesResolution,
    ReleasesEngine,
    ReleasesVoiced,
    ReleasesNotes,
    ReleasesGtin,
    ReleasesCatalog,
    ReleasesExtlinksUrl,
    ReleasesExtlinksLabel,
    ReleasesExtlinksName,
    ReleasesExtlinksId,
}

impl WireField for UListField {
    open spec fn spec_wire(self) -> Seq<char> {
        match self {
            UListField::Id => "id"@,
            UListField::Added => "added"@,
            UListField::Voted => "voted"@,
            UListField::LastMod => "lastmod"@,
            UListField::Vote => "vote"@,
            UListField::Started => "started"@,
            UListField::Finished => "finished"@,
            UListField::Notes => "notes"@,
            UListField::LabelsId => "labels.id"@,
            UListField::LabelsLabel => "labels.label"@,
            UListField::VnId => "vn.id"@,
            UListField::VnTitle => "vn.title"@,
            UListField::VnAlttitle => "vn.alttitle"@,
            UListField::VnTitlesLang => "vn.titles.lang"@,
            UListField::VnTitlesTitle => "vn.titles.title"@,
            UListField::VnTitlesLatin => "vn.titles.latin"@,
            UListField::VnTitlesOfficial => "vn.titles.official"@,
            UListField::VnTitlesMain => "vn.titles.main"@,
            UListField::VnAliases => "vn.aliases"@,
            UListField::VnOlang => "vn.olang"@,
            UListField::VnDevStatus => "vn.devstatus"@,
            UListField::VnReleased => "vn.released"@,
            UListField::VnLanguages => "vn.languages"@,
            UListField::VnPlatforms => "vn.platforms"@,
            UListField::VnImageId => "vn.image.id"@,
            UListField::VnImageUrl => "vn.image.url"@,
            UListField::VnImageDims => "vn.image.dims"@,
            UListField::VnImageSexual => "vn.image.sexual"@,
            UListField::VnImageViolence => "vn.image.violence"@,
            UListField::VnImageVoteCount => "vn.image.votecount"@,
            UListField::VnImageThumbnail => "vn.image.thumbnail"@,
            UListField::VnImageThumbnailDims => "vn.image.thumbnail_dims"@,
            UListField::VnLength => "vn.length"@,
            UListField::VnLengthMinutes => "vn.length_minutes"@,
            UListField::VnLengthVotes => "vn.length_votes"@,
            UListField::VnDescription => "vn.description"@,
            UListField::VnAverage => "vn.average"@,
            UListField::VnRating => "vn.rating"@,
            UListField::VnVoteCount => "vn.votecount"@,
            UListField::VnScreenshotsId => "vn.screenshots.id"@,
            UListField::VnScreenshotsUrl => "vn.screenshots.url"@,
            UListField::VnScreenshotsDims => "vn.screenshots.dims"@,
            UListField::VnScreenshotsSexual => "vn.screenshots.sexual"@,
            UListField::VnScreenshotsViolence => "vn.screenshots.violence"@,
            UListField::VnScreenshotsVoteCount => "vn.screenshots.votecount"@,
            UListField::VnScreenshotsThumbnail => "vn.screenshots.thumbnail"@,
            UListField::VnScreenshotsThumbnailDims => "vn.screenshots.thumbnail_dims"@,
            UListField::VnScreenshotsReleaseId => "vn.screenshots.release.id"@,
            UListField::VnScreenshotsReleaseTitle => "vn.screenshots.release.title"@,
            UListField::VnRelationsRelation => "vn.relations.relation"@,
            UListField::VnRelationsRelationOfficial => "vn.relations.relation_official"@,
            UListField::VnRelationsId => "vn.relations.id"@,
            UListField::VnRelationsTitle => "vn.relations.title"@,
            UListField::VnTagsRating => "vn.tags.rating"@,
            UListField::VnTagsSpoiler => "vn.tags.spoiler"@,
            UListField::VnTagsLie => "vn.tags.lie"@,
            UListField::VnTagsId => "vn.tags.id"@,
            UListField::VnTagsName => "vn.tags.name"@,
            UListField::VnTagsAliases => "vn.tags.aliases"@,
            UListField::VnTagsDescription => "vn.tags.description"@,
            UListField::VnTagsCategory => "vn.tags.category"@,
            UListField::VnTagsSearchable => "vn.tags.searchable"@,
            UListField::VnTagsApplicable => "vn.tags.applicable"@,
            UListField::VnDevelopersId => "vn.developers.id"@,
            UListField::VnDevelopersName => "vn.developers.name"@,
            UListField::VnDevelopersOriginal => "vn.developers.original"@,
            UListField::VnDevelopersAliases => "vn.developers.aliases"@,
            UListField::VnDevelopersLang => "vn.developers.lang"@,
            UListField::VnDevelopersType => "vn.developers.type"@,
            UListField::VnDevelopersDescription => "vn.developers.description"@,
            UListField::VnEditionsEid => "vn.editions.eid"@,
            UListField::VnEditionsLang => "vn.editions.lang"@,
            UListField::VnEditionsName => "vn.editions.name"@,
            UListField::VnEditionsOfficial => "vn.editions.official"@,
            UListField::VnStaffEid => "vn.staff.eid"@,
            UListField::VnStaffRole => "vn.staff.role"@,
            UListField::VnStaffNote => "vn.staff.note"@,
            UListField::VnStaffId => "vn.staff.id"@,
            UListField::VnStaffAid => "vn.staff.aid"@,
            UListField::VnStaffIsmain => "vn.staff.ismain"@,
            UListField::VnStaffName => "vn.staff.name"@,
            UListField::VnStaffLang => "vn.staff.lang"@,
            UListField::VnStaffGender => "vn.staff.gender"@,
            UListField::VnStaffDescription => "vn.staff.description"@,
            UListField::VnStaffAliasesAid => "vn.staff.aliases.aid"@,
            UListField::VnStaffAliasesName => "vn.staff.aliases.name"@,
            UListField::VnStaffAliasesLatin => "vn.staff.aliases.latin"@,
            UListField::VnStaffAliasesIsmain => "vn.staff.aliases.ismain"@,
            UListField::VnVaNote => "vn.va.note"@,
            UListField::VnVaStaffId => "vn.va.staff.id"@,
            UListField::VnVaStaffAid => "vn.va.staff.aid"@,
            UListField::VnVaStaffIsmain => "vn.va.staff.ismain"@,
            UListField::VnVaStaffName => "vn.va.staff.name"@,
            UListField::VnVaStaffLang => "vn.va.staff.lang"@,
            UListField::VnVaStaffGender => "vn.va.staff.gender"@,
            UListField::VnVaStaffDescription => "vn.va.staff.description"@,
            UListField::VnVaCharacterId => "vn.va.character.id"@,
            UListField::VnVaCharacterName => "vn.va.character.name"@,
            UListField::VnVaStaffExtlinksUrl => "vn.va.staff.extlinks.url"@,
            UListField::VnVaStaffExtlinksLabel => "vn.va.staff.extlinks.label"@,
            UListField::VnVaStaffExtlinksName => "vn.va.staff.extlinks.name"@,
            UListField::VnVaStaffExtlinksId => "vn.va.staff.extlinks.id"@,
            UListField::VnVaStaffAliasesAid => "vn.va.staff.aliases.aid"@,
            UListField::VnVaStaffAliasesName => "vn.va.staff.aliases.name"@,
            UListField::VnVaStaffAliasesLatin => "vn.va.staff.aliases.latin"@,
            UListField::VnVaStaffAliasesIsmain => "vn.va.staff.aliases.ismain"@,
            UListField::ReleasesListStatus => "releases.list_status"@,
            UListField::ReleasesId => "releases.id"@,
            UListField::ReleasesTitle => "releases.title"@,
            UListField::ReleasesAlttitle => "releases.alttitle"@,
            UListField::ReleasesLanguagesLang => "releases.languages.lang"@,
            UListField::ReleasesLanguagesTitle => "releases.languages.title"@,
            UListField::ReleasesLanguagesLatin => "releases.languages.latin"@,
            UListField::ReleasesLaguagesMtl => "releases.languages.mtl"@,
            UListField::ReleasesLanguagesMain => "releases.languages.main"@,
            UListField::ReleasesPlatforms => "releases.platforms"@,
            UListField::ReleasesMediaMedium => "releases.media.medium"@,
            UListField::ReleasesMediaQty => "releases.media.qty"@,
            UListField::ReleasesVnsRtype => "releases.vns.rtype"@,
            UListField::ReleasesVnsId => "releases.vns.id"@,
            UListField::ReleasesVnsTitle => "releases.vns.title"@,
            UListField::ReleasesProducersDeveloper => "releases.producers.developer"@,
            UListField::ReleasesProducersPublisher => "releases.producers.publisher"@,
            UListField::ReleasesProducersId => "releases.producers.id"@,
            UListField::ReleasesProducersName => "releases.producers.name"@,
            UListField::ReleasesProducersOriginal => "releases.producers.original"@,
            UListField::ReleasesProducersAliases => "releases.producers.aliases"@,
            UListField::ReleasesProducersLang => "releases.producers.lang"@,
            UListField::ReleasesProducersType => "releases.producers.type"@,
            UListField::ReleasesProducersDescription => "releases.producers.description"@,
            UListField::ReleasesReleased => "releases.released"@,
            UListField::ReleasesMinAge => "releases.minage"@,
            UListField::ReleasesPatch => "releases.patch"@,
            UListField::ReleasesFreeware => "releases.freeware"@,
            UListField::ReleasesUncensored => "releases.uncensored"@,
            UListField::ReleasesOfficial => "releases.official"@,
            UListField::ReleasesHasEro => "releases.has_ero"@,
            UListField::ReleasesResolution => "releases.resolution"@,
            UListField::ReleasesEngine => "releases.engine"@,
            UListField::ReleasesVoiced => "releases.voiced"@,
            UListField::ReleasesNotes => "releases.notes"@,
            UListField::ReleasesGtin => "releases.gtin"@,
            UListField::ReleasesCatalog => "releases.catalog"@,
            UListField::ReleasesExtlinksUrl => "releases.extlinks.url"@,
            UListField::ReleasesExtlinksLabel => "releases.extlinks.label"@,
            UListField::ReleasesExtlinksName => "releases.extlinks.name"@,
            UListField::ReleasesExtlinksId => "releases.extlinks.id"@,
        }
    }

    fn wire_name(self) -> (r: &'static str) {
        match self {
            UListField::Id => "id",
            UListField::Added => "added",
            UListField::Voted => "voted",
            UListField::LastMod => "lastmod",
            UListField::Vote => "vote",
            UListField::Started => "started",
            UListField::Finished => "finished",
            UListField::Notes => "notes",
            UListField::LabelsId => "labels.id",
            UListField::LabelsLabel => "labels.label",
            UListField::VnId => "vn.id",
            UListField::VnTitle => "vn.title",
            UListField::VnAlttitle => "vn.alttitle",
            UListField::VnTitlesLang => "vn.titles.lang",
            UListField::VnTitlesTitle => "vn.titles.title",
            UListField::VnTitlesLatin => "vn.titles.latin",
            UListField::VnTitlesOfficial => "vn.titles.official",
            UListField::VnTitlesMain => "vn.titles.main",
            UListField::VnAliases => "vn.aliases",
            UListField::VnOlang => "vn.olang",
            UListField::VnDevStatus => "vn.devstatus",
            UListField::VnReleased => "vn.released",
            UListField::VnLanguages => "vn.languages",
            UListField::VnPlatforms => "vn.platforms",
            UListField::VnImageId => "vn.image.id",
            UListField::VnImageUrl => "vn.image.url",
            UListField::VnImageDims => "vn.image.dims",
            UListField::VnImageSexual => "vn.image.sexual",
            UListField::VnImageViolence => "vn.image.violence",
            UListField::VnImageVoteCount => "vn.image.votecount",
            UListField::VnImageThumbnail => "vn.image.thumbnail",
            UListField::VnImageThumbnailDims => "vn.image.thumbnail_dims",
            UListField::VnLength => "vn.length",
            UListField::VnLengthMinutes => "vn.length_minutes",
            UListField::VnLengthVotes => "vn.length_votes",
            UListField::VnDescription => "vn.description",
            UListField::VnAverage => "vn.average",
            UListField::VnRating => "vn.rating",
            UListField::VnVoteCount => "vn.votecount",
            UListField::VnScreenshotsId => "vn.screenshots.id",
            UListField::VnScreenshotsUrl => "vn.screenshots.url",
            UListField::VnScreenshotsDims => "vn.screenshots.dims",
            UListField::VnScreenshotsSexual => "vn.screenshots.sexual",
            UListField::VnScreenshotsViolence => "vn.screenshots.violence",
            UListField::VnScreenshotsVoteCount => "vn.screenshots.votecount",
            UListField::VnScreenshotsThumbnail => "vn.screenshots.thumbnail",
            UListField::VnScreenshotsThumbnailDims => "vn.screenshots.thumbnail_dims",
            UListField::VnScreenshotsReleaseId => "vn.screenshots.release.id",
            UListField::VnScreenshotsReleaseTitle => "vn.screenshots.release.title",
            UListField::VnRelationsRelation => "vn.relations.relation",
            UListField::VnRelationsRelationOfficial => "vn.relations.relation_official",
            UListField::VnRelationsId => "vn.relations.id",
            UListField::VnRelationsTitle => "vn.relations.title",
            UListField::VnTagsRating => "vn.tags.rating",
            UListField::VnTagsSpoiler => "vn.tags.spoiler",
            UListField::VnTagsLie => "vn.tags.lie",
            UListField::VnTagsId => "vn.tags.id",
            UListField::VnTagsName => "vn.tags.name",
            UListField::VnTagsAliases => "vn.tags.aliases",
            UListField::VnTagsDescription => "vn.tags.description",
            UListField::VnTagsCategory => "vn.tags.category",
            UListField::VnTagsSearchable => "vn.tags.searchable",
            UListField::VnTagsApplicable => "vn.tags.applicable",
            UListField::VnDevelopersId => "vn.developers.id",
            UListField::VnDevelopersName => "vn.developers.name",
            UListField::VnDevelopersOriginal => "vn.developers.original",
            UListField::VnDevelopersAliases => "vn.developers.aliases",
            UListField::VnDevelopersLang => "vn.developers.lang",
            UListField::VnDevelopersType => "vn.developers.type",
            UListField::VnDevelopersDescription => "vn.developers.description",
            UListField::VnEditionsEid => "vn.editions.eid",
            UListField::VnEditionsLang => "vn.editions.lang",
            UListField::VnEditionsName => "vn.editions.name",
            UListField::VnEditionsOfficial => "vn.editions.official",
            UListField::VnStaffEid => "vn.staff.eid",
            UListField::VnStaffRole => "vn.staff.role",
            UListField::VnStaffNote => "vn.staff.note",
            UListField::VnStaffId => "vn.staff.id",
            UListField::VnStaffAid => "vn.staff.aid",
            UListField::VnStaffIsmain => "vn.staff.ismain",
            UListField::VnStaffName => "vn.staff.name",
            UListField::VnStaffLang => "vn.staff.lang",
            UListField::VnStaffGender => "vn.staff.gender",
            UListField::VnStaffDescription => "vn.staff.description",
            UListField::VnStaffAliasesAid => "vn.staff.aliases.aid",
            UListField::VnStaffAliasesName => "vn.staff.aliases.name",
            UListField::VnStaffAliasesLatin => "vn.staff.aliases.latin",
            UListField::VnStaffAliasesIsmain => "vn.staff.aliases.ismain",
            UListField::VnVaNote => "vn.va.note",
            UListField::VnVaStaffId => "vn.va.staff.id",
            UListField::VnVaStaffAid => "vn.va.staff.aid",
            UListField::VnVaStaffIsmain => "vn.va.staff.ismain",
            UListField::VnVaStaffName => "vn.va.staff.name",
            UListField::VnVaStaffLang => "vn.va.staff.lang",
            UListField::VnVaStaffGender => "vn.va.staff.gender",
            UListField::VnVaStaffDescription => "vn.va.staff.description",
            UListField::VnVaCharacterId => "vn.va.character.id",
            UListField::VnVaCharacterName => "vn.va.character.name",
            UListField::VnVaStaffExtlinksUrl => "vn.va.staff.extlinks.url",
            UListField::VnVaStaffExtlinksLabel => "vn.va.staff.extlinks.label",
            UListField::VnVaStaffExtlinksName => "vn.va.staff.extlinks.name",
            UListField::VnVaStaffExtlinksId => "vn.va.staff.extlinks.id",
            UListField::VnVaStaffAliasesAid => "vn.va.staff.aliases.aid",
            UListField::VnVaStaffAliasesName => "vn.va.staff.aliases.name",
            UListField::VnVaStaffAliasesLatin => "vn.va.staff.aliases.latin",
            UListField::VnVaStaffAliasesIsmain => "vn.va.staff.aliases.ismain",
            UListField::ReleasesListStatus => "releases.list_status",
            UListField::ReleasesId => "releases.id",
            UListField::ReleasesTitle => "releases.title",
            UListField::ReleasesAlttitle => "releases.alttitle",
            UListField::ReleasesLanguagesLang => "releases.languages.lang",
            UListField::ReleasesLanguagesTitle => "releases.languages.title",
            UListField::ReleasesLanguagesLatin => "releases.languages.latin",
            UListField::ReleasesLaguagesMtl => "releases.languages.mtl",
            UListField::ReleasesLanguagesMain => "releases.languages.main",
            UListField::ReleasesPlatforms => "releases.platforms",
            UListField::ReleasesMediaMedium => "releases.media.medium",
            UListField::ReleasesMediaQty => "releases.media.qty",
            UListField::ReleasesVnsRtype => "releases.vns.rtype",
            UListField::ReleasesVnsId => "releases.vns.id",
            UListField::ReleasesVnsTitle => "releases.vns.title",
            UListField::ReleasesProducersDeveloper => "releases.producers.developer",
            UListField::ReleasesProducersPublisher => "releases.producers.publisher",
            UListField::ReleasesProducersId => "releases.producers.id",
            UListField::ReleasesProducersName => "releases.producers.name",
            UListField::ReleasesProducersOriginal => "releases.producers.original",
            UListField::ReleasesProducersAliases => "releases.producers.aliases",
            UListField::ReleasesProducersLang => "releases.producers.lang",
            UListField::ReleasesProducersType => "releases.producers.type",
            UListField::ReleasesProducersDescription => "releases.producers.description",
            UListField::ReleasesReleased => "releases.released",
            UListField::ReleasesMinAge => "releases.minage",
            UListField::ReleasesPatch => "releases.patch",
            UListField::ReleasesFreeware => "releases.freeware",
            UListField::ReleasesUncensored => "releases.uncensored",
            UListField::ReleasesOfficial => "releases.official",
            UListField::ReleasesHasEro => "releases.has_ero",
            UListField::ReleasesResolution => "releases.resolution",
            UListField::ReleasesEngine => "releases.engine",
            UListField::ReleasesVoiced => "releases.voiced",
            UListField::ReleasesNotes => "releases.notes",
            UListField::ReleasesGtin => "releases.gtin",
            UListField::ReleasesCatalog => "releases.catalog",
            UListField::ReleasesExtlinksUrl => "releases.extlinks.url",
            UListField::ReleasesExtlinksLabel => "releases.extlinks.label",
            UListField::ReleasesExtlinksName => "releases.extlinks.name",
            UListField::ReleasesExtlinksId => "releases.extlinks.id",
        }
    }
}

/// The position of each field in the declared enumeration.
pub open spec fn ulist_field_pos(f: UListField) -> int {
    match f {
        UListField::Id => 0,
        UListField::Added => 1,
        UListField::Voted => 2,
        UListField::LastMod => 3,
        UListField::Vote => 4,
        UListField::Started => 5,
        UListField::Finished => 6,
        UListField::Notes => 7,
        UListField::LabelsId => 8,
        UListField::LabelsLabel => 9,
        UListField::VnId => 10,
        UListField::VnTitle => 11,
        UListField::VnAlttitle => 12,
        UListField::VnTitlesLang => 13,
        UListField::VnTitlesTitle => 14,
        UListField::VnTitlesLatin => 15,
        UListField::VnTitlesOfficial => 16,
        UListField::VnTitlesMain => 17,
        UListField::VnAliases => 18,
        UListField::VnOlang => 19,
        UListField::VnDevStatus => 20,
        UListField::VnReleased => 21,
        UListField::VnLanguages => 22,
        UListField::VnPlatforms => 23,
        UListField::VnImageId => 24,
        UListField::VnImageUrl => 25,
        UListField::VnImageDims => 26,
        UListField::VnImageSexual => 27,
        UListField::VnImageViolence => 28,
        UListField::VnImageVoteCount => 29,
        UListField::VnImageThumbnail => 30,
        UListField::VnImageThumbnailDims => 31,
        UListField::VnLength => 32,
        UListField::VnLengthMinutes => 33,
        UListField::VnLengthVotes => 34,
        UListField::VnDescription => 35,
        UListField::VnAverage => 36,
        UListField::VnRating => 37,
        UListField::VnVoteCount => 38,
        UListField::VnScreenshotsId => 39,
        UListField::VnScreenshotsUrl => 40,
        UListField::VnScreenshotsDims => 41,
        UListField::VnScreenshotsSexual => 42,
        UListField::VnScreenshotsViolence => 43,
        UListField::VnScreenshotsVoteCount => 44,
        UListField::VnScreenshotsThumbnail => 45,
        UListField::VnScreenshotsThumbnailDims => 46,
        UListField::VnScreenshotsReleaseId => 47,
        UListField::VnScreenshotsReleaseTitle => 48,
        UListField::VnRelationsRelation => 49,
        UListField::VnRelationsRelationOfficial => 50,
        UListField::VnRelationsId => 51,
        UListField::VnRelationsTitle => 52,
        UListField::VnTagsRating => 53,
        UListField::VnTagsSpoiler => 54,
        UListField::VnTagsLie => 55,
        UListField::VnTagsId => 56,
        UListField::VnTagsName => 57,
        UListField::VnTagsAliases => 58,
        UListField::VnTagsDescription => 59,
        UListField::VnTagsCategory => 60,
        UListField::VnTagsSearchable => 61,
        UListField::VnTagsApplicable => 62,
        UListField::VnDevelopersId => 63,
        UListField::VnDevelopersName => 64,
        UListField::VnDevelopersOriginal => 65,
        UListField::VnDevelopersAliases => 66,
        UListField::VnDevelopersLang => 67,
        UListField::VnDevelopersType => 68,
        UListField::VnDevelopersDescription => 69,
        UListField::VnEditionsEid => 70,
        UListField::VnEditionsLang => 71,
        UListField::VnEditionsName => 72,
        UListField::VnEditionsOfficial => 73,
        UListField::VnStaffEid => 74,
        UListField::VnStaffRole => 75,
        UListField::VnStaffNote => 76,
        UListField::VnStaffId => 77,
        UListField::VnStaffAid => 78,
        UListField::VnStaffIsmain => 79,
        UListField::VnStaffName => 80,
        UListField::VnStaffLang => 81,
        UListField::VnStaffGender => 82,
        UListField::VnStaffDescription => 83,
        UListField::VnStaffAliasesAid => 84,
        UListField::VnStaffAliasesName => 85,
        UListField::VnStaffAliasesLatin => 86,
        UListField::VnStaffAliasesIsmain => 87,
        UListField::VnVaNote => 88,
        UListField::VnVaStaffId => 89,
        UListField::VnVaStaffAid => 90,
        UListField::VnVaStaffIsmain => 91,
        UListField::VnVaStaffName => 92,
        UListField::VnVaStaffLang => 93,
        UListField::VnVaStaffGender => 94,
        UListField::VnVaStaffDescription => 95,
        UListField::VnVaCharacterId => 96,
        UListField::VnVaCharacterName => 97,
        UListField::VnVaStaffExtlinksUrl => 98,
        UListField::VnVaStaffExtlinksLabel => 99,
        UListField::VnVaStaffExtlinksName => 100,
        UListField::VnVaStaffExtlinksId => 101,
        UListField::VnVaStaffAliasesAid => 102,
        UListField::VnVaStaffAliasesName => 103,
        UListField::VnVaStaffAliasesLatin => 104,
        UListField::VnVaStaffAliasesIsmain => 105,
        UListField::ReleasesListStatus => 106,
        UListField::ReleasesId => 107,
        UListField::ReleasesTitle => 108,
        UListField::ReleasesAlttitle => 109,
        UListField::ReleasesLanguagesLang => 110,
        UListField::ReleasesLanguagesTitle => 111,
        UListField::ReleasesLanguagesLatin => 112,
        UListField::ReleasesLaguagesMtl => 113,
        UListField::ReleasesLanguagesMain => 114,
        UListField::ReleasesPlatforms => 115,
        UListField::ReleasesMediaMedium => 116,
        UListField::ReleasesMediaQty => 117,
        UListField::ReleasesVnsRtype => 118,
        UListField::ReleasesVnsId => 119,
        UListField::ReleasesVnsTitle => 120,
        UListField::ReleasesProducersDeveloper => 121,
        UListField::ReleasesProducersPublisher => 122,
        UListField::ReleasesProducersId => 123,
        UListField::ReleasesProducersName => 124,
        UListField::ReleasesProducersOriginal => 125,
        UListField::ReleasesProducersAliases => 126,
        UListField::ReleasesProducersLang => 127,
        UListField::ReleasesProducersType => 128,
        UListField::ReleasesProducersDescription => 129,
        UListField::ReleasesReleased => 130,
        UListField::ReleasesMinAge => 131,
        UListField::ReleasesPatch => 132,
        UListField::ReleasesFreeware => 133,
        UListField::ReleasesUncensored => 134,
        UListField::ReleasesOfficial => 135,
        UListField::ReleasesHasEro => 136,
        UListField::ReleasesResolution => 137,
        UListField::ReleasesEngine => 138,
        UListField::ReleasesVoiced => 139,
        UListField::ReleasesNotes => 140,
        UListField::ReleasesGtin => 141,
        UListField::ReleasesCatalog => 142,
        UListField::ReleasesExtlinksUrl => 143,
        UListField::ReleasesExtlinksLabel => 144,
        UListField::ReleasesExtlinksName => 145,
        UListField::ReleasesExtlinksId => 146,
    }
}

/// The field declared at position `i` (the last one for any position past
/// the end).
pub open spec fn ulist_field_at(i: int) -> UListField {
    if i == 0 {
        UListField::Id
    } else if i == 1 {
        UListField::Added
    } else if i == 2 {
        UListField::Voted
    } else if i == 3 {
        UListField::LastMod
    } else if i == 4 {
        UListField::Vote
    } else if i == 5 {
        UListField::Started
    } else if i == 6 {
        UListField::Finished
    } else if i == 7 {
        UListField::Notes
    } else if i == 8 {
        UListField::LabelsId
    } else if i == 9 {
        UListField::LabelsLabel
    } else if i == 10 {
        UListField::VnId
    } else if i == 11 {
        UListField::VnTitle
    } else if i == 12 {
        UListField::VnAlttitle
    } else if i == 13 {
        UListField::VnTitlesLang
    } else if i == 14 {
        UListField::VnTitlesTitle
    } else if i == 15 {
        UListField::VnTitlesLatin
    } else if i == 16 {
        UListField::VnTitlesOfficial
    } else if i == 17 {
        UListField::VnTitlesMain
    } else if i == 18 {
        UListField::VnAliases
    } else if i == 19 {
        UListField::VnOlang
    } else if i == 20 {
        UListField::VnDevStatus
    } else if i == 21 {
        UListField::VnReleased
    } else if i == 22 {
        UListField::VnLanguages
    } else if i == 23 {
        UListField::VnPlatforms
    } else if i == 24 {
        UListField::VnImageId
    } else if i == 25 {
        UListField::VnImageUrl
    } else if i == 26 {
        UListField::VnImageDims
    } else if i == 27 {
        UListField::VnImageSexual
    } else if i == 28 {
        UListField::VnImageViolence
    } else if i == 29 {
        UListField::VnImageVoteCount
    } else if i == 30 {
        UListField::VnImageThumbnail
    } else if i == 31 {
        UListField::VnImageThumbnailDims
    } else if i == 32 {
        UListField::VnLength
    } else if i == 33 {
        UListField::VnLengthMinutes
    } else if i == 34 {
        UListField::VnLengthVotes
    } else if i == 35 {
        UListField::VnDescription
    } else if i == 36 {
        UListField::VnAverage
    } else if i == 37 {
        UListField::VnRating
    } else if i == 38 {
        UListField::VnVoteCount
    } else if i == 39 {
        UListField::VnScreenshotsId
    } else if i == 40 {
        UListField::VnScreenshotsUrl
    } else if i == 41 {
        UListField::VnScreenshotsDims
    } else if i == 42 {
        UListField::VnScreenshotsSexual
    } else if i == 43 {
        UListField::VnScreenshotsViolence
    } else if i == 44 {
        UListField::VnScreenshotsVoteCount
    } else if i == 45 {
        UListField::VnScreenshotsThumbnail
    } else if i == 46 {
        UListField::VnScreenshotsThumbnailDims
    } else if i == 47 {
        UListField::VnScreenshotsReleaseId
    } else if i == 48 {
        UListField::VnScreenshotsReleaseTitle
    } else if i == 49 {
        UListField::VnRelationsRelation
    } else if i == 50 {
        UListField::VnRelationsRelationOfficial
    } else if i == 51 {
        UListField::VnRelationsId
    } else if i == 52 {
        UListField::VnRelationsTitle
    } else if i == 53 {
        UListField::VnTagsRating
    } else if i == 54 {
        UListField::VnTagsSpoiler
    } else if i == 55 {
        UListField::VnTagsLie
    } else if i == 56 {
        UListField::VnTagsId
    } else if i == 57 {
        UListField::VnTagsName
    } else if i == 58 {
        UListField::VnTagsAliases
    } else if i == 59 {
        UListField::VnTagsDescription
    } else if i == 60 {
        UListField::VnTagsCategory
    } else if i == 61 {
        UListField::VnTagsSearchable
    } else if i == 62 {
        UListField::VnTagsApplicable
    } else if i == 63 {
        UListField::VnDevelopersId
    } else if i == 64 {
        UListField::VnDevelopersName
    } else if i == 65 {
        UListField::VnDevelopersOriginal
    } else if i == 66 {
        UListField::VnDevelopersAliases
    } else if i == 67 {
        UListField::VnDevelopersLang
    } else if i == 68 {
        UListField::VnDevelopersType
    } else if i == 69 {
        UListField::VnDevelopersDescription
    } else if i == 70 {
        UListField::VnEditionsEid
    } else if i == 71 {
        UListField::VnEditionsLang
    } else if i == 72 {
        UListField::VnEditionsName
    } else if i == 73 {
        UListField::VnEditionsOfficial
    } else if i == 74 {
        UListField::VnStaffEid
    } else if i == 75 {
        UListField::VnStaffRole
    } else if i == 76 {
        UListField::VnStaffNote
    } else if i == 77 {
        UListField::VnStaffId
    } else if i == 78 {
        UListField::VnStaffAid
    } else if i == 79 {
        UListField::VnStaffIsmain
    } else if i == 80 {
        UListField::VnStaffName
    } else if i == 81 {
        UListField::VnStaffLang
    } else if i == 82 {
        UListField::VnStaffGender
    } else if i == 83 {
        UListField::VnStaffDescription
    } else if i == 84 {
        UListField::VnStaffAliasesAid
    } else if i == 85 {
        UListField::VnStaffAliasesName
    } else if i == 86 {
        UListField::VnStaffAliasesLatin
    } else if i == 87 {
        UListField::VnStaffAliasesIsmain
    } else if i == 88 {
        UListField::VnVaNote
    } else if i == 89 {
        UListField::VnVaStaffId
    } else if i == 90 {
        UListField::VnVaStaffAid
    } else if i == 91 {
        UListField::VnVaStaffIsmain
    } else if i == 92 {
        UListField::VnVaStaffName
    } else if i == 93 {
        UListField::VnVaStaffLang
    } else if i == 94 {
        UListField::VnVaStaffGender
    } else if i == 95 {
        UListField::VnVaStaffDescription
    } else if i == 96 {
        UListField::VnVaCharacterId
    } else if i == 97 {
        UListField::VnVaCharacterName
    } else if i == 98 {
        UListField::VnVaStaffExtlinksUrl
    } else if i == 99 {
        UListField::VnVaStaffExtlinksLabel
    } else if i == 100 {
        UListField::VnVaStaffExtlinksName
    } else if i == 101 {
        UListField::VnVaStaffExtlinksId
    } else if i == 102 {
        UListField::VnVaStaffAliasesAid
    } else if i == 103 {
        UListField::VnVaStaffAliasesName
    } else if i == 104 {
        UListField::VnVaStaffAliasesLatin
    } else if i == 105 {
        UListField::VnVaStaffAliasesIsmain
    } else if i == 106 {
        UListField::ReleasesListStatus
    } else if i == 107 {
        UListField::ReleasesId
    } else if i == 108 {
        UListField::ReleasesTitle
    } else if i == 109 {
        UListField::ReleasesAlttitle
    } else if i == 110 {
        UListField::ReleasesLanguagesLang
    } else if i == 111 {
        UListField::ReleasesLanguagesTitle
    } else if i == 112 {
        UListField::ReleasesLanguagesLatin
    } else if i == 113 {
        UListField::ReleasesLaguagesMtl
    } else if i == 114 {
        UListField::ReleasesLanguagesMain
    } else if i == 115 {
        UListField::ReleasesPlatforms
    } else if i == 116 {
        UListField::ReleasesMediaMedium
    } else if i == 117 {
        UListField::ReleasesMediaQty
    } else if i == 118 {
        UListField::ReleasesVnsRtype
    } else if i == 119 {
        UListField::ReleasesVnsId
    } else if i == 120 {
        UListField::ReleasesVnsTitle
    } else if i == 121 {
        UListField::ReleasesProducersDeveloper
    } else if i == 122 {
        UListField::ReleasesProducersPublisher
    } else if i == 123 {
        UListField::ReleasesProducersId
    } else if i == 124 {
        UListField::ReleasesProducersName
    } else if i == 125 {
        UListField::ReleasesProducersOriginal
    } else if i == 126 {
        UListField::ReleasesProducersAliases
    } else if i == 127 {
        UListField::ReleasesProducersLang
    } else if i == 128 {
        UListField::ReleasesProducersType
    } else if i == 129 {
        UListField::ReleasesProducersDescription
    } else if i == 130 {
        UListField::ReleasesReleased
    } else if i == 131 {
        UListField::ReleasesMinAge
    } else if i == 132 {
        UListField::ReleasesPatch
    } else if i == 133 {
        UListField::ReleasesFreeware
    } else if i == 134 {
        UListField::ReleasesUncensored
    } else if i == 135 {
        UListField::ReleasesOfficial
    } else if i == 136 {
        UListField::ReleasesHasEro
    } else if i == 137 {
        UListField::ReleasesResolution
    } else if i == 138 {
        UListField::ReleasesEngine
    } else if i == 139 {
        UListField::ReleasesVoiced
    } else if i == 140 {
        UListField::ReleasesNotes
    } else if i == 141 {
        UListField::ReleasesGtin
    } else if i == 142 {
        UListField::ReleasesCatalog
    } else if i == 143 {
        UListField::ReleasesExtlinksUrl
    } else if i == 144 {
        UListField::ReleasesExtlinksLabel
    } else if i == 145 {
        UListField::ReleasesExtlinksName
    } else {
        UListField::ReleasesExtlinksId
    }
}

fn ulist_field_nth(i: usize) -> (r: UListField)
    ensures
        r == ulist_field_at(i as int),
{
    match i {
        0 => UListField::Id,
        1 => UListField::Added,
        2 => UListField::Voted,
        3 => UListField::LastMod,
        4 => UListField::Vote,
        5 => UListField::Started,
        6 => UListField::Finished,
        7 => UListField::Notes,
        8 => UListField::LabelsId,
        9 => UListField::LabelsLabel,
        10 => UListField::VnId,
        11 => UListField::VnTitle,
        12 => UListField::VnAlttitle,
        13 => UListField::VnTitlesLang,
        14 => UListField::VnTitlesTitle,
        15 => UListField::VnTitlesLatin,
        16 => UListField::VnTitlesOfficial,
        17 => UListField::VnTitlesMain,
        18 => UListField::VnAliases,
        19 => UListField::VnOlang,
        20 => UListField::VnDevStatus,
        21 => UListField::VnReleased,
        22 => UListField::VnLanguages,
        23 => UListField::VnPlatforms,
        24 => UListField::VnImageId,
        25 => UListField::VnImageUrl,
        26 => UListField::VnImageDims,
        27 => UListField::VnImageSexual,
        28 => UListField::VnImageViolence,
        29 => UListField::VnImageVoteCount,
        30 => UListField::VnImageThumbnail,
        31 => UListField::VnImageThumbnailDims,
        32 => UListField::VnLength,
        33 => UListField::VnLengthMinutes,
        34 => UListField::VnLengthVotes,
        35 => UListField::VnDescription,
        36 => UListField::VnAverage,
        37 => UListField::VnRating,
        38 => UListField::VnVoteCount,
        39 => UListField::VnScreenshotsId,
        40 => UListField::VnScreenshotsUrl,
        41 => UListField::VnScreenshotsDims,
        42 => UListField::VnScreenshotsSexual,
        43 => UListField::VnScreenshotsViolence,
        44 => UListField::VnScreenshotsVoteCount,
        45 => UListField::VnScreenshotsThumbnail,
        46 => UListField::VnScreenshotsThumbnailDims,
        47 => UListField::VnScreenshotsReleaseId,
        48 => UListField::VnScreenshotsReleaseTitle,
        49 => UListField::VnRelationsRelation,
        50 => UListField::VnRelationsRelationOfficial,
        51 => UListField::VnRelationsId,
        52 => UListField::VnRelationsTitle,
        53 => UListField::VnTagsRating,
        54 => UListField::VnTagsSpoiler,
        55 => UListField::VnTagsLie,
        56 => UListField::VnTagsId,
        57 => UListField::VnTagsName,
        58 => UListField::VnTagsAliases,
        59 => UListField::VnTagsDescription,
        60 => UListField::VnTagsCategory,
        61 => UListField::VnTagsSearchable,
        62 => UListField::VnTagsApplicable,
        63 => UListField::VnDevelopersId,
        64 => UListField::VnDevelopersName,
        65 => UListField::VnDevelopersOriginal,
        66 => UListField::VnDevelopersAliases,
        67 => UListField::VnDevelopersLang,
        68 => UListField::VnDevelopersType,
        69 => UListField::VnDevelopersDescription,
        70 => UListField::VnEditionsEid,
        71 => UListField::VnEditionsLang,
        72 => UListField::VnEditionsName,
        73 => UListField::VnEditionsOfficial,
        74 => UListField::VnStaffEid,
        75 => UListField::VnStaffRole,
        76 => UListField::VnStaffNote,
        77 => UListField::VnStaffId,
        78 => UListField::VnStaffAid,
        79 => UListField::VnStaffIsmain,
        80 => UListField::VnStaffName,
        81 => UListField::VnStaffLang,
        82 => UListField::VnStaffGender,
        83 => UListField::VnStaffDescription,
        84 => UListField::VnStaffAliasesAid,
        85 => UListField::VnStaffAliasesName,
        86 => UListField::VnStaffAliasesLatin,
        87 => UListField::VnStaffAliasesIsmain,
        88 => UListField::VnVaNote,
        89 => UListField::VnVaStaffId,
        90 => UListField::VnVaStaffAid,
        91 => UListField::VnVaStaffIsmain,
        92 => UListField::VnVaStaffName,
        93 => UListField::VnVaStaffLang,
        94 => UListField::VnVaStaffGender,
        95 => UListField::VnVaStaffDescription,
        96 => UListField::VnVaCharacterId,
        97 => UListField::VnVaCharacterName,
        98 => UListField::VnVaStaffExtlinksUrl,
        99 => UListField::VnVaStaffExtlinksLabel,
        100 => UListField::VnVaStaffExtlinksName,
        101 => UListField::VnVaStaffExtlinksId,
        102 => UListField::VnVaStaffAliasesAid,
        103 => UListField::VnVaStaffAliasesName,
        104 => UListField::VnVaStaffAliasesLatin,
        105 => UListField::VnVaStaffAliasesIsmain,
        106 => UListField::ReleasesListStatus,
        107 => UListField::ReleasesId,
        108 => UListField::ReleasesTitle,
        109 => UListField::ReleasesAlttitle,
        110 => UListField::ReleasesLanguagesLang,
        111 => UListField::ReleasesLanguagesTitle,
        112 => UListField::ReleasesLanguagesLatin,
        113 => UListField::ReleasesLaguagesMtl,
        114 => UListField::ReleasesLanguagesMain,
        115 => UListField::ReleasesPlatforms,
        116 => UListField::ReleasesMediaMedium,
        117 => UListField::ReleasesMediaQty,
        118 => UListField::ReleasesVnsRtype,
        119 => UListField::ReleasesVnsId,
        120 => UListField::ReleasesVnsTitle,
        121 => UListField::ReleasesProducersDeveloper,
        122 => UListField::ReleasesProducersPublisher,
        123 => UListField::ReleasesProducersId,
        124 => UListField::ReleasesProducersName,
        125 => UListField::ReleasesProducersOriginal,
        126 => UListField::ReleasesProducersAliases,
        127 => UListField::ReleasesProducersLang,
        128 => UListField::ReleasesProducersType,
        129 => UListField::ReleasesProducersDescription,
        130 => UListField::ReleasesReleased,
        131 => UListField::ReleasesMinAge,
        132 => UListField::ReleasesPatch,
        133 => UListField::ReleasesFreeware,
        134 => UListField::ReleasesUncensored,
        135 => UListField::ReleasesOfficial,
        136 => UListField::ReleasesHasEro,
        137 => UListField::ReleasesResolution,
        138 => UListField::ReleasesEngine,
        139 => UListField::ReleasesVoiced,
        140 => UListField::ReleasesNotes,
        141 => UListField::ReleasesGtin,
        142 => UListField::ReleasesCatalog,
        143 => UListField::ReleasesExtlinksUrl,
        144 => UListField::ReleasesExtlinksLabel,
        145 => UListField::ReleasesExtlinksName,
        _ => UListField::ReleasesExtlinksId,
    }
}

/// An ordered, duplicate-tolerant selection of user-list fields.
pub struct UListFieldChoices(pub Vec<UListField>);

impl UListFieldChoices {
    /// Every selectable field, in declaration order.
    pub open spec fn spec_all() -> Seq<UListField> {
        Seq::new(147, |i: int| ulist_field_at(i))
    }

    /// Selects nothing beyond the always-included primary fields.
    pub fn new() -> (r: Self)
        ensures
            r.0@ == Seq::<UListField>::empty(),
    {
        UListFieldChoices(Vec::new())
    }

    /// A caller-chosen selection; duplicates and any order are permitted.
    pub fn from(vec: Vec<UListField>) -> (r: Self)
        ensures
            r.0@ == vec@,
    {
        UListFieldChoices(vec)
    }

    /// Every known field of the resource, in declaration order.
    pub fn all() -> (r: Self)
        ensures
            r.0@ == Self::spec_all(),
    {
        let mut v: Vec<UListField> = Vec::new();
        for i in 0..147usize
            invariant
                v@.len() == i as int,
                forall|k: int| 0 <= k < i as int ==> v@[k] == Self::spec_all()[k],
        {
            v.push(ulist_field_nth(i));
        }
        proof {
            assert(v@ =~= Self::spec_all());
        }
        UListFieldChoices(v)
    }

    /// The selection rendered as the wire `fields` parameter: names joined
    /// by `,`, in order, with no trailing separator.
    pub fn to_csv(&self) -> (r: String)
        ensures
            r@ == spec_csv(self.0@.map_values(|f: UListField| f.spec_wire())),
    {
        fields_csv(&self.0)
    }
}

/// `all()` holds every declared field exactly once, in declaration order,
/// so its CSV rendering lists each field name once, in that order.
pub proof fn lemma_ulist_all_fields_once()
    ensures
        forall|i: int, j: int|
            0 <= i < j < UListFieldChoices::spec_all().len() ==> UListFieldChoices::spec_all()[i]
                != UListFieldChoices::spec_all()[j],
{
    assert forall|i: int| 0 <= i < 147 implies ulist_field_pos(#[trigger] ulist_field_at(i))
        == i by {}
    assert forall|i: int, j: int|
        0 <= i < j < UListFieldChoices::spec_all().len() implies UListFieldChoices::spec_all()[i]
        != UListFieldChoices::spec_all()[j] by {
        assert(ulist_field_pos(ulist_field_at(i)) == i);
        assert(ulist_field_pos(ulist_field_at(j)) == j);
    }
}

impl QueryBuilder<UListQuery> {
    /// Chooses which fields to fetch; the selection is stored as its CSV
    /// rendering.
    pub fn fields(self, fields: UListFieldChoices) -> (r: Self)
        ensures
            fields.0@.len() == 0 ==> r.fields == Option::<String>::None,
            fields.0@.len() > 0 ==> (r.fields matches Some(s) && s@ == spec_csv(
                fields.0@.map_values(|f: UListField| f.spec_wire()),
            )),
            r.filters == self.filters,
            r.sort == self.sort,
            r.reverse == self.reverse,
            r.results == self.results,
            r.page == self.page,
            r.user == self.user,
            r.count == self.count,
            r.compact_filters == self.compact_filters,
            r.normalized_filters == self.normalized_filters,
    {
        let mut b = self;
        b.fields = if fields.0.len() == 0 {
            None
        } else {
            Some(fields.to_csv())
        };
        b
    }

    /// Sets the sort key if it applies to this resource; a key that does
    /// not is silently ignored and the previous sort kept.
    pub fn sort(self, sort_field: SortField) -> (r: Self)
        ensures
            r == (QueryBuilder {
                sort: if ulist_sort_allowed(sort_field) {
                    Some(sort_field)
                } else {
                    self.sort
                },
                ..self
            }),
    {
        let mut b = self;
        match sort_field {
            SortField::Id | SortField::Title | SortField::Released | SortField::Rating | SortField::Votecount | SortField::Voted | SortField::Vote | SortField::Added | SortField::Lastmod | SortField::Started | SortField::Finished | SortField::Searchrank => {
                b.sort = Some(sort_field);
            },
            _ => {},
        }
        b
    }
}

} // verus!
