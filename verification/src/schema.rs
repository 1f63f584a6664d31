//! Shared vocabulary enumerations: languages, media, staff roles and
//! platforms.

use vstd::prelude::*;

verus! {

/// A language of the catalog.
#[derive(Clone, Copy, PartialEq, Eq, Structural, Debug)]
pub enum Language {
    Arabic,
    Basque,
    Belarusian,
    Bulgarian,
    Catalan,
    Cherokee,
    Chinese,
    ChineseSimplified,
    ChineseTraditional,
    Croatian,
    Czech,
    Danish,
    Dutch,
    English,
    Esperanto,
    Finnish,
    French,
    German,
    Greek,
    Hebrew,
    Hindi,
    Hungarian,
    Irish,
    Indonesian,
    Italian,
    Inuktitut,
    Japanese,
    Korean,
    Latin,
    Latvian,
    Lithuanian,
    Macedonian,
    Malay,
    Norwegian,
    Persian,
    Polish,
    PortugueseBrazil,
    PortuguesePortugal,
    Romanian,
    Russian,
    ScottishGaelic,
    Serbian,
    Slovak,
    Slovene,
    Spanish,
    Swedish,
    Tagalog,
    Thai,
    Turkish,
    Ukrainian,
    Urdu,
    Vietnamese,
}

/// A physical or digital medium of a release.
#[derive(Clone, Copy, PartialEq, Eq, Structural, Debug)]
pub enum Medium {
    Cd,
    Dvd,
    GdRom,
    BlueRayDisc,
    FloppyDisc,
    CassetteTape,
    Cartridge,
    MemoryCard,
    Umd,
    NintendoOpticalDisc,
    InternetDownload,
    DownloadCard,
    Other,
}

/// The role a staff member had in a production.
#[derive(Clone, Copy, PartialEq, Eq, Structural, Debug)]
pub enum StaffRole {
    Scenario,
    Director,
    CharDesign,
    Art,
    Music,
    Songs,
    Translator,
    Editor,
    Qa,
    Staff,
}

/// A platform a release runs on.
#[derive(Clone, Copy, PartialEq, Eq, Structural, Debug)]
pub enum Platform {
    Windows,
    Linux,
    MacOs,
    Website,
    ThreeDO,
    Apple,
    Android,
    BluRayPlayer,
    Dos,
    DvdPlayer,
    Dreamcast,
    Famicom,
    SuperFamicom,
    Fm7,
    Fm8,
    FMTowns,
    GameBoyAdvance,
    GameBoyColor,
    Msx,
    NintendoDS,
    NintendoSwitch,
    NintendoWii,
    NintendoWiiU,
    Nintendo3DS,
    Pc88,
    Pc98,
    PcEngine,
    PcFX,
    PlayStationPortable,
    PlayStation1,
    PlayStation2,
    PlayStation3,
    PlayStation4,
    PlayStation5,
    PlayStationVita,
    SegaMegaDrive,
    SegaMegaCD,
    SegaSaturn,
    Vnds,
    SharpX1,
    SharpX68000,
    Xbox,
    Xbox360,
    XboxOne,
    XboxX,
    OtherMobile,
    Other,
}

} // verus!
