use vstd::prelude::*;

verus! {

/// Game Boy Color support announced by the header.
#[derive(Clone, Copy, PartialEq, Eq, Structural, Debug)]
pub enum CgbMode {
    /// Only runs on a Game Boy Color
    Cgb,
    /// Runs on both
    Both,
    /// No Color support
    NoCgb,
}

/// The cartridge hardware announced by the header.
#[derive(Clone, Copy, PartialEq, Eq, Structural, Debug)]
pub enum CartridgeType {
    RomOnly,
    Mbc1,
    Mbc1Ram,
    Mbc1RamBattery,
    Mbc2,
    Mbc2Battery,
    RomRam,
    RomRamBattery,
    Mmm01,
    Mmm01Ram,
    Mmm01RamBattery,
    Mbc3,
    Mbc3Ram,
    Mbc3RamBattery,
    Mbc3TimerBattery,
    Mbc3TimerRamBattery,
    Mbc5,
    Mbc5Ram,
    Mbc5RamBattery,
    Mbc5Rumble,
    Mbc5RumbleRam,
    Mbc5RumbleRamBattery,
    Mbc6,
    Mbc7SensorRumbleRamBattery,
    PocketCamera,
    BandaiTama5,
    HuC3,
    HuC1RamBattery,
    Unknown,
}

/// Cartridge type of the header byte at 0x0147.
pub open spec fn cartridge_type_of(code: u8) -> CartridgeType {
    match code {
        0x00 => CartridgeType::RomOnly,
        0x01 => CartridgeType::Mbc1,
        0x02 => CartridgeType::Mbc1Ram,
        0x03 => CartridgeType::Mbc1RamBattery,
        0x05 => CartridgeType::Mbc2,
        0x06 => CartridgeType::Mbc2Battery,
        0x08 => CartridgeType::RomRam,
        0x09 => CartridgeType::RomRamBattery,
        0x0B => CartridgeType::Mmm01,
        0x0C => CartridgeType::Mmm01Ram,
        0x0D => CartridgeType::Mmm01RamBattery,
        0x0F => CartridgeType::Mbc3TimerBattery,
        0x10 => CartridgeType::Mbc3TimerRamBattery,
        0x11 => CartridgeType::Mbc3,
        0x12 => CartridgeType::Mbc3Ram,
        0x13 => CartridgeType::Mbc3RamBattery,
        0x19 => CartridgeType::Mbc5,
        0x1A => CartridgeType::Mbc5Ram,
        0x1B => CartridgeType::Mbc5RamBattery,
        0x1C => CartridgeType::Mbc5Rumble,
        0x1D => CartridgeType::Mbc5RumbleRam,
        0x1E => CartridgeType::Mbc5RumbleRamBattery,
        0x20 => CartridgeType::Mbc6,
        0x22 => CartridgeType::Mbc7SensorRumbleRamBattery,
        0xFC => CartridgeType::PocketCamera,
        0xFD => CartridgeType::BandaiTama5,
        0xFE => CartridgeType::HuC3,
        0xFF => CartridgeType::HuC1RamBattery,
        _ => CartridgeType::Unknown,
    }
}

/// Cartridge type of the header byte at 0x0147.
pub fn cartridge_type_from_code(code: u8) -> (t: CartridgeType)
    ensures
        t == cartridge_type_of(code),
{
    match code {
        0x00 => CartridgeType::RomOnly,
        0x01 => CartridgeType::Mbc1,
        0x02 => CartridgeType::Mbc1Ram,
        0x03 => CartridgeType::Mbc1RamBattery,
        0x05 => CartridgeType::Mbc2,
        0x06 => CartridgeType::Mbc2Battery,
        0x08 => CartridgeType::RomRam,
        0x09 => CartridgeType::RomRamBattery,
        0x0B => CartridgeType::Mmm01,
        0x0C => CartridgeType::Mmm01Ram,
        0x0D => CartridgeType::Mmm01RamBattery,
        0x0F => CartridgeType::Mbc3TimerBattery,
        0x10 => CartridgeType::Mbc3TimerRamBattery,
        0x11 => CartridgeType::Mbc3,
        0x12 => CartridgeType::Mbc3Ram,
        0x13 => CartridgeType::Mbc3RamBattery,
        0x19 => CartridgeType::Mbc5,
        0x1A => CartridgeType::Mbc5Ram,
        0x1B => CartridgeType::Mbc5RamBattery,
        0x1C => CartridgeType::Mbc5Rumble,
        0x1D => CartridgeType::Mbc5RumbleRam,
        0x1E => CartridgeType::Mbc5RumbleRamBattery,
        0x20 => CartridgeType::Mbc6,
        0x22 => CartridgeType::Mbc7SensorRumbleRamBattery,
        0xFC => CartridgeType::PocketCamera,
        0xFD => CartridgeType::BandaiTama5,
        0xFE => CartridgeType::HuC3,
        0xFF => CartridgeType::HuC1RamBattery,
        _ => CartridgeType::Unknown,
    }
}

/// The publisher of a game.
#[derive(Clone, Copy, PartialEq, Eq, Structural, Debug)]
pub enum Licensee {
    NoLicensee,
    Nintendo,
    EliteSystems,
    ElectronicArts,
    HudsonSoft,
    ItcEntertainment,
    Yanoman,
    Clary,
    Virgin,
    PcmComplete,
    SanX,
    KotobukiSystems,
    Seta,
    Infogrames,
    Bandai,
    Konami,
    Hector,
    Capcom,
    Banpresto,
    EntertainmentI,
    Gremlin,
    Ubisoft,
    Atlus,
    Malibu,
    Angel,
    SpectrumHoloby,
    Irem,
    UsGold,
    Absolute,
    Acclaim,
    Activision,
    AmericanSammy,
    Gametek,
    ParkPlace,
    Ljn,
    Matchbox,
    MiltonBradley,
    Mindscape,
    Romstar,
    NaxatSoft,
    Tradewest,
    Titus,
    Ocean,
    ElectroBrain,
    Interplay,
    Broderbund,
    SculpteredSoft,
    TheSalesCurve,
    Thq,
    Accolade,
    TriffixEntertainment,
    Microprose,
    Kemco,
    Misawa,
    Lozc,
    TokumaShoten,
    BulletProof,
    VicTokai,
    Ape,
    Imax,
    ChunSoft,
    VideoSystem,
    Tsuburava,
    Varie,
    YonezawaSpal,
    Kaneko,
    Arc,
    NihonBussan,
    Tecmo,
    Imagineer,
    Nova,
    HoriElectric,
    Kawada,
    Takara,
    TechnosJapan,
    ToeiAnimation,
    Toho,
    Namco,
    Nexoft,
    Enix,
    Hal,
    Snk,
    PonyCanyon,
    CultureBrain,
    Sunsoft,
    Sony,
    Sammy,
    Taito,
    SquareSoft,
    TokumaShotenIntermedia,
    DataEast,
    TonkinHouse,
    Koei,
    Ufl,
    Ultra,
    Vap,
    Use,
    Meldac,
    Sofel,
    Quest,
    Sigma,
    AskKodansha,
    CopyaSystems,
    Tomy,
    Ncs,
    Human,
    Altron,
    Jaleco,
    Towachiki,
    Uutaka,
    Epoch,
    Athena,
    Asmik,
    Natsume,
    KingRecords,
    EpicSonyRecords,
    Igs,
    AWave,
    ExtremeEntertainment,
    BAi,
    Kss,
    Pow,
    KemcoJapan,
    Viacom,
    OceanAcclaim,
    Hudson,
    HitechEntertainment,
    Mattel,
    LucasArts,
    Sculptured,
    Sci,
    TsukudaOriginal,
    Chunsoft,
    PackInSoft,
    Unknown,
}

/// Licensee of an old licensee code (header byte 0x014B), other than 0x33.
pub open spec fn old_licensee_of(code: u8) -> Licensee {
    match code {
        0x00 => Licensee::NoLicensee,
        0x01 => Licensee::Nintendo,
        0x0C => Licensee::EliteSystems,
        0x13 => Licensee::ElectronicArts,
        0x18 => Licensee::HudsonSoft,
        0x19 => Licensee::ItcEntertainment,
        0x1A => Licensee::Yanoman,
        0x1D => Licensee::Clary,
        0x1F => Licensee::Virgin,
        0x24 => Licensee::PcmComplete,
        0x25 => Licensee::SanX,
        0x28 => Licensee::KotobukiSystems,
        0x29 => Licensee::Seta,
        0x30 => Licensee::Infogrames,
        0x31 => Licensee::Nintendo,
        0x32 => Licensee::Bandai,
        0x34 => Licensee::Konami,
        0x35 => Licensee::Hector,
        0x38 => Licensee::Capcom,
        0x39 => Licensee::Banpresto,
        0x3C => Licensee::EntertainmentI,
        0x3E => Licensee::Gremlin,
        0x41 => Licensee::Ubisoft,
        0x42 => Licensee::Atlus,
        0x44 => Licensee::Malibu,
        0x46 => Licensee::Angel,
        0x47 => Licensee::SpectrumHoloby,
        0x49 => Licensee::Irem,
        0x4A => Licensee::Virgin,
        0x4D => Licensee::Malibu,
        0x4F => Licensee::UsGold,
        0x50 => Licensee::Absolute,
        0x51 => Licensee::Acclaim,
        0x52 => Licensee::Activision,
        0x53 => Licensee::AmericanSammy,
        0x54 => Licensee::Gametek,
        0x55 => Licensee::ParkPlace,
        0x56 => Licensee::Ljn,
        0x57 => Licensee::Matchbox,
        0x59 => Licensee::MiltonBradley,
        0x5A => Licensee::Mindscape,
        0x5B => Licensee::Romstar,
        0x5C => Licensee::NaxatSoft,
        0x5D => Licensee::Tradewest,
        0x60 => Licensee::Titus,
        0x61 => Licensee::Virgin,
        0x67 => Licensee::Ocean,
        0x69 => Licensee::ElectronicArts,
        0x6E => Licensee::EliteSystems,
        0x6F => Licensee::ElectroBrain,
        0x70 => Licensee::Infogrames,
        0x71 => Licensee::Interplay,
        0x72 => Licensee::Broderbund,
        0x73 => Licensee::SculpteredSoft,
        0x75 => Licensee::TheSalesCurve,
        0x78 => Licensee::Thq,
        0x79 => Licensee::Accolade,
        0x7A => Licensee::TriffixEntertainment,
        0x7C => Licensee::Microprose,
        0x7F => Licensee::Kemco,
        0x80 => Licensee::Misawa,
        0x83 => Licensee::Lozc,
        0x86 => Licensee::TokumaShoten,
        0x8B => Licensee::BulletProof,
        0x8C => Licensee::VicTokai,
        0x8E => Licensee::Ape,
        0x8F => Licensee::Imax,
        0x91 => Licensee::ChunSoft,
        0x92 => Licensee::VideoSystem,
        0x93 => Licensee::Tsuburava,
        0x95 => Licensee::Varie,
        0x96 => Licensee::YonezawaSpal,
        0x97 => Licensee::Kaneko,
        0x99 => Licensee::Arc,
        0x9A => Licensee::NihonBussan,
        0x9B => Licensee::Tecmo,
        0x9C => Licensee::Imagineer,
        0x9D => Licensee::Banpresto,
        0x9F => Licensee::Nova,
        0xA1 => Licensee::HoriElectric,
        0xA2 => Licensee::Bandai,
        0xA4 => Licensee::Konami,
        0xA6 => Licensee::Kawada,
        0xA7 => Licensee::Takara,
        0xA9 => Licensee::TechnosJapan,
        0xAA => Licensee::Broderbund,
        0xAC => Licensee::ToeiAnimation,
        0xAD => Licensee::Toho,
        0xAF => Licensee::Namco,
        0xB0 => Licensee::Acclaim,
        0xB1 => Licensee::Nexoft,
        0xB2 => Licensee::Bandai,
        0xB4 => Licensee::Enix,
        0xB6 => Licensee::Hal,
        0xB7 => Licensee::Snk,
        0xB9 => Licensee::PonyCanyon,
        0xBA => Licensee::CultureBrain,
        0xBB => Licensee::Sunsoft,
        0xBD => Licensee::Sony,
        0xBF => Licensee::Sammy,
        0xC0 => Licensee::Taito,
        0xC2 => Licensee::Kemco,
        0xC3 => Licensee::SquareSoft,
        0xC4 => Licensee::TokumaShotenIntermedia,
        0xC5 => Licensee::DataEast,
        0xC6 => Licensee::TonkinHouse,
        0xC8 => Licensee::Koei,
        0xC9 => Licensee::Ufl,
        0xCA => Licensee::Ultra,
        0xCB => Licensee::Vap,
        0xCC => Licensee::Use,
        0xCD => Licensee::Meldac,
        0xCE => Licensee::PonyCanyon,
        0xCF => Licensee::Angel,
        0xD0 => Licensee::Taito,
        0xD1 => Licensee::Sofel,
        0xD2 => Licensee::Quest,
        0xD3 => Licensee::Sigma,
        0xD4 => Licensee::AskKodansha,
        0xD6 => Licensee::NaxatSoft,
        0xD7 => Licensee::CopyaSystems,
        0xD9 => Licensee::Banpresto,
        0xDA => Licensee::Tomy,
        0xDB => Licensee::Ljn,
        0xDD => Licensee::Ncs,
        0xDE => Licensee::Human,
        0xDF => Licensee::Altron,
        0xE0 => Licensee::Jaleco,
        0xE1 => Licensee::Towachiki,
        0xE2 => Licensee::Uutaka,
        0xE3 => Licensee::Varie,
        0xE5 => Licensee::Epoch,
        0xE7 => Licensee::Athena,
        0xE8 => Licensee::Asmik,
        0xE9 => Licensee::Natsume,
        0xEA => Licensee::KingRecords,
        0xEB => Licensee::Atlus,
        0xEC => Licensee::EpicSonyRecords,
        0xEE => Licensee::Igs,
        0xF0 => Licensee::AWave,
        0xF3 => Licensee::ExtremeEntertainment,
        0xFF => Licensee::Ljn,
        _ => Licensee::Unknown,
    }
}

/// Licensee of a new licensee code (header bytes 0x0144-0x0145, high byte first).
pub open spec fn new_licensee_of(code: u16) -> Licensee {
    match code {
        0x3030 => Licensee::NoLicensee,
        0x3031 => Licensee::Nintendo,
        0x3038 => Licensee::Capcom,
        0x3133 => Licensee::ElectronicArts,
        0x3138 => Licensee::HudsonSoft,
        0x3139 => Licensee::BAi,
        0x3230 => Licensee::Kss,
        0x3232 => Licensee::Pow,
        0x3234 => Licensee::PcmComplete,
        0x3235 => Licensee::SanX,
        0x3238 => Licensee::KemcoJapan,
        0x3239 => Licensee::Seta,
        0x3330 => Licensee::Viacom,
        0x3331 => Licensee::Nintendo,
        0x3332 => Licensee::Bandai,
        0x3333 => Licensee::OceanAcclaim,
        0x3334 => Licensee::Konami,
        0x3335 => Licensee::Hector,
        0x3337 => Licensee::Taito,
        0x3338 => Licensee::Hudson,
        0x3339 => Licensee::Banpresto,
        0x3431 => Licensee::Ubisoft,
        0x3432 => Licensee::Atlus,
        0x3434 => Licensee::Malibu,
        0x3436 => Licensee::Angel,
        0x3437 => Licensee::BulletProof,
        0x3439 => Licensee::Irem,
        0x3530 => Licensee::Absolute,
        0x3531 => Licensee::Acclaim,
        0x3532 => Licensee::Activision,
        0x3533 => Licensee::AmericanSammy,
        0x3534 => Licensee::Konami,
        0x3535 => Licensee::HitechEntertainment,
        0x3536 => Licensee::Ljn,
        0x3537 => Licensee::Matchbox,
        0x3538 => Licensee::Mattel,
        0x3539 => Licensee::MiltonBradley,
        0x3630 => Licensee::Titus,
        0x3631 => Licensee::Virgin,
        0x3634 => Licensee::LucasArts,
        0x3637 => Licensee::Ocean,
        0x3639 => Licensee::ElectronicArts,
        0x3730 => Licensee::Infogrames,
        0x3731 => Licensee::Interplay,
        0x3732 => Licensee::Broderbund,
        0x3733 => Licensee::Sculptured,
        0x3735 => Licensee::Sci,
        0x3738 => Licensee::Thq,
        0x3739 => Licensee::Accolade,
        0x3830 => Licensee::Misawa,
        0x3833 => Licensee::Lozc,
        0x3836 => Licensee::TokumaShotenIntermedia,
        0x3837 => Licensee::TsukudaOriginal,
        0x3931 => Licensee::Chunsoft,
        0x3932 => Licensee::VideoSystem,
        0x3933 => Licensee::OceanAcclaim,
        0x3935 => Licensee::Varie,
        0x3936 => Licensee::YonezawaSpal,
        0x3937 => Licensee::Kaneko,
        0x3939 => Licensee::PackInSoft,
        0x4134 => Licensee::Konami,
        _ => Licensee::Unknown,
    }
}

/// The licensee named by the header: the old code, or the new code when the old one is 0x33.
pub open spec fn licensee_of(old_code: u8, new_code: u16) -> Licensee {
    if old_code == 0x33 {
        new_licensee_of(new_code)
    } else {
        old_licensee_of(old_code)
    }
}

/// Licensee of an old licensee code (header byte 0x014B), other than 0x33.
pub fn old_licensee_from_code(code: u8) -> (l: Licensee)
    ensures
        l == old_licensee_of(code),
{
    match code {
        0x00 => Licensee::NoLicensee,
        0x01 => Licensee::Nintendo,
        0x0C => Licensee::EliteSystems,
        0x13 => Licensee::ElectronicArts,
        0x18 => Licensee::HudsonSoft,
        0x19 => Licensee::ItcEntertainment,
        0x1A => Licensee::Yanoman,
        0x1D => Licensee::Clary,
        0x1F => Licensee::Virgin,
        0x24 => Licensee::PcmComplete,
        0x25 => Licensee::SanX,
        0x28 => Licensee::KotobukiSystems,
        0x29 => Licensee::Seta,
        0x30 => Licensee::Infogrames,
        0x31 => Licensee::Nintendo,
        0x32 => Licensee::Bandai,
        0x34 => Licensee::Konami,
        0x35 => Licensee::Hector,
        0x38 => Licensee::Capcom,
        0x39 => Licensee::Banpresto,
        0x3C => Licensee::EntertainmentI,
        0x3E => Licensee::Gremlin,
        0x41 => Licensee::Ubisoft,
        0x42 => Licensee::Atlus,
        0x44 => Licensee::Malibu,
        0x46 => Licensee::Angel,
        0x47 => Licensee::SpectrumHoloby,
        0x49 => Licensee::Irem,
        0x4A => Licensee::Virgin,
        0x4D => Licensee::Malibu,
        0x4F => Licensee::UsGold,
        0x50 => Licensee::Absolute,
        0x51 => Licensee::Acclaim,
        0x52 => Licensee::Activision,
        0x53 => Licensee::AmericanSammy,
        0x54 => Licensee::Gametek,
        0x55 => Licensee::ParkPlace,
        0x56 => Licensee::Ljn,
        0x57 => Licensee::Matchbox,
        0x59 => Licensee::MiltonBradley,
        0x5A => Licensee::Mindscape,
        0x5B => Licensee::Romstar,
        0x5C => Licensee::NaxatSoft,
        0x5D => Licensee::Tradewest,
        0x60 => Licensee::Titus,
        0x61 => Licensee::Virgin,
        0x67 => Licensee::Ocean,
        0x69 => Licensee::ElectronicArts,
        0x6E => Licensee::EliteSystems,
        0x6F => Licensee::ElectroBrain,
        0x70 => Licensee::Infogrames,
        0x71 => Licensee::Interplay,
        0x72 => Licensee::Broderbund,
        0x73 => Licensee::SculpteredSoft,
        0x75 => Licensee::TheSalesCurve,
        0x78 => Licensee::Thq,
        0x79 => Licensee::Accolade,
        0x7A => Licensee::TriffixEntertainment,
        0x7C => Licensee::Microprose,
        0x7F => Licensee::Kemco,
        0x80 => Licensee::Misawa,
        0x83 => Licensee::Lozc,
        0x86 => Licensee::TokumaShoten,
        0x8B => Licensee::BulletProof,
        0x8C => Licensee::VicTokai,
        0x8E => Licensee::Ape,
        0x8F => Licensee::Imax,
        0x91 => Licensee::ChunSoft,
        0x92 => Licensee::VideoSystem,
        0x93 => Licensee::Tsuburava,
        0x95 => Licensee::Varie,
        0x96 => Licensee::YonezawaSpal,
        0x97 => Licensee::Kaneko,
        0x99 => Licensee::Arc,
        0x9A => Licensee::NihonBussan,
        0x9B => Licensee::Tecmo,
        0x9C => Licensee::Imagineer,
        0x9D => Licensee::Banpresto,
        0x9F => Licensee::Nova,
        0xA1 => Licensee::HoriElectric,
        0xA2 => Licensee::Bandai,
        0xA4 => Licensee::Konami,
        0xA6 => Licensee::Kawada,
        0xA7 => Licensee::Takara,
        0xA9 => Licensee::TechnosJapan,
        0xAA => Licensee::Broderbund,
        0xAC => Licensee::ToeiAnimation,
        0xAD => Licensee::Toho,
        0xAF => Licensee::Namco,
        0xB0 => Licensee::Acclaim,
        0xB1 => Licensee::Nexoft,
        0xB2 => Licensee::Bandai,
        0xB4 => Licensee::Enix,
        0xB6 => Licensee::Hal,
        0xB7 => Licensee::Snk,
        0xB9 => Licensee::PonyCanyon,
        0xBA => Licensee::CultureBrain,
        0xBB => Licensee::Sunsoft,
        0xBD => Licensee::Sony,
        0xBF => Licensee::Sammy,
        0xC0 => Licensee::Taito,
        0xC2 => Licensee::Kemco,
        0xC3 => Licensee::SquareSoft,
        0xC4 => Licensee::TokumaShotenIntermedia,
        0xC5 => Licensee::DataEast,
        0xC6 => Licensee::TonkinHouse,
        0xC8 => Licensee::Koei,
        0xC9 => Licensee::Ufl,
        0xCA => Licensee::Ultra,
        0xCB => Licensee::Vap,
        0xCC => Licensee::Use,
        0xCD => Licensee::Meldac,
        0xCE => Licensee::PonyCanyon,
        0xCF => Licensee::Angel,
        0xD0 => Licensee::Taito,
        0xD1 => Licensee::Sofel,
        0xD2 => Licensee::Quest,
        0xD3 => Licensee::Sigma,
        0xD4 => Licensee::AskKodansha,
        0xD6 => Licensee::NaxatSoft,
        0xD7 => Licensee::CopyaSystems,
        0xD9 => Licensee::Banpresto,
        0xDA => Licensee::Tomy,
        0xDB => Licensee::Ljn,
        0xDD => Licensee::Ncs,
        0xDE => Licensee::Human,
        0xDF => Licensee::Altron,
        0xE0 => Licensee::Jaleco,
        0xE1 => Licensee::Towachiki,
        0xE2 => Licensee::Uutaka,
        0xE3 => Licensee::Varie,
        0xE5 => Licensee::Epoch,
        0xE7 => Licensee::Athena,
        0xE8 => Licensee::Asmik,
        0xE9 => Licensee::Natsume,
        0xEA => Licensee::KingRecords,
        0xEB => Licensee::Atlus,
        0xEC => Licensee::EpicSonyRecords,
        0xEE => Licensee::Igs,
        0xF0 => Licensee::AWave,
        0xF3 => Licensee::ExtremeEntertainment,
        0xFF => Licensee::Ljn,
        _ => Licensee::Unknown,
    }
}

/// Licensee of a new licensee code (header bytes 0x0144-0x0145, high byte first).
pub fn new_licensee_from_code(code: u16) -> (l: Licensee)
    ensures
        l == new_licensee_of(code),
{
    match code {
        0x3030 => Licensee::NoLicensee,
        0x3031 => Licensee::Nintendo,
        0x3038 => Licensee::Capcom,
        0x3133 => Licensee::ElectronicArts,
        0x3138 => Licensee::HudsonSoft,
        0x3139 => Licensee::BAi,
        0x3230 => Licensee::Kss,
        0x3232 => Licensee::Pow,
        0x3234 => Licensee::PcmComplete,
        0x3235 => Licensee::SanX,
        0x3238 => Licensee::KemcoJapan,
        0x3239 => Licensee::Seta,
        0x3330 => Licensee::Viacom,
        0x3331 => Licensee::Nintendo,
        0x3332 => Licensee::Bandai,
        0x3333 => Licensee::OceanAcclaim,
        0x3334 => Licensee::Konami,
        0x3335 => Licensee::Hector,
        0x3337 => Licensee::Taito,
        0x3338 => Licensee::Hudson,
        0x3339 => Licensee::Banpresto,
        0x3431 => Licensee::Ubisoft,
        0x3432 => Licensee::Atlus,
        0x3434 => Licensee::Malibu,
        0x3436 => Licensee::Angel,
        0x3437 => Licensee::BulletProof,
        0x3439 => Licensee::Irem,
        0x3530 => Licensee::Absolute,
        0x3531 => Licensee::Acclaim,
        0x3532 => Licensee::Activision,
        0x3533 => Licensee::AmericanSammy,
        0x3534 => Licensee::Konami,
        0x3535 => Licensee::HitechEntertainment,
        0x3536 => Licensee::Ljn,
        0x3537 => Licensee::Matchbox,
        0x3538 => Licensee::Mattel,
        0x3539 => Licensee::MiltonBradley,
        0x3630 => Licensee::Titus,
        0x3631 => Licensee::Virgin,
        0x3634 => Licensee::LucasArts,
        0x3637 => Licensee::Ocean,
        0x3639 => Licensee::ElectronicArts,
        0x3730 => Licensee::Infogrames,
        0x3731 => Licensee::Interplay,
        0x3732 => Licensee::Broderbund,
        0x3733 => Licensee::Sculptured,
        0x3735 => Licensee::Sci,
        0x3738 => Licensee::Thq,
        0x3739 => Licensee::Accolade,
        0x3830 => Licensee::Misawa,
        0x3833 => Licensee::Lozc,
        0x3836 => Licensee::TokumaShotenIntermedia,
        0x3837 => Licensee::TsukudaOriginal,
        0x3931 => Licensee::Chunsoft,
        0x3932 => Licensee::VideoSystem,
        0x3933 => Licensee::OceanAcclaim,
        0x3935 => Licensee::Varie,
        0x3936 => Licensee::YonezawaSpal,
        0x3937 => Licensee::Kaneko,
        0x3939 => Licensee::PackInSoft,
        0x4134 => Licensee::Konami,
        _ => Licensee::Unknown,
    }
}

} // verus!
