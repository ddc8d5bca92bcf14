use vstd::prelude::*;

verus! {

/// Raw value of the first tree tile.
pub const WOODS_LOW: u16 = 21;
/// Raw value of the last tree tile.
pub const WOODS_HIGH: u16 = 39;

/// The type of a single tile on the map.
#[derive(Clone, Copy, Debug, PartialEq, Eq, Hash, Structural)]
#[allow(non_camel_case_types)]
pub enum TileType {
    Invalid,
    Dirt,
    River,
    RiverEdge,
    Channel,
    FirstRiverEdge,
    LastRiverEdge,
    TreeBase,
    LastTree,
    Woods,
    UnusedTrash1,
    UnusedTrash2,
    Woods2,
    Woods3,
    Woods4,
    Woods5,
    Rubble,
    LastRubble,
    Flood,
    LastFlood,
    Radioactive,
    UnusedTrash3,
    UnusedTrash4,
    UnusedTrash5,
    Fire,
    LastFire,
    HorizontalBridge,
    VerticalBridge,
    Roads,
    Roads2,
    Roads3,
    Roads4,
    Roads5,
    Roads6,
    Roads7,
    Roads8,
    Roads9,
    Roads10,
    Intersection,
    HorizontalRoadPower,
    VerticalRoadPower,
    HorizontalBridgeOpened,
    LowTrafficBase,
    VerticalBridgeOpened,
    BRWXXX1,
    BRWXXX3,
    HighTrafficBase,
    BRWXXX4,
    BRWXXX5,
    BRWXXX6,
    LastRoad,
    HorizontalPower,
    VerticalPower,
    LhPower,
    LvPower,
    LvPower2,
    LvPower3,
    LvPower4,
    LvPower5,
    LvPower6,
    LvPower7,
    LvPower8,
    LvPower9,
    LvPower10,
    RailHorizontalPowerVertical,
    RailVerticalPowerHorizontal,
    UnusedTrash6,
    UnderwaterHorizontalRail,
    UnderwaterVerticalRail,
    LhRail,
    LvRail,
    LvRail2,
    LvRail3,
    LvRail4,
    LvRail5,
    LvRail6,
    LvRail7,
    LvRail8,
    LvRail9,
    LvRail10,
    HorizontalRailRoad,
    VerticalRailRoad,
    ResidentialBase,
    FreeZoneCenter,
    House,
    Hhthr,
    ResidentialZoneBase,
    HospitalBase,
    Hospital,
    ChurchBase,
    Church,
    CommercialBase,
    CommercialClr,
    CommercialZoneBase,
    CommercialLast,
    IndustrialBase,
    IndustrialClr,
    LastIndustrial,
    Industrial1,
    IndustrialZoneBase,
    Industrial2,
    Industrial3,
    Industrial4,
    Industrial5,
    Industrial6,
    Industrial7,
    Industrial8,
    Industrial9,
    PortBase,
    Port,
    LastPort,
    AirportBase,
    Radar,
    Airport,
    CoalBase,
    PowerPlant,
    LastPowerPlant,
    FireStationBase,
    FireStation,
    PoliceStationBase,
    PoliceStation,
    StadiumBase,
    Stadium,
    FullStadium,
    NuclearBase,
    Nuclear,
    LastZone,
    LIGHTNINGBOLT,
    HBRDG0,
    HBRDG1,
    HBRDG2,
    HBRDG3,
    HBRDG_END,
    RADAR1,
    RADAR2,
    RADAR3,
    RADAR4,
    RADAR5,
    RADAR6,
    RADAR7,
    FOUNTAIN,
    INDBASE2,
    TELELAST,
    SMOKEBase,
    TINYEXP,
    SOMETINYEXP,
    LASTTINYEXP,
    TINYEXPLAST,
    CoalSmoke1,
    CoalSmoke2,
    CoalSmoke3,
    CoalSmoke4,
    FootballGame1,
    FootballGame2,
    VBRDG0,
    VBRDG1,
    VBRDG2,
    VBRDG3,
    NukeSwirl1,
    NukeSwirl2,
    NukeSwirl3,
    NukeSwirl4,
    Church1Base,
    Church1,
    Church2Base,
    Church2,
    Church3Base,
    Church3,
    Church4Base,
    Church4,
    Church5Base,
    Church5,
    Church6Base,
    Church6,
    Church7Base,
    Church7,
    Church7Last,
}

/// Tile type whose raw value is `value`, if there is one.
pub open spec fn tile_type_of(value: int) -> Option<TileType> {
    if exists|t: TileType| #[trigger] t.code() == value {
        Some(choose|t: TileType| #[trigger] t.code() == value)
    } else {
        None
    }
}

/// Two tile types with the same raw value are the same type.
pub proof fn lemma_code_injective(a: TileType, b: TileType)
    requires
        a.code() == b.code(),
    ensures
        a == b,
{
}

/// Raw values of tile types lie between -1 and 1018, and only `Invalid` is negative.
pub proof fn lemma_code_range(t: TileType)
    ensures
        -1 <= t.code() <= 1018,
        t.code() < 0 <==> t == TileType::Invalid,
{
}

impl TileType {
    /// Raw integer value of the tile type (-1 for `Invalid`).
    pub open spec fn code(self) -> int {
        match self {
            TileType::Invalid => -1,
            TileType::Dirt => 0,
            TileType::River => 2,
            TileType::RiverEdge => 3,
            TileType::Channel => 4,
            TileType::FirstRiverEdge => 5,
            TileType::LastRiverEdge => 20,
            TileType::TreeBase => 21,
            TileType::LastTree => 36,
            TileType::Woods => 37,
            TileType::UnusedTrash1 => 38,
            TileType::UnusedTrash2 => 39,
            TileType::Woods2 => 40,
            TileType::Woods3 => 41,
            TileType::Woods4 => 42,
            TileType::Woods5 => 43,
            TileType::Rubble => 44,
            TileType::LastRubble => 47,
            TileType::Flood => 48,
            TileType::LastFlood => 51,
            TileType::Radioactive => 52,
            TileType::UnusedTrash3 => 53,
            TileType::UnusedTrash4 => 54,
            TileType::UnusedTrash5 => 55,
            TileType::Fire => 56,
            TileType::LastFire => 63,
            TileType::HorizontalBridge => 64,
            TileType::VerticalBridge => 65,
            TileType::Roads => 66,
            TileType::Roads2 => 67,
            TileType::Roads3 => 68,
            TileType::Roads4 => 69,
            TileType::Roads5 => 70,
            TileType::Roads6 => 71,
            TileType::Roads7 => 72,
            TileType::Roads8 => 73,
            TileType::Roads9 => 74,
            TileType::Roads10 => 75,
            TileType::Intersection => 76,
            TileType::HorizontalRoadPower => 77,
            TileType::VerticalRoadPower => 78,
            TileType::HorizontalBridgeOpened => 79,
            TileType::LowTrafficBase => 80,
            TileType::VerticalBridgeOpened => 95,
            TileType::BRWXXX1 => 111,
            TileType::BRWXXX3 => 143,
            TileType::HighTrafficBase => 144,
            TileType::BRWXXX4 => 159,
            TileType::BRWXXX5 => 175,
            TileType::BRWXXX6 => 191,
            TileType::LastRoad => 206,
            TileType::HorizontalPower => 208,
            TileType::VerticalPower => 209,
            TileType::LhPower => 210,
            TileType::LvPower => 211,
            TileType::LvPower2 => 212,
            TileType::LvPower3 => 213,
            TileType::LvPower4 => 214,
            TileType::LvPower5 => 215,
            TileType::LvPower6 => 216,
            TileType::LvPower7 => 217,
            TileType::LvPower8 => 218,
            TileType::LvPower9 => 219,
            TileType::LvPower10 => 220,
            TileType::RailHorizontalPowerVertical => 221,
            TileType::RailVerticalPowerHorizontal => 222,
            TileType::UnusedTrash6 => 223,
            TileType::UnderwaterHorizontalRail => 224,
            TileType::UnderwaterVerticalRail => 225,
            TileType::LhRail => 226,
            TileType::LvRail => 227,
            TileType::LvRail2 => 228,
            TileType::LvRail3 => 229,
            TileType::LvRail4 => 230,
            TileType::LvRail5 => 231,
            TileType::LvRail6 => 232,
            TileType::LvRail7 => 233,
            TileType::LvRail8 => 234,
            TileType::LvRail9 => 235,
            TileType::LvRail10 => 236,
            TileType::HorizontalRailRoad => 237,
            TileType::VerticalRailRoad => 238,
            TileType::ResidentialBase => 240,
            TileType::FreeZoneCenter => 244,
            TileType::House => 249,
            TileType::Hhthr => 260,
            TileType::ResidentialZoneBase => 265,
            TileType::HospitalBase => 405,
            TileType::Hospital => 409,
            TileType::ChurchBase => 414,
            TileType::Church => 418,
            TileType::CommercialBase => 423,
            TileType::CommercialClr => 427,
            TileType::CommercialZoneBase => 436,
            TileType::CommercialLast => 609,
            TileType::IndustrialBase => 612,
            TileType::IndustrialClr => 616,
            TileType::LastIndustrial => 620,
            TileType::Industrial1 => 621,
            TileType::IndustrialZoneBase => 625,
            TileType::Industrial2 => 641,
            TileType::Industrial3 => 644,
            TileType::Industrial4 => 649,
            TileType::Industrial5 => 650,
            TileType::Industrial6 => 676,
            TileType::Industrial7 => 677,
            TileType::Industrial8 => 686,
            TileType::Industrial9 => 689,
            TileType::PortBase => 693,
            TileType::Port => 698,
            TileType::LastPort => 708,
            TileType::AirportBase => 709,
            TileType::Radar => 711,
            TileType::Airport => 716,
            TileType::CoalBase => 745,
            TileType::PowerPlant => 750,
            TileType::LastPowerPlant => 760,
            TileType::FireStationBase => 761,
            TileType::FireStation => 765,
            TileType::PoliceStationBase => 770,
            TileType::PoliceStation => 774,
            TileType::StadiumBase => 779,
            TileType::Stadium => 784,
            TileType::FullStadium => 800,
            TileType::NuclearBase => 811,
            TileType::Nuclear => 816,
            TileType::LastZone => 826,
            TileType::LIGHTNINGBOLT => 827,
            TileType::HBRDG0 => 828,
            TileType::HBRDG1 => 829,
            TileType::HBRDG2 => 830,
            TileType::HBRDG3 => 831,
            TileType::HBRDG_END => 832,
            TileType::RADAR1 => 833,
            TileType::RADAR2 => 834,
            TileType::RADAR3 => 835,
            TileType::RADAR4 => 836,
            TileType::RADAR5 => 837,
            TileType::RADAR6 => 838,
            TileType::RADAR7 => 839,
            TileType::FOUNTAIN => 840,
            TileType::INDBASE2 => 844,
            TileType::TELELAST => 851,
            TileType::SMOKEBase => 852,
            TileType::TINYEXP => 860,
            TileType::SOMETINYEXP => 864,
            TileType::LASTTINYEXP => 867,
            TileType::TINYEXPLAST => 883,
            TileType::CoalSmoke1 => 916,
            TileType::CoalSmoke2 => 920,
            TileType::CoalSmoke3 => 924,
            TileType::CoalSmoke4 => 928,
            TileType::FootballGame1 => 932,
            TileType::FootballGame2 => 940,
            TileType::VBRDG0 => 948,
            TileType::VBRDG1 => 949,
            TileType::VBRDG2 => 950,
            TileType::VBRDG3 => 951,
            TileType::NukeSwirl1 => 952,
            TileType::NukeSwirl2 => 953,
            TileType::NukeSwirl3 => 954,
            TileType::NukeSwirl4 => 955,
            TileType::Church1Base => 956,
            TileType::Church1 => 960,
            TileType::Church2Base => 965,
            TileType::Church2 => 969,
            TileType::Church3Base => 974,
            TileType::Church3 => 978,
            TileType::Church4Base => 983,
            TileType::Church4 => 987,
            TileType::Church5Base => 992,
            TileType::Church5 => 996,
            TileType::Church6Base => 1001,
            TileType::Church6 => 1005,
            TileType::Church7Base => 1010,
            TileType::Church7 => 1014,
            TileType::Church7Last => 1018,
        }
    }

    /// Raw integer value of the tile type, as a signed 16-bit integer.
    pub fn to_i16(&self) -> (r: Option<i16>)
        ensures
            r == Some(self.code() as i16),
            r.unwrap() as int == self.code(),
    {
        Some(match self {
            TileType::Invalid => -1,
            TileType::Dirt => 0,
            TileType::River => 2,
            TileType::RiverEdge => 3,
            TileType::Channel => 4,
            TileType::FirstRiverEdge => 5,
            TileType::LastRiverEdge => 20,
            TileType::TreeBase => 21,
            TileType::LastTree => 36,
            TileType::Woods => 37,
            TileType::UnusedTrash1 => 38,
            TileType::UnusedTrash2 => 39,
            TileType::Woods2 => 40,
            TileType::Woods3 => 41,
            TileType::Woods4 => 42,
            TileType::Woods5 => 43,
            TileType::Rubble => 44,
            TileType::LastRubble => 47,
            TileType::Flood => 48,
            TileType::LastFlood => 51,
            TileType::Radioactive => 52,
            TileType::UnusedTrash3 => 53,
            TileType::UnusedTrash4 => 54,
            TileType::UnusedTrash5 => 55,
            TileType::Fire => 56,
            TileType::LastFire => 63,
            TileType::HorizontalBridge => 64,
            TileType::VerticalBridge => 65,
            TileType::Roads => 66,
            TileType::Roads2 => 67,
            TileType::Roads3 => 68,
            TileType::Roads4 => 69,
            TileType::Roads5 => 70,
            TileType::Roads6 => 71,
            TileType::Roads7 => 72,
            TileType::Roads8 => 73,
            TileType::Roads9 => 74,
            TileType::Roads10 => 75,
            TileType::Intersection => 76,
            TileType::HorizontalRoadPower => 77,
            TileType::VerticalRoadPower => 78,
            TileType::HorizontalBridgeOpened => 79,
            TileType::LowTrafficBase => 80,
            TileType::VerticalBridgeOpened => 95,
            TileType::BRWXXX1 => 111,
            TileType::BRWXXX3 => 143,
            TileType::HighTrafficBase => 144,
            TileType::BRWXXX4 => 159,
            TileType::BRWXXX5 => 175,
            TileType::BRWXXX6 => 191,
            TileType::LastRoad => 206,
            TileType::HorizontalPower => 208,
            TileType::VerticalPower => 209,
            TileType::LhPower => 210,
            TileType::LvPower => 211,
            TileType::LvPower2 => 212,
            TileType::LvPower3 => 213,
            TileType::LvPower4 => 214,
            TileType::LvPower5 => 215,
            TileType::LvPower6 => 216,
            TileType::LvPower7 => 217,
            TileType::LvPower8 => 218,
            TileType::LvPower9 => 219,
            TileType::LvPower10 => 220,
            TileType::RailHorizontalPowerVertical => 221,
            TileType::RailVerticalPowerHorizontal => 222,
            TileType::UnusedTrash6 => 223,
            TileType::UnderwaterHorizontalRail => 224,
            TileType::UnderwaterVerticalRail => 225,
            TileType::LhRail => 226,
            TileType::LvRail => 227,
            TileType::LvRail2 => 228,
            TileType::LvRail3 => 229,
            TileType::LvRail4 => 230,
            TileType::LvRail5 => 231,
            TileType::LvRail6 => 232,
            TileType::LvRail7 => 233,
            TileType::LvRail8 => 234,
            TileType::LvRail9 => 235,
            TileType::LvRail10 => 236,
            TileType::HorizontalRailRoad => 237,
            TileType::VerticalRailRoad => 238,
            TileType::ResidentialBase => 240,
            TileType::FreeZoneCenter => 244,
            TileType::House => 249,
            TileType::Hhthr => 260,
            TileType::ResidentialZoneBase => 265,
            TileType::HospitalBase => 405,
            TileType::Hospital => 409,
            TileType::ChurchBase => 414,
            TileType::Church => 418,
            TileType::CommercialBase => 423,
            TileType::CommercialClr => 427,
            TileType::CommercialZoneBase => 436,
            TileType::CommercialLast => 609,
            TileType::IndustrialBase => 612,
            TileType::IndustrialClr => 616,
            TileType::LastIndustrial => 620,
            TileType::Industrial1 => 621,
            TileType::IndustrialZoneBase => 625,
            TileType::Industrial2 => 641,
            TileType::Industrial3 => 644,
            TileType::Industrial4 => 649,
            TileType::Industrial5 => 650,
            TileType::Industrial6 => 676,
            TileType::Industrial7 => 677,
            TileType::Industrial8 => 686,
            TileType::Industrial9 => 689,
            TileType::PortBase => 693,
            TileType::Port => 698,
            TileType::LastPort => 708,
            TileType::AirportBase => 709,
            TileType::Radar => 711,
            TileType::Airport => 716,
            TileType::CoalBase => 745,
            TileType::PowerPlant => 750,
            TileType::LastPowerPlant => 760,
            TileType::FireStationBase => 761,
            TileType::FireStation => 765,
            TileType::PoliceStationBase => 770,
            TileType::PoliceStation => 774,
            TileType::StadiumBase => 779,
            TileType::Stadium => 784,
            TileType::FullStadium => 800,
            TileType::NuclearBase => 811,
            TileType::Nuclear => 816,
            TileType::LastZone => 826,
            TileType::LIGHTNINGBOLT => 827,
            TileType::HBRDG0 => 828,
            TileType::HBRDG1 => 829,
            TileType::HBRDG2 => 830,
            TileType::HBRDG3 => 831,
            TileType::HBRDG_END => 832,
            TileType::RADAR1 => 833,
            TileType::RADAR2 => 834,
            TileType::RADAR3 => 835,
            TileType::RADAR4 => 836,
            TileType::RADAR5 => 837,
            TileType::RADAR6 => 838,
            TileType::RADAR7 => 839,
            TileType::FOUNTAIN => 840,
            TileType::INDBASE2 => 844,
            TileType::TELELAST => 851,
            TileType::SMOKEBase => 852,
            TileType::TINYEXP => 860,
            TileType::SOMETINYEXP => 864,
            TileType::LASTTINYEXP => 867,
            TileType::TINYEXPLAST => 883,
            TileType::CoalSmoke1 => 916,
            TileType::CoalSmoke2 => 920,
            TileType::CoalSmoke3 => 924,
            TileType::CoalSmoke4 => 928,
            TileType::FootballGame1 => 932,
            TileType::FootballGame2 => 940,
            TileType::VBRDG0 => 948,
            TileType::VBRDG1 => 949,
            TileType::VBRDG2 => 950,
            TileType::VBRDG3 => 951,
            TileType::NukeSwirl1 => 952,
            TileType::NukeSwirl2 => 953,
            TileType::NukeSwirl3 => 954,
            TileType::NukeSwirl4 => 955,
            TileType::Church1Base => 956,
            TileType::Church1 => 960,
            TileType::Church2Base => 965,
            TileType::Church2 => 969,
            TileType::Church3Base => 974,
            TileType::Church3 => 978,
            TileType::Church4Base => 983,
            TileType::Church4 => 987,
            TileType::Church5Base => 992,
            TileType::Church5 => 996,
            TileType::Church6Base => 1001,
            TileType::Church6 => 1005,
            TileType::Church7Base => 1010,
            TileType::Church7 => 1014,
            TileType::Church7Last => 1018,
        })
    }

    /// Raw integer value of a valid tile type.
    pub(crate) fn raw_value(&self) -> (r: u16)
        requires
            *self != TileType::Invalid,
        ensures
            r as int == self.code(),
    {
        match self.to_u16() {
            Some(v) => v,
            None => 0,
        }
    }

    /// Raw integer value of the tile type, `None` for `Invalid`.
    pub fn to_u16(&self) -> (r: Option<u16>)
        ensures
            *self == TileType::Invalid ==> r is None,
            *self != TileType::Invalid ==> r == Some(self.code() as u16) && r.unwrap() as int == self.code(),
    {
        match self {
            TileType::Invalid => None,
            _ => match self.to_i16() {
                Some(v) => Some(v as u16),
                None => None,
            },
        }
    }

    /// Raw integer value of the tile type, `None` for `Invalid`.
    pub fn to_usize(&self) -> (r: Option<usize>)
        ensures
            *self == TileType::Invalid ==> r is None,
            *self != TileType::Invalid ==> r == Some(self.code() as usize) && r.unwrap() as int == self.code(),
    {
        match self.to_u16() {
            Some(v) => Some(v as usize),
            None => None,
        }
    }

    /// Tile type of the given raw value, if there is one.
    pub fn from_u16(value: u16) -> (r: Option<Self>)
        ensures
            r matches Some(t) ==> t.code() == value as int,
            r is None ==> forall|t: TileType| #[trigger] t.code() != value as int,
            r == tile_type_of(value as int),
    {
        let r = match value {
            0 => Some(TileType::Dirt),
            2 => Some(TileType::River),
            3 => Some(TileType::RiverEdge),
            4 => Some(TileType::Channel),
            5 => Some(TileType::FirstRiverEdge),
            20 => Some(TileType::LastRiverEdge),
            21 => Some(TileType::TreeBase),
            36 => Some(TileType::LastTree),
            37 => Some(TileType::Woods),
            38 => Some(TileType::UnusedTrash1),
            39 => Some(TileType::UnusedTrash2),
            40 => Some(TileType::Woods2),
            41 => Some(TileType::Woods3),
            42 => Some(TileType::Woods4),
            43 => Some(TileType::Woods5),
            44 => Some(TileType::Rubble),
            47 => Some(TileType::LastRubble),
            48 => Some(TileType::Flood),
            51 => Some(TileType::LastFlood),
            52 => Some(TileType::Radioactive),
            53 => Some(TileType::UnusedTrash3),
            54 => Some(TileType::UnusedTrash4),
            55 => Some(TileType::UnusedTrash5),
            56 => Some(TileType::Fire),
            63 => Some(TileType::LastFire),
            64 => Some(TileType::HorizontalBridge),
            65 => Some(TileType::VerticalBridge),
            66 => Some(TileType::Roads),
            67 => Some(TileType::Roads2),
            68 => Some(TileType::Roads3),
            69 => Some(TileType::Roads4),
            70 => Some(TileType::Roads5),
            71 => Some(TileType::Roads6),
            72 => Some(TileType::Roads7),
            73 => Some(TileType::Roads8),
            74 => Some(TileType::Roads9),
            75 => Some(TileType::Roads10),
            76 => Some(TileType::Intersection),
            77 => Some(TileType::HorizontalRoadPower),
            78 => Some(TileType::VerticalRoadPower),
            79 => Some(TileType::HorizontalBridgeOpened),
            80 => Some(TileType::LowTrafficBase),
            95 => Some(TileType::VerticalBridgeOpened),
            111 => Some(TileType::BRWXXX1),
            143 => Some(TileType::BRWXXX3),
            144 => Some(TileType::HighTrafficBase),
            159 => Some(TileType::BRWXXX4),
            175 => Some(TileType::BRWXXX5),
            191 => Some(TileType::BRWXXX6),
            206 => Some(TileType::LastRoad),
            208 => Some(TileType::HorizontalPower),
            209 => Some(TileType::VerticalPower),
            210 => Some(TileType::LhPower),
            211 => Some(TileType::LvPower),
            212 => Some(TileType::LvPower2),
            213 => Some(TileType::LvPower3),
            214 => Some(TileType::LvPower4),
            215 => Some(TileType::LvPower5),
            216 => Some(TileType::LvPower6),
            217 => Some(TileType::LvPower7),
            218 => Some(TileType::LvPower8),
            219 => Some(TileType::LvPower9),
            220 => Some(TileType::LvPower10),
            221 => Some(TileType::RailHorizontalPowerVertical),
            222 => Some(TileType::RailVerticalPowerHorizontal),
            223 => Some(TileType::UnusedTrash6),
            224 => Some(TileType::UnderwaterHorizontalRail),
            225 => Some(TileType::UnderwaterVerticalRail),
            226 => Some(TileType::LhRail),
            227 => Some(TileType::LvRail),
            228 => Some(TileType::LvRail2),
            229 => Some(TileType::LvRail3),
            230 => Some(TileType::LvRail4),
            231 => Some(TileType::LvRail5),
            232 => Some(TileType::LvRail6),
            233 => Some(TileType::LvRail7),
            234 => Some(TileType::LvRail8),
            235 => Some(TileType::LvRail9),
            236 => Some(TileType::LvRail10),
            237 => Some(TileType::HorizontalRailRoad),
            238 => Some(TileType::VerticalRailRoad),
            240 => Some(TileType::ResidentialBase),
            244 => Some(TileType::FreeZoneCenter),
            249 => Some(TileType::House),
            260 => Some(TileType::Hhthr),
            265 => Some(TileType::ResidentialZoneBase),
            405 => Some(TileType::HospitalBase),
            409 => Some(TileType::Hospital),
            414 => Some(TileType::ChurchBase),
            418 => Some(TileType::Church),
            423 => Some(TileType::CommercialBase),
            427 => Some(TileType::CommercialClr),
            436 => Some(TileType::CommercialZoneBase),
            609 => Some(TileType::CommercialLast),
            612 => Some(TileType::IndustrialBase),
            616 => Some(TileType::IndustrialClr),
            620 => Some(TileType::LastIndustrial),
            621 => Some(TileType::Industrial1),
            625 => Some(TileType::IndustrialZoneBase),
            641 => Some(TileType::Industrial2),
            644 => Some(TileType::Industrial3),
            649 => Some(TileType::Industrial4),
            650 => Some(TileType::Industrial5),
            676 => Some(TileType::Industrial6),
            677 => Some(TileType::Industrial7),
            686 => Some(TileType::Industrial8),
            689 => Some(TileType::Industrial9),
            693 => Some(TileType::PortBase),
            698 => Some(TileType::Port),
            708 => Some(TileType::LastPort),
            709 => Some(TileType::AirportBase),
            711 => Some(TileType::Radar),
            716 => Some(TileType::Airport),
            745 => Some(TileType::CoalBase),
            750 => Some(TileType::PowerPlant),
            760 => Some(TileType::LastPowerPlant),
            761 => Some(TileType::FireStationBase),
            765 => Some(TileType::FireStation),
            770 => Some(TileType::PoliceStationBase),
            774 => Some(TileType::PoliceStation),
            779 => Some(TileType::StadiumBase),
            784 => Some(TileType::Stadium),
            800 => Some(TileType::FullStadium),
            811 => Some(TileType::NuclearBase),
            816 => Some(TileType::Nuclear),
            826 => Some(TileType::LastZone),
            827 => Some(TileType::LIGHTNINGBOLT),
            828 => Some(TileType::HBRDG0),
            829 => Some(TileType::HBRDG1),
            830 => Some(TileType::HBRDG2),
            831 => Some(TileType::HBRDG3),
            832 => Some(TileType::HBRDG_END),
            833 => Some(TileType::RADAR1),
            834 => Some(TileType::RADAR2),
            835 => Some(TileType::RADAR3),
            836 => Some(TileType::RADAR4),
            837 => Some(TileType::RADAR5),
            838 => Some(TileType::RADAR6),
            839 => Some(TileType::RADAR7),
            840 => Some(TileType::FOUNTAIN),
            844 => Some(TileType::INDBASE2),
            851 => Some(TileType::TELELAST),
            852 => Some(TileType::SMOKEBase),
            860 => Some(TileType::TINYEXP),
            864 => Some(TileType::SOMETINYEXP),
            867 => Some(TileType::LASTTINYEXP),
            883 => Some(TileType::TINYEXPLAST),
            916 => Some(TileType::CoalSmoke1),
            920 => Some(TileType::CoalSmoke2),
            924 => Some(TileType::CoalSmoke3),
            928 => Some(TileType::CoalSmoke4),
            932 => Some(TileType::FootballGame1),
            940 => Some(TileType::FootballGame2),
            948 => Some(TileType::VBRDG0),
            949 => Some(TileType::VBRDG1),
            950 => Some(TileType::VBRDG2),
            951 => Some(TileType::VBRDG3),
            952 => Some(TileType::NukeSwirl1),
            953 => Some(TileType::NukeSwirl2),
            954 => Some(TileType::NukeSwirl3),
            955 => Some(TileType::NukeSwirl4),
            956 => Some(TileType::Church1Base),
            960 => Some(TileType::Church1),
            965 => Some(TileType::Church2Base),
            969 => Some(TileType::Church2),
            974 => Some(TileType::Church3Base),
            978 => Some(TileType::Church3),
            983 => Some(TileType::Church4Base),
            987 => Some(TileType::Church4),
            992 => Some(TileType::Church5Base),
            996 => Some(TileType::Church5),
            1001 => Some(TileType::Church6Base),
            1005 => Some(TileType::Church6),
            1010 => Some(TileType::Church7Base),
            1014 => Some(TileType::Church7),
            1018 => Some(TileType::Church7Last),
            _ => None,
        };
        proof {
            if let Some(t) = r {
                let c = choose|u: TileType| #[trigger] u.code() == value as int;
                lemma_code_injective(t, c);
            }
        }
        r
    }

    /// Tile type of the given raw value, if there is one.
    pub fn from_i16(value: i16) -> (r: Option<Self>)
        ensures
            r matches Some(t) ==> t.code() == value as int,
            r is None ==> forall|t: TileType| #[trigger] t.code() != value as int,
            r == tile_type_of(value as int),
    {
        proof {
            if value == -1 {
                assert(TileType::Invalid.code() == -1);
                assert forall|t: TileType| #[trigger] t.code() == -1 implies t == TileType::Invalid by {
                    lemma_code_injective(t, TileType::Invalid);
                }
            }
        }
        if value == -1 {
            Some(TileType::Invalid)
        } else if value < 0 {
            None
        } else {
            Self::from_u16(value as u16)
        }
    }

    /// Tile type of the given raw value, if there is one.
    pub fn from_usize(value: usize) -> (r: Option<Self>)
        ensures
            r matches Some(t) ==> t.code() == value as int,
            r is None ==> forall|t: TileType| #[trigger] t.code() != value as int,
            r == tile_type_of(value as int),
    {
        if value > 0xFFFF {
            None
        } else {
            Self::from_u16(value as u16)
        }
    }
}

} // verus!
