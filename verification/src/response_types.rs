//! Response types for all war API endpoints.
//!
//! Each type mirrors one JSON shape of the API. The two tag-coded
//! enumerations ([`TeamId`], [`IconType`]) decode fail-closed: a token or
//! integer with no matching variant is a decode error, never a default.
//! Coordinates travel as their raw decimal tokens, so a value re-encodes
//! exactly as it arrived.

use vstd::prelude::*;
use crate::util::str_eq;

verus! {

/// Status of the war on a shard, from the war endpoint.
#[derive(Debug, Clone, PartialEq, Eq)]
pub struct WarDataResponse {
    /// Opaque war identifier.
    pub war_id: String,
    /// Sequence number of the war.
    pub war_number: u32,
    /// Winning team; `TeamId::NoTeam` while the war is undecided.
    pub winner: TeamId,
    /// Millisecond epoch timestamp of conquest start.
    pub conquest_start_time: u64,
    /// Millisecond epoch timestamp of conquest end, unset while ongoing.
    pub conquest_end_time: Option<u64>,
    /// Millisecond epoch timestamp of resistance start, unset while ongoing.
    pub resistance_start_time: Option<u64>,
    /// Number of victory towns required to win.
    pub required_victory_towns: u8,
}

/// Mathematical value of a [`WarDataResponse`].
pub struct WarDataModel {
    pub war_id: Seq<char>,
    pub war_number: int,
    pub winner: TeamId,
    pub conquest_start_time: int,
    pub conquest_end_time: Option<int>,
    pub resistance_start_time: Option<int>,
    pub required_victory_towns: int,
}

impl View for WarDataResponse {
    type V = WarDataModel;

    open spec fn view(&self) -> WarDataModel {
        WarDataModel {
            war_id: self.war_id@,
            war_number: self.war_number as int,
            winner: self.winner,
            conquest_start_time: self.conquest_start_time as int,
            conquest_end_time: match self.conquest_end_time {
                Option::Some(t) => Option::Some(t as int),
                Option::None => Option::None,
            },
            resistance_start_time: match self.resistance_start_time {
                Option::Some(t) => Option::Some(t as int),
                Option::None => Option::None,
            },
            required_victory_towns: self.required_victory_towns as int,
        }
    }
}

/// All map names present on a shard, in server order.
#[derive(Debug, Clone, PartialEq, Eq)]
pub struct MapNameResponse {
    pub maps: Vec<String>,
}

impl View for MapNameResponse {
    type V = Seq<Seq<char>>;

    open spec fn view(&self) -> Seq<Seq<char>> {
        self.maps@.map_values(|s: String| s@)
    }
}

/// Contents of one map hex, from the static or dynamic map endpoint.
#[derive(Debug, Clone, PartialEq, Eq)]
pub struct MapDataResponse {
    pub region_id: u16,
    pub scorched_victory_towns: u16,
    pub map_items: Vec<MapItem>,
    pub map_text_items: Vec<MapTextItem>,
    /// Millisecond epoch timestamp of the last change.
    pub last_updated: u64,
    /// Server-incremented counter; callers compare it across fetches.
    pub version: u16,
}

/// Mathematical value of a [`MapDataResponse`].
pub struct MapDataModel {
    pub region_id: int,
    pub scorched_victory_towns: int,
    pub map_items: Seq<MapItemModel>,
    pub map_text_items: Seq<MapTextItemModel>,
    pub last_updated: int,
    pub version: int,
}

impl View for MapDataResponse {
    type V = MapDataModel;

    open spec fn view(&self) -> MapDataModel {
        MapDataModel {
            region_id: self.region_id as int,
            scorched_victory_towns: self.scorched_victory_towns as int,
            map_items: self.map_items@.map_values(|m: MapItem| m@),
            map_text_items: self.map_text_items@.map_values(|m: MapTextItem| m@),
            last_updated: self.last_updated as int,
            version: self.version as int,
        }
    }
}

/// One item on a map hex: its owner, kind, position and flags.
#[derive(Debug, Clone, PartialEq, Eq)]
pub struct MapItem {
    pub team_id: TeamId,
    pub icon_type: IconType,
    /// Normalized horizontal position in `[0, 1]`, as its decimal token.
    pub x: String,
    /// Normalized vertical position in `[0, 1]`, as its decimal token.
    pub y: String,
    /// Raw bit flags, uninterpreted.
    pub flags: u16,
}

/// Mathematical value of a [`MapItem`].
pub struct MapItemModel {
    pub team_id: TeamId,
    pub icon_type: IconType,
    pub x: Seq<char>,
    pub y: Seq<char>,
    pub flags: int,
}

impl View for MapItem {
    type V = MapItemModel;

    open spec fn view(&self) -> MapItemModel {
        MapItemModel {
            team_id: self.team_id,
            icon_type: self.icon_type,
            x: self.x@,
            y: self.y@,
            flags: self.flags as int,
        }
    }
}

/// One map label: its text, position and marker size.
#[derive(Debug, Clone, PartialEq, Eq)]
pub struct MapTextItem {
    pub text: String,
    /// Normalized horizontal position in `[0, 1]`, as its decimal token.
    pub x: String,
    /// Normalized vertical position in `[0, 1]`, as its decimal token.
    pub y: String,
    pub map_marker_type: MapMarkerType,
}

/// Mathematical value of a [`MapTextItem`].
pub struct MapTextItemModel {
    pub text: Seq<char>,
    pub x: Seq<char>,
    pub y: Seq<char>,
    pub map_marker_type: MapMarkerType,
}

impl View for MapTextItem {
    type V = MapTextItemModel;

    open spec fn view(&self) -> MapTextItemModel {
        MapTextItemModel {
            text: self.text@,
            x: self.x@,
            y: self.y@,
            map_marker_type: self.map_marker_type,
        }
    }
}

/// Team owning a map item, or winning a war.
#[derive(Debug, Clone, Copy, PartialEq, Eq, Structural)]
pub enum TeamId {
    NoTeam,
    Wardens,
    Colonials,
}

/// Wire token of a team.
pub open spec fn team_token(t: TeamId) -> Seq<char> {
    match t {
        TeamId::NoTeam => "NONE"@,
        TeamId::Wardens => "WARDENS"@,
        TeamId::Colonials => "COLONIALS"@,
    }
}

/// Team of a wire token; tokens match exactly or fail.
pub open spec fn team_of_token(s: Seq<char>) -> Option<TeamId> {
    if s == "NONE"@ {
        Option::Some(TeamId::NoTeam)
    } else if s == "WARDENS"@ {
        Option::Some(TeamId::Wardens)
    } else if s == "COLONIALS"@ {
        Option::Some(TeamId::Colonials)
    } else {
        Option::None
    }
}

/// Decodes a team from its wire token, fail-closed.
pub fn team_id_from_token(s: &str) -> (r: Option<TeamId>)
    ensures
        r == team_of_token(s@),
{
    if str_eq(s, "NONE") {
        Some(TeamId::NoTeam)
    } else if str_eq(s, "WARDENS") {
        Some(TeamId::Wardens)
    } else if str_eq(s, "COLONIALS") {
        Some(TeamId::Colonials)
    } else {
        None
    }
}

/// Wire token of a team; decoding the token yields the team back.
pub fn team_id_token(t: &TeamId) -> (r: &'static str)
    ensures
        r@ == team_token(*t),
        team_of_token(team_token(*t)) == Option::Some(*t),
{
    proof {
        reveal_strlit("NONE");
        reveal_strlit("WARDENS");
        reveal_strlit("COLONIALS");
        assert("NONE"@.len() == 4);
        assert("WARDENS"@.len() == 7);
        assert("COLONIALS"@.len() == 9);
    }
    match t {
        TeamId::NoTeam => "NONE",
        TeamId::Wardens => "WARDENS",
        TeamId::Colonials => "COLONIALS",
    }
}

/// Size class of a map label.
#[derive(Debug, Clone, Copy, PartialEq, Eq, Structural)]
pub enum MapMarkerType {
    Major,
    Minor,
}

/// Wire token of a marker size.
pub open spec fn marker_token(m: MapMarkerType) -> Seq<char> {
    match m {
        MapMarkerType::Major => "Major"@,
        MapMarkerType::Minor => "Minor"@,
    }
}

/// Marker size of a wire token; tokens match exactly or fail.
pub open spec fn marker_of_token(s: Seq<char>) -> Option<MapMarkerType> {
    if s == "Major"@ {
        Option::Some(MapMarkerType::Major)
    } else if s == "Minor"@ {
        Option::Some(MapMarkerType::Minor)
    } else {
        Option::None
    }
}

/// Decodes a marker size from its wire token, fail-closed.
pub fn map_marker_from_token(s: &str) -> (r: Option<MapMarkerType>)
    ensures
        r == marker_of_token(s@),
{
    if str_eq(s, "Major") {
        Some(MapMarkerType::Major)
    } else if str_eq(s, "Minor") {
        Some(MapMarkerType::Minor)
    } else {
        None
    }
}

/// Wire token of a marker size; decoding the token yields the size back.
pub fn map_marker_token(m: &MapMarkerType) -> (r: &'static str)
    ensures
        r@ == marker_token(*m),
        marker_of_token(marker_token(*m)) == Option::Some(*m),
{
    proof {
        reveal_strlit("Major");
        reveal_strlit("Minor");
        assert("Major"@[2] != "Minor"@[2]);
    }
    match m {
        MapMarkerType::Major => "Major",
        MapMarkerType::Minor => "Minor",
    }
}

/// Kind of a map item, decoded from the API's integer tag.
#[derive(Debug, Clone, Copy, PartialEq, Eq, Structural)]
pub enum IconType {
    StaticBase,
    StaticBase2,
    StaticBase3,
    ForwardBase1,
    ForwardBase2,
    ForwardBase3,
    Hospital,
    VehicleFactory,
    Armory,
    SupplyStation,
    Workshop,
    ManufacturingPlant,
    Refinery,
    Shipyard,
    TechCenter,
    SalvageField,
    ComponentField,
    FuelField,
    SulfurField,
    WorldMapTent,
    TravelTent,
    TrainingArea,
    SpecialBase,
    ObservationTower,
    Fort,
    TroopShip,
    SulfurMine,
    StorageFacility,
    Factory,
    GarrisonStation,
    AmmoFactory,
    RocketSite,
    SalvageMine,
    ConstructionYard,
    ComponentMine,
    OilWell,
    RelicBase1,
    RelicBase2,
    RelicBase3,
    MassProductionFactory,
    Seaport,
    CoastalGun,
    SoulFactory,
    TownBase1,
    TownBase2,
    TownBase3,
    StormCannon,
    IntelCenter,
}

/// Integer tag of an icon kind on the wire.
pub open spec fn icon_tag(icon: IconType) -> int {
    match icon {
        IconType::StaticBase => 5,
        IconType::StaticBase2 => 6,
        IconType::StaticBase3 => 7,
        IconType::ForwardBase1 => 8,
        IconType::ForwardBase2 => 9,
        IconType::ForwardBase3 => 10,
        IconType::Hospital => 11,
        IconType::VehicleFactory => 12,
        IconType::Armory => 13,
        IconType::SupplyStation => 14,
        IconType::Workshop => 15,
        IconType::ManufacturingPlant => 16,
        IconType::Refinery => 17,
        IconType::Shipyard => 18,
        IconType::TechCenter => 19,
        IconType::SalvageField => 20,
        IconType::ComponentField => 21,
        IconType::FuelField => 22,
        IconType::SulfurField => 23,
        IconType::WorldMapTent => 24,
        IconType::TravelTent => 25,
        IconType::TrainingArea => 26,
        IconType::SpecialBase => 27,
        IconType::ObservationTower => 28,
        IconType::Fort => 29,
        IconType::TroopShip => 30,
        IconType::SulfurMine => 32,
        IconType::StorageFacility => 33,
        IconType::Factory => 34,
        IconType::GarrisonStation => 35,
        IconType::AmmoFactory => 36,
        IconType::RocketSite => 37,
        IconType::SalvageMine => 38,
        IconType::ConstructionYard => 39,
        IconType::ComponentMine => 40,
        IconType::OilWell => 41,
        IconType::RelicBase1 => 45,
        IconType::RelicBase2 => 46,
        IconType::RelicBase3 => 47,
        IconType::MassProductionFactory => 51,
        IconType::Seaport => 52,
        IconType::CoastalGun => 53,
        IconType::SoulFactory => 54,
        IconType::TownBase1 => 56,
        IconType::TownBase2 => 57,
        IconType::TownBase3 => 58,
        IconType::StormCannon => 59,
        IconType::IntelCenter => 60,
    }
}

/// Icon kind of an integer tag; a tag with no variant fails.
pub open spec fn icon_of_tag(n: int) -> Option<IconType> {
    if n == 5 {
        Option::Some(IconType::StaticBase)
    } else if n == 6 {
        Option::Some(IconType::StaticBase2)
    } else if n == 7 {
        Option::Some(IconType::StaticBase3)
    } else if n == 8 {
        Option::Some(IconType::ForwardBase1)
    } else if n == 9 {
        Option::Some(IconType::ForwardBase2)
    } else if n == 10 {
        Option::Some(IconType::ForwardBase3)
    } else if n == 11 {
        Option::Some(IconType::Hospital)
    } else if n == 12 {
        Option::Some(IconType::VehicleFactory)
    } else if n == 13 {
        Option::Some(IconType::Armory)
    } else if n == 14 {
        Option::Some(IconType::SupplyStation)
    } else if n == 15 {
        Option::Some(IconType::Workshop)
    } else if n == 16 {
        Option::Some(IconType::ManufacturingPlant)
    } else if n == 17 {
        Option::Some(IconType::Refinery)
    } else if n == 18 {
        Option::Some(IconType::Shipyard)
    } else if n == 19 {
        Option::Some(IconType::TechCenter)
    } else if n == 20 {
        Option::Some(IconType::SalvageField)
    } else if n == 21 {
        Option::Some(IconType::ComponentField)
    } else if n == 22 {
        Option::Some(IconType::FuelField)
    } else if n == 23 {
        Option::Some(IconType::SulfurField)
    } else if n == 24 {
        Option::Some(IconType::WorldMapTent)
    } else if n == 25 {
        Option::Some(IconType::TravelTent)
    } else if n == 26 {
        Option::Some(IconType::TrainingArea)
    } else if n == 27 {
        Option::Some(IconType::SpecialBase)
    } else if n == 28 {
        Option::Some(IconType::ObservationTower)
    } else if n == 29 {
        Option::Some(IconType::Fort)
    } else if n == 30 {
        Option::Some(IconType::TroopShip)
    } else if n == 32 {
        Option::Some(IconType::SulfurMine)
    } else if n == 33 {
        Option::Some(IconType::StorageFacility)
    } else if n == 34 {
        Option::Some(IconType::Factory)
    } else if n == 35 {
        Option::Some(IconType::GarrisonStation)
    } else if n == 36 {
        Option::Some(IconType::AmmoFactory)
    } else if n == 37 {
        Option::Some(IconType::RocketSite)
    } else if n == 38 {
        Option::Some(IconType::SalvageMine)
    } else if n == 39 {
        Option::Some(IconType::ConstructionYard)
    } else if n == 40 {
        Option::Some(IconType::ComponentMine)
    } else if n == 41 {
        Option::Some(IconType::OilWell)
    } else if n == 45 {
        Option::Some(IconType::RelicBase1)
    } else if n == 46 {
        Option::Some(IconType::RelicBase2)
    } else if n == 47 {
        Option::Some(IconType::RelicBase3)
    } else if n == 51 {
        Option::Some(IconType::MassProductionFactory)
    } else if n == 52 {
        Option::Some(IconType::Seaport)
    } else if n == 53 {
        Option::Some(IconType::CoastalGun)
    } else if n == 54 {
        Option::Some(IconType::SoulFactory)
    } else if n == 56 {
        Option::Some(IconType::TownBase1)
    } else if n == 57 {
        Option::Some(IconType::TownBase2)
    } else if n == 58 {
        Option::Some(IconType::TownBase3)
    } else if n == 59 {
        Option::Some(IconType::StormCannon)
    } else if n == 60 {
        Option::Some(IconType::IntelCenter)
    } else {
        Option::None
    }
}

/// Decodes an icon kind from its integer tag, fail-closed.
pub fn icon_type_from_tag(tag: u16) -> (r: Option<IconType>)
    ensures
        r == icon_of_tag(tag as int),
{
    match tag {
        5u16 => Some(IconType::StaticBase),
        6u16 => Some(IconType::StaticBase2),
        7u16 => Some(IconType::StaticBase3),
        8u16 => Some(IconType::ForwardBase1),
        9u16 => Some(IconType::ForwardBase2),
        10u16 => Some(IconType::ForwardBase3),
        11u16 => Some(IconType::Hospital),
        12u16 => Some(IconType::VehicleFactory),
        13u16 => Some(IconType::Armory),
        14u16 => Some(IconType::SupplyStation),
        15u16 => Some(IconType::Workshop),
        16u16 => Some(IconType::ManufacturingPlant),
        17u16 => Some(IconType::Refinery),
        18u16 => Some(IconType::Shipyard),
        19u16 => Some(IconType::TechCenter),
        20u16 => Some(IconType::SalvageField),
        21u16 => Some(IconType::ComponentField),
        22u16 => Some(IconType::FuelField),
        23u16 => Some(IconType::SulfurField),
        24u16 => Some(IconType::WorldMapTent),
        25u16 => Some(IconType::TravelTent),
        26u16 => Some(IconType::TrainingArea),
        27u16 => Some(IconType::SpecialBase),
        28u16 => Some(IconType::ObservationTower),
        29u16 => Some(IconType::Fort),
        30u16 => Some(IconType::TroopShip),
        32u16 => Some(IconType::SulfurMine),
        33u16 => Some(IconType::StorageFacility),
        34u16 => Some(IconType::Factory),
        35u16 => Some(IconType::GarrisonStation),
        36u16 => Some(IconType::AmmoFactory),
        37u16 => Some(IconType::RocketSite),
        38u16 => Some(IconType::SalvageMine),
        39u16 => Some(IconType::ConstructionYard),
        40u16 => Some(IconType::ComponentMine),
        41u16 => Some(IconType::OilWell),
        45u16 => Some(IconType::RelicBase1),
        46u16 => Some(IconType::RelicBase2),
        47u16 => Some(IconType::RelicBase3),
        51u16 => Some(IconType::MassProductionFactory),
        52u16 => Some(IconType::Seaport),
        53u16 => Some(IconType::CoastalGun),
        54u16 => Some(IconType::SoulFactory),
        56u16 => Some(IconType::TownBase1),
        57u16 => Some(IconType::TownBase2),
        58u16 => Some(IconType::TownBase3),
        59u16 => Some(IconType::StormCannon),
        60u16 => Some(IconType::IntelCenter),
        _ => None,
    }
}

/// Integer tag of an icon kind; decoding the tag yields the kind back.
pub fn icon_type_tag(icon: &IconType) -> (r: u16)
    ensures
        r as int == icon_tag(*icon),
        icon_of_tag(icon_tag(*icon)) == Option::Some(*icon),
{
    match icon {
        IconType::StaticBase => 5,
        IconType::StaticBase2 => 6,
        IconType::StaticBase3 => 7,
        IconType::ForwardBase1 => 8,
        IconType::ForwardBase2 => 9,
        IconType::ForwardBase3 => 10,
        IconType::Hospital => 11,
        IconType::VehicleFactory => 12,
        IconType::Armory => 13,
        IconType::SupplyStation => 14,
        IconType::Workshop => 15,
        IconType::ManufacturingPlant => 16,
        IconType::Refinery => 17,
        IconType::Shipyard => 18,
        IconType::TechCenter => 19,
        IconType::SalvageField => 20,
        IconType::ComponentField => 21,
        IconType::FuelField => 22,
        IconType::SulfurField => 23,
        IconType::WorldMapTent => 24,
        IconType::TravelTent => 25,
        IconType::TrainingArea => 26,
        IconType::SpecialBase => 27,
        IconType::ObservationTower => 28,
        IconType::Fort => 29,
        IconType::TroopShip => 30,
        IconType::SulfurMine => 32,
        IconType::StorageFacility => 33,
        IconType::Factory => 34,
        IconType::GarrisonStation => 35,
        IconType::AmmoFactory => 36,
        IconType::RocketSite => 37,
        IconType::SalvageMine => 38,
        IconType::ConstructionYard => 39,
        IconType::ComponentMine => 40,
        IconType::OilWell => 41,
        IconType::RelicBase1 => 45,
        IconType::RelicBase2 => 46,
        IconType::RelicBase3 => 47,
        IconType::MassProductionFactory => 51,
        IconType::Seaport => 52,
        IconType::CoastalGun => 53,
        IconType::SoulFactory => 54,
        IconType::TownBase1 => 56,
        IconType::TownBase2 => 57,
        IconType::TownBase3 => 58,
        IconType::StormCannon => 59,
        IconType::IntelCenter => 60,
    }
}

} // verus!
