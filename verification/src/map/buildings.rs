use vstd::prelude::*;

use super::position::MapRectangle;
use super::tiles::Tile;
use super::tiles_type::TileType;
use super::tools::EditingTool;

verus! {

/// Description of a building that a tool puts down on the map.
#[derive(Clone, Debug, PartialEq, Eq)]
pub struct BuildingInfo {
    /// Tiles footprint.
    pub size: MapRectangle,
    /// Tile value at top-left in the map.
    pub base_tile: Tile,
    /// Tool needed for making the building.
    pub tool: EditingTool,
    /// Name of the tool needed for making the building.
    pub tool_name: String,
    /// Building has animated tiles?
    pub is_animated: bool,
}

#[derive(Clone, Copy, Debug, PartialEq, Eq, Structural)]
pub enum BuildingType {
    Residential,
    Commercial,
    Industrial,
    PoliceStation,
    FireStation,
    Stadium,
    CoalPowerPlant,
    NuclearPowerPlant,
    Seaport,
    Airport,
}

impl BuildingType {
    /// Side length of the (square) footprint of the building.
    pub open spec fn side(self) -> usize {
        match self {
            BuildingType::Residential | BuildingType::Commercial | BuildingType::Industrial
            | BuildingType::PoliceStation | BuildingType::FireStation => 3,
            BuildingType::Airport => 6,
            _ => 4,
        }
    }

    /// Type of the top-left tile of the building.
    pub open spec fn base_type(self) -> TileType {
        match self {
            BuildingType::Residential => TileType::ResidentialBase,
            BuildingType::Commercial => TileType::CommercialBase,
            BuildingType::Industrial => TileType::IndustrialBase,
            BuildingType::PoliceStation => TileType::PoliceStationBase,
            BuildingType::FireStation => TileType::FireStationBase,
            BuildingType::Stadium => TileType::StadiumBase,
            BuildingType::CoalPowerPlant => TileType::CoalBase,
            BuildingType::NuclearPowerPlant => TileType::NuclearBase,
            BuildingType::Seaport => TileType::PortBase,
            BuildingType::Airport => TileType::AirportBase,
        }
    }

    /// Tool needed for making the building: each building its own tool.
    pub open spec fn tool_of(self) -> EditingTool {
        match self {
            BuildingType::Residential => EditingTool::Residential,
            BuildingType::Commercial => EditingTool::Commercial,
            BuildingType::Industrial => EditingTool::Industrial,
            BuildingType::PoliceStation => EditingTool::PoliceStation,
            BuildingType::FireStation => EditingTool::FireStation,
            BuildingType::Stadium => EditingTool::Stadium,
            BuildingType::CoalPowerPlant => EditingTool::CoalPower,
            BuildingType::NuclearPowerPlant => EditingTool::NuclearPower,
            BuildingType::Seaport => EditingTool::Seaport,
            BuildingType::Airport => EditingTool::Airport,
        }
    }

    /// Short name of the tool needed for the building.
    pub open spec fn label(self) -> Seq<char> {
        match self {
            BuildingType::Residential => "Res"@,
            BuildingType::Commercial => "Com"@,
            BuildingType::Industrial => "Ind"@,
            BuildingType::PoliceStation => "Pol"@,
            BuildingType::FireStation => "Fire"@,
            BuildingType::Stadium => "Stad"@,
            BuildingType::CoalPowerPlant => "Coal"@,
            BuildingType::NuclearPowerPlant => "Nuc"@,
            BuildingType::Seaport => "Seap"@,
            BuildingType::Airport => "Airp"@,
        }
    }

    /// Only the nuclear power plant has animated tiles.
    pub open spec fn animated(self) -> bool {
        self == BuildingType::NuclearPowerPlant
    }

    pub fn info(&self) -> (r: Result<BuildingInfo, String>)
        ensures
            r matches Ok(info) && {
                &&& info.size == MapRectangle { width: self.side(), height: self.side() }
                &&& info.base_tile.raw() as int == self.base_type().code()
                &&& info.base_tile.kind() == Some(self.base_type())
                &&& info.base_tile.wf()
                &&& info.tool == self.tool_of()
                &&& info.tool_name@ == self.label()
                &&& info.is_animated == self.animated()
            },
    {
        let (side, base, tool, name, is_animated): (usize, TileType, EditingTool, &str, bool) =
            match *self {
            BuildingType::Residential => (
                3,
                TileType::ResidentialBase,
                EditingTool::Residential,
                "Res",
                false,
            ),
            BuildingType::Commercial => (
                3,
                TileType::CommercialBase,
                EditingTool::Commercial,
                "Com",
                false,
            ),
            BuildingType::Industrial => (
                3,
                TileType::IndustrialBase,
                EditingTool::Industrial,
                "Ind",
                false,
            ),
            BuildingType::PoliceStation => (
                3,
                TileType::PoliceStationBase,
                EditingTool::PoliceStation,
                "Pol",
                false,
            ),
            BuildingType::FireStation => (
                3,
                TileType::FireStationBase,
                EditingTool::FireStation,
                "Fire",
                false,
            ),
            BuildingType::Stadium => (4, TileType::StadiumBase, EditingTool::Stadium, "Stad", false),
            BuildingType::CoalPowerPlant => (
                4,
                TileType::CoalBase,
                EditingTool::CoalPower,
                "Coal",
                false,
            ),
            BuildingType::NuclearPowerPlant => (
                4,
                TileType::NuclearBase,
                EditingTool::NuclearPower,
                "Nuc",
                true,
            ),
            BuildingType::Seaport => (4, TileType::PortBase, EditingTool::Seaport, "Seap", false),
            BuildingType::Airport => (6, TileType::AirportBase, EditingTool::Airport, "Airp", false),
        };
        let base_tile = match Tile::from_type(base) {
            Ok(tile) => tile,
            Err(e) => {
                return Err(e);
            },
        };
        Ok(
            BuildingInfo {
                size: MapRectangle::from((side, side)),
                base_tile,
                tool,
                tool_name: String::from_str(name),
                is_animated,
            },
        )
    }
}

} // verus!
