use vstd::prelude::*;

use super::tiles::{
    type_bits, Tile, TILE_BULL_BIT, TILE_BURN_BIT, TILE_BURN_BULL_CONDUCT_BIT, TILE_CONDUCT_BIT,
    TILE_LOW_MASK,
};
use super::tiles_type::TileType;
use super::tools::{value_in, ConnectTileCommand, ToolEffects, ToolResult};
use super::{MapPosition, TileMap};

verus! {

/// Raw type with the road variants (bridges, roads, crossings) folded onto
/// their plain road counterpart.
pub open spec fn neutral_road(raw: u16) -> u16 {
    if 64 <= raw <= 207 {
        (raw % 16 + 64) as u16
    } else {
        raw
    }
}

/// Type bits of the tile shown at the position, modifications included.
pub open spec fn low_in(changes: Map<MapPosition, Tile>, map: TileMap, p: MapPosition) -> Option<u16> {
    match value_in(changes, map, p) {
        Some(t) => Some(type_bits(t.raw())),
        None => None,
    }
}

/// Network that a (neutralized) tile type belongs to: 1 for roads, 2 for
/// rails, 3 for wires, 0 for anything else.
pub open spec fn network_of(code: u16) -> int {
    if TileType::Roads.code() <= code <= TileType::Intersection.code() {
        1
    } else if TileType::LhRail.code() <= code <= TileType::LvRail10.code() {
        2
    } else if TileType::LhPower.code() <= code <= TileType::LvPower10.code() {
        3
    } else {
        0
    }
}

/// Neighbour of a position: 0 north, 1 east, 2 south, 3 west.
pub open spec fn neighbor_of(p: MapPosition, dir: int) -> MapPosition {
    if dir == 0 {
        MapPosition { x: p.x, y: (p.y - 1) as i32 }
    } else if dir == 1 {
        MapPosition { x: (p.x + 1) as i32, y: p.y }
    } else if dir == 2 {
        MapPosition { x: p.x, y: (p.y + 1) as i32 }
    } else {
        MapPosition { x: (p.x - 1) as i32, y: p.y }
    }
}

/// Is the neighbour in the given direction inside the map's width and height
/// (each taken as a 32-bit signed integer)?
pub open spec fn neighbor_in_map(map: TileMap, p: MapPosition, dir: int) -> bool {
    let w = map.width() as i32 as int;
    let h = map.height() as i32 as int;
    if dir == 0 {
        p.y > 0
    } else if dir == 1 {
        p.x < w - 1
    } else if dir == 2 {
        p.y < h - 1
    } else {
        p.x > 0
    }
}

/// A road connects to a neighbour holding this (neutralized) type.
pub open spec fn road_connects(dir: int, v: u16) -> bool {
    let in_roads = TileType::HorizontalBridge.code() <= v <= TileType::VerticalRoadPower.code();
    if dir % 2 == 0 {
        (v == TileType::HorizontalRailRoad.code() || in_roads) && v
            != TileType::HorizontalRoadPower.code() && v != TileType::VerticalRailRoad.code() && v
            != TileType::HorizontalBridge.code()
    } else {
        (v == TileType::VerticalRailRoad.code() || in_roads) && v
            != TileType::VerticalRoadPower.code() && v != TileType::HorizontalRailRoad.code() && v
            != TileType::VerticalBridge.code()
    }
}

/// A rail connects to a neighbour holding this (neutralized) type.
pub open spec fn rail_connects(dir: int, v: u16) -> bool {
    let in_rails = TileType::RailHorizontalPowerVertical.code() <= v
        <= TileType::VerticalRailRoad.code();
    if dir % 2 == 0 {
        in_rails && v != TileType::RailHorizontalPowerVertical.code() && v
            != TileType::HorizontalRailRoad.code() && v != TileType::UnderwaterHorizontalRail.code()
    } else {
        in_rails && v != TileType::RailVerticalPowerHorizontal.code() && v
            != TileType::VerticalRailRoad.code() && v != TileType::UnderwaterVerticalRail.code()
    }
}

/// Wire types that do not connect in the given direction.
pub open spec fn wire_blocked(dir: int, v: u16) -> bool {
    if dir == 1 {
        v == TileType::HorizontalPower.code() || v == TileType::HorizontalRoadPower.code() || v
            == TileType::RailHorizontalPowerVertical.code()
    } else if dir == 3 {
        v == TileType::HorizontalPower.code() || v == TileType::VerticalRoadPower.code() || v
            == TileType::RailVerticalPowerHorizontal.code()
    } else {
        v == TileType::VerticalPower.code() || v == TileType::VerticalRoadPower.code() || v
            == TileType::RailVerticalPowerHorizontal.code()
    }
}

/// A wire connects to a neighbour whose value `w` (the type bits, neutralized
/// except to the north) has the conductive bit.
pub open spec fn wire_connects(dir: int, w: u16) -> bool {
    (w & 0x4000u16) != 0u16 && !wire_blocked(dir, neutral_road(w & 0x03ffu16))
}

/// Does a piece of the given network connect to a neighbour with these type bits?
pub open spec fn connects(kind: int, dir: int, low: u16) -> bool {
    if kind == 1 {
        road_connects(dir, neutral_road(low))
    } else if kind == 2 {
        rail_connects(dir, neutral_road(low))
    } else if dir == 0 {
        wire_connects(dir, low)
    } else {
        wire_connects(dir, neutral_road(low))
    }
}

/// The neighbour in that direction is outside the map, or can be read.
pub open spec fn neighbor_readable(
    changes: Map<MapPosition, Tile>,
    map: TileMap,
    p: MapPosition,
    dir: int,
) -> bool {
    neighbor_in_map(map, p, dir) ==> low_in(changes, map, neighbor_of(p, dir)) is Some
}

/// The neighbour in that direction is in the map and connects.
pub open spec fn neighbor_connects(
    changes: Map<MapPosition, Tile>,
    map: TileMap,
    p: MapPosition,
    dir: int,
    kind: int,
) -> bool {
    neighbor_in_map(map, p, dir) && connects(
        kind,
        dir,
        low_in(changes, map, neighbor_of(p, dir)).unwrap(),
    )
}

pub open spec fn bit_if(b: bool, value: int) -> int {
    if b {
        value
    } else {
        0
    }
}

/// Adjacency pattern of the connecting neighbours (N = 1, E = 2, S = 4, W = 8).
pub open spec fn adjacency(
    changes: Map<MapPosition, Tile>,
    map: TileMap,
    p: MapPosition,
    kind: int,
) -> int {
    bit_if(neighbor_connects(changes, map, p, 0, kind), 1) + bit_if(
        neighbor_connects(changes, map, p, 1, kind),
        2,
    ) + bit_if(neighbor_connects(changes, map, p, 2, kind), 4) + bit_if(
        neighbor_connects(changes, map, p, 3, kind),
        8,
    )
}

/// Tile type of the piece of a network for an adjacency pattern.
pub open spec fn network_piece(kind: int, adj: int) -> TileType {
    if kind == 1 {
        road_piece(adj)
    } else if kind == 2 {
        rail_piece(adj)
    } else {
        wire_piece(adj)
    }
}

/// Raw value of the piece: its type with the bulldozable and burnable bits,
/// and the conductive bit too for wires.
pub open spec fn network_piece_raw(kind: int, adj: int) -> u16 {
    (network_piece(kind, adj).code() + if kind == 3 {
        0x7000int
    } else {
        0x3000int
    }) as u16
}

/// The modifications after fixing the connections of the tile at `p`, or
/// `None` when a tile that must be read is missing.
#[verifier::opaque]
pub open spec fn fixed_single(changes: Map<MapPosition, Tile>, map: TileMap, p: MapPosition) -> Option<
    Map<MapPosition, Tile>,
> {
    match low_in(changes, map, p) {
        None => None,
        Some(low) => {
            let kind = network_of(neutral_road(low));
            if kind == 0 {
                Some(changes)
            } else if !(neighbor_readable(changes, map, p, 0) && neighbor_readable(changes, map, p, 1)
                && neighbor_readable(changes, map, p, 2) && neighbor_readable(changes, map, p, 3)) {
                None
            } else {
                Some(
                    changes.insert(
                        p,
                        Tile::of_raw(network_piece_raw(kind, adjacency(changes, map, p, kind))),
                    ),
                )
            }
        },
    }
}

/// Fix the tile at `q` when `present`, after a step that may have failed.
pub open spec fn fix_after(
    step: Option<Map<MapPosition, Tile>>,
    map: TileMap,
    q: MapPosition,
    present: bool,
) -> Option<Map<MapPosition, Tile>> {
    match step {
        None => None,
        Some(c) => if present {
            fixed_single(c, map, q)
        } else {
            Some(c)
        },
    }
}

/// The modifications after fixing the tile at `p` and then its neighbours in
/// the map, north, east, south and west in turn.
#[verifier::opaque]
pub open spec fn fixed_zone(changes: Map<MapPosition, Tile>, map: TileMap, p: MapPosition) -> Option<
    Map<MapPosition, Tile>,
> {
    let a = fixed_single(changes, map, p);
    let b = fix_after(a, map, neighbor_of(p, 0), neighbor_in_map(map, p, 0));
    let c = fix_after(b, map, neighbor_of(p, 1), neighbor_in_map(map, p, 1));
    let d = fix_after(c, map, neighbor_of(p, 2), neighbor_in_map(map, p, 2));
    fix_after(d, map, neighbor_of(p, 3), neighbor_in_map(map, p, 3))
}

/// Types that a bulldozer turns back into river.
pub open spec fn is_water_structure(v: u16) -> bool {
    v == TileType::HorizontalBridge.code() || v == TileType::VerticalBridge.code() || v
        == TileType::VerticalBridgeOpened.code() || v == TileType::HorizontalBridgeOpened.code()
        || v == TileType::HBRDG0.code() || v == TileType::HBRDG1.code() || v
        == TileType::HBRDG2.code() || v == TileType::HBRDG3.code() || v == TileType::VBRDG0.code()
        || v == TileType::VBRDG1.code() || v == TileType::VBRDG2.code() || v
        == TileType::VBRDG3.code() || v == TileType::HorizontalPower.code() || v
        == TileType::VerticalPower.code() || v == TileType::UnderwaterHorizontalRail.code() || v
        == TileType::UnderwaterVerticalRail.code()
}

/// What a bulldozed tile of this raw value becomes.
pub open spec fn bulldozed_type(raw: u16) -> TileType {
    if is_water_structure(neutral_road(type_bits(raw))) {
        TileType::River
    } else {
        TileType::Dirt
    }
}

/// Tile type of a road piece for each adjacency pattern (N = 1, E = 2, S = 4, W = 8).
pub open spec fn road_piece(adjacency: int) -> TileType {
    seq![TileType::Roads, TileType::Roads2, TileType::Roads, TileType::Roads3, TileType::Roads2, TileType::Roads2, TileType::Roads4, TileType::Roads8, TileType::Roads, TileType::Roads6, TileType::Roads, TileType::Roads7, TileType::Roads5, TileType::Roads10, TileType::Roads9, TileType::Intersection][adjacency]
}

/// Tile type of a rail piece for each adjacency pattern (N = 1, E = 2, S = 4, W = 8).
pub open spec fn rail_piece(adjacency: int) -> TileType {
    seq![TileType::LhRail, TileType::LvRail, TileType::LhRail, TileType::LvRail2, TileType::LvRail, TileType::LvRail, TileType::LvRail3, TileType::LvRail7, TileType::LhRail, TileType::LvRail5, TileType::LhRail, TileType::LvRail6, TileType::LvRail4, TileType::LvRail9, TileType::LvRail8, TileType::LvRail10][adjacency]
}

/// Tile type of a wire piece for each adjacency pattern (N = 1, E = 2, S = 4, W = 8).
pub open spec fn wire_piece(adjacency: int) -> TileType {
    seq![TileType::LhPower, TileType::LvPower, TileType::LhPower, TileType::LvPower2, TileType::LvPower, TileType::LvPower, TileType::LvPower3, TileType::LvPower7, TileType::LhPower, TileType::LvPower5, TileType::LhPower, TileType::LvPower6, TileType::LvPower4, TileType::LvPower9, TileType::LvPower8, TileType::LvPower10][adjacency]
}

/// Sides (N = 1, E = 2, S = 4, W = 8) that the `k`-th piece of a network
/// shows, in the order of the tiles: straight east-west, straight
/// north-south, the four corners (north-east, east-south, south-west,
/// west-north), the four junctions (all but south, all but west, all but
/// north, all but east), and the crossing.
pub open spec fn piece_sides(k: int) -> int {
    if k == 0 {
        10
    } else if k == 1 {
        5
    } else if k == 2 {
        3
    } else if k == 3 {
        6
    } else if k == 4 {
        12
    } else if k == 5 {
        9
    } else if k == 6 {
        11
    } else if k == 7 {
        7
    } else if k == 8 {
        14
    } else if k == 9 {
        13
    } else {
        15
    }
}

/// Type of the first piece (straight east-west) of each network.
pub open spec fn network_base(kind: int) -> int {
    if kind == 1 {
        TileType::Roads.code()
    } else if kind == 2 {
        TileType::LhRail.code()
    } else {
        TileType::LhPower.code()
    }
}

/// Sides that a piece must show for a pattern of connecting neighbours: the
/// pattern itself when at least two sides connect; with one side or none,
/// the straight piece along it (north-south for a north or south neighbour,
/// east-west otherwise).
pub open spec fn sides_to_show(adj: int) -> int {
    if adj == 0 || adj == 2 || adj == 8 {
        10
    } else if adj == 1 || adj == 4 {
        5
    } else {
        adj
    }
}

/// The piece of a road, rail or wire drawn for a pattern of connecting
/// neighbours is one of that network's eleven pieces, and shows the sides
/// that connect (a single neighbour, or none, gives the straight piece
/// along it; a road joined only north and south is vertical).
pub proof fn law_network_piece_shows_connections(kind: int, adj: int)
    requires
        1 <= kind <= 3,
        0 <= adj < 16,
    ensures
        ({
            let k = network_piece(kind, adj).code() - network_base(kind);
            &&& 0 <= k <= 10
            &&& piece_sides(k) == sides_to_show(adj)
        }),
        kind == 1 && adj == 5 ==> network_piece(kind, adj) == TileType::Roads2,
        kind == 1 && adj % 2 == 0 && (adj / 4) % 2 == 0 ==> network_piece(kind, adj) == TileType::Roads,
        kind == 1 && (adj % 2 == 1 || (adj / 4) % 2 == 1) ==> network_piece(kind, adj) != TileType::Roads,
{
}

/// Fixing a road, rail or wire tile redraws it as the piece of its network
/// that shows its connecting neighbours (see `sides_to_show`).
pub proof fn law_fixed_tile_shows_connections(changes: Map<MapPosition, Tile>, map: TileMap, p: MapPosition)
    requires
        low_in(changes, map, p) matches Some(low) && network_of(neutral_road(low)) != 0,
        fixed_single(changes, map, p) is Some,
    ensures
        ({
            let kind = network_of(neutral_road(low_in(changes, map, p).unwrap()));
            let t = fixed_single(changes, map, p).unwrap()[p];
            let k = type_bits(t.raw()) - network_base(kind);
            &&& 0 <= k <= 10
            &&& piece_sides(k) == sides_to_show(adjacency(changes, map, p, kind))
        }),
{
    reveal(fixed_single);
    let low = low_in(changes, map, p).unwrap();
    let kind = network_of(neutral_road(low));
    let adj = adjacency(changes, map, p, kind);
    assert(0 <= adj < 16);
    law_network_piece_shows_connections(kind, adj);
    let raw = network_piece_raw(kind, adj);
    Tile::lemma_of_raw_value(raw);
    let code = network_piece(kind, adj).code();
    assert(TileType::Roads.code() <= code <= TileType::LvRail10.code());
    let c = code as u16;
    if kind == 3 {
        assert(((c + 0x7000u16) as u16) & 0x03ffu16 == c) by (bit_vector)
            requires
                c < 0x0400u16,
        ;
    } else {
        assert(((c + 0x3000u16) as u16) & 0x03ffu16 == c) by (bit_vector)
            requires
                c < 0x0400u16,
        ;
    }
}

fn road_table(adjacency: usize) -> (r: TileType)
    requires
        adjacency < 16,
    ensures
        r == road_piece(adjacency as int),
{
    let table: [TileType; 16] = [
        TileType::Roads,
        TileType::Roads2,
        TileType::Roads,
        TileType::Roads3,
        TileType::Roads2,
        TileType::Roads2,
        TileType::Roads4,
        TileType::Roads8,
        TileType::Roads,
        TileType::Roads6,
        TileType::Roads,
        TileType::Roads7,
        TileType::Roads5,
        TileType::Roads10,
        TileType::Roads9,
        TileType::Intersection,
    ];
    table[adjacency]
}

fn rail_table(adjacency: usize) -> (r: TileType)
    requires
        adjacency < 16,
    ensures
        r == rail_piece(adjacency as int),
{
    let table: [TileType; 16] = [
        TileType::LhRail,
        TileType::LvRail,
        TileType::LhRail,
        TileType::LvRail2,
        TileType::LvRail,
        TileType::LvRail,
        TileType::LvRail3,
        TileType::LvRail7,
        TileType::LhRail,
        TileType::LvRail5,
        TileType::LhRail,
        TileType::LvRail6,
        TileType::LvRail4,
        TileType::LvRail9,
        TileType::LvRail8,
        TileType::LvRail10,
    ];
    table[adjacency]
}

fn wire_table(adjacency: usize) -> (r: TileType)
    requires
        adjacency < 16,
    ensures
        r == wire_piece(adjacency as int),
{
    let table: [TileType; 16] = [
        TileType::LhPower,
        TileType::LvPower,
        TileType::LhPower,
        TileType::LvPower2,
        TileType::LvPower,
        TileType::LvPower,
        TileType::LvPower3,
        TileType::LvPower7,
        TileType::LhPower,
        TileType::LvPower5,
        TileType::LhPower,
        TileType::LvPower6,
        TileType::LvPower4,
        TileType::LvPower9,
        TileType::LvPower8,
        TileType::LvPower10,
    ];
    table[adjacency]
}

pub struct TileMapConnector;

impl TileMapConnector {
    /// Perform the command, fix wire/road/rail/zone connections around it,
    /// and return the modifications in an effects structure.
    ///
    /// Laying roads, rails and wires is not available: those commands are
    /// only accepted on positions outside the map.
    pub fn connect_tile(
        map: &TileMap,
        position: &MapPosition,
        command: &ConnectTileCommand,
        effects: ToolEffects,
        auto_bulldoze: bool,
    ) -> (r: Result<ToolResult, String>)
        requires
            *command == ConnectTileCommand::Fix || *command == ConnectTileCommand::Bulldoze
                || !map.spec_in_bounds(*position),
            *command == ConnectTileCommand::Bulldoze && !effects.is_free() ==> effects.total_cost()
                < u32::MAX,
        ensures
            !map.spec_in_bounds(*position) ==> r matches Ok(ToolResult::Failed),
            map.spec_in_bounds(*position) && *command == ConnectTileCommand::Fix ==> match r {
                Err(_) => fixed_zone(effects.changes(), *map, *position) is None,
                Ok(res) => res matches ToolResult::Succeeded(e) && fixed_zone(
                    effects.changes(),
                    *map,
                    *position,
                ) == Some(e.changes()) && e.is_free() == effects.is_free() && e.total_cost()
                    == effects.total_cost(),
            },
            map.spec_in_bounds(*position) && *command == ConnectTileCommand::Bulldoze ==> match value_in(
                effects.changes(),
                *map,
                *position,
            ) {
                None => r is Err,
                Some(t) => if t.raw() & TILE_BULL_BIT == 0 {
                    r matches Ok(ToolResult::Failed)
                } else {
                    let bulldozed = effects.changes().insert(
                        *position,
                        Tile::of_raw(bulldozed_type(t.raw()).code() as u16),
                    );
                    match r {
                        Err(_) => fixed_zone(bulldozed, *map, *position) is None,
                        Ok(res) => res matches ToolResult::Succeeded(e) && fixed_zone(
                            bulldozed,
                            *map,
                            *position,
                        ) == Some(e.changes()) && e.is_free() == effects.is_free() && e.total_cost()
                            == effects.total_cost() + if effects.is_free() {
                            0int
                        } else {
                            1int
                        },
                    }
                },
            },
    {
        if !map.in_bounds(position) {
            return Ok(ToolResult::Failed);
        }
        match *command {
            ConnectTileCommand::Fix => match Self::fix_zone(map, position, effects) {
                Ok(e) => Ok(ToolResult::Succeeded(e)),
                Err(e) => Err(e),
            },
            ConnectTileCommand::Bulldoze => {
                let bulldozed = match Self::bulldoze_tile(map, position, effects, auto_bulldoze) {
                    Ok(ToolResult::Succeeded(e)) => e,
                    Ok(other) => {
                        return Ok(other);
                    },
                    Err(e) => {
                        return Err(e);
                    },
                };
                match Self::fix_zone(map, position, bulldozed) {
                    Ok(e) => Ok(ToolResult::Succeeded(e)),
                    Err(e) => Err(e),
                }
            },
            _ => Ok(ToolResult::Failed),
        }
    }

    /// Bulldoze a tile by making it either a river or dirt depending on context.
    fn bulldoze_tile(
        map: &TileMap,
        position: &MapPosition,
        effects: ToolEffects,
        auto_bulldoze: bool,
    ) -> (r: Result<ToolResult, String>)
        requires
            !effects.is_free() ==> effects.total_cost() < u32::MAX,
        ensures
            match value_in(effects.changes(), *map, *position) {
                None => r is Err,
                Some(t) => if t.raw() & TILE_BULL_BIT == 0 {
                    r matches Ok(ToolResult::Failed)
                } else {
                    r matches Ok(ToolResult::Succeeded(e)) && e.changes() == effects.changes().insert(
                        *position,
                        Tile::of_raw(bulldozed_type(t.raw()).code() as u16),
                    ) && e.is_free() == effects.is_free() && e.total_cost() == effects.total_cost()
                        + if effects.is_free() {
                        0int
                    } else {
                        1int
                    }
                },
            },
    {
        let tile_raw = match effects.get_map_value_at(map, position) {
            Some(tile) => tile.get_raw(),
            None => {
                return Err(
                    String::from_str("TileMapConnector::bulldoze_tile cannot get effects tile value"),
                );
            },
        };
        if tile_raw & TILE_BULL_BIT == 0x00 {
            return Ok(ToolResult::Failed);  // not bulldozeable
        }
        let low = Self::neutralize_road(tile_raw & TILE_LOW_MASK);
        let water = low == TileType::HorizontalBridge.raw_value() || low
            == TileType::VerticalBridge.raw_value() || low
            == TileType::VerticalBridgeOpened.raw_value() || low
            == TileType::HorizontalBridgeOpened.raw_value() || low == TileType::HBRDG0.raw_value()
            || low == TileType::HBRDG1.raw_value() || low == TileType::HBRDG2.raw_value() || low
            == TileType::HBRDG3.raw_value() || low == TileType::VBRDG0.raw_value() || low
            == TileType::VBRDG1.raw_value() || low == TileType::VBRDG2.raw_value() || low
            == TileType::VBRDG3.raw_value() || low == TileType::HorizontalPower.raw_value() || low
            == TileType::VerticalPower.raw_value() || low
            == TileType::UnderwaterHorizontalRail.raw_value() || low
            == TileType::UnderwaterVerticalRail.raw_value();
        let tile = match Tile::from_type(if water { TileType::River } else { TileType::Dirt }) {
            Ok(t) => t,
            Err(e) => {
                return Err(e);
            },
        };
        proof {
            Tile::lemma_of_raw(tile);
        }
        Ok(ToolResult::Succeeded(effects.add_cost(1).add_modification(position, tile)))
    }

    /// Update connections (roads/rails/wire) to a zone.
    fn fix_zone(map: &TileMap, position: &MapPosition, effects: ToolEffects) -> (r: Result<
        ToolEffects,
        String,
    >)
        ensures
            match r {
                Err(_) => fixed_zone(effects.changes(), *map, *position) is None,
                Ok(e) => fixed_zone(effects.changes(), *map, *position) == Some(e.changes())
                    && e.is_free() == effects.is_free() && e.total_cost() == effects.total_cost(),
            },
    {
        reveal(fixed_zone);
        let ghost a = fixed_single(effects.changes(), *map, *position);
        let ghost b = fix_after(a, *map, neighbor_of(*position, 0), neighbor_in_map(*map, *position, 0));
        let ghost c = fix_after(b, *map, neighbor_of(*position, 1), neighbor_in_map(*map, *position, 1));
        let ghost d = fix_after(c, *map, neighbor_of(*position, 2), neighbor_in_map(*map, *position, 2));
        let mut effects = match Self::fix_single_tile(map, position, effects) {
            Ok(e) => e,
            Err(e) => {
                return Err(e);
            },
        };
        assert(a == Some(effects.changes()));
        if let Some(north) = Self::neighbor_position(map, position, 0) {
            effects = match Self::fix_single_tile(map, &north, effects) {
                Ok(e) => e,
                Err(e) => {
                    return Err(e);
                },
            };
        }
        assert(b == Some(effects.changes()));
        if let Some(east) = Self::neighbor_position(map, position, 1) {
            effects = match Self::fix_single_tile(map, &east, effects) {
                Ok(e) => e,
                Err(e) => {
                    return Err(e);
                },
            };
        }
        assert(c == Some(effects.changes()));
        if let Some(south) = Self::neighbor_position(map, position, 2) {
            effects = match Self::fix_single_tile(map, &south, effects) {
                Ok(e) => e,
                Err(e) => {
                    return Err(e);
                },
            };
        }
        assert(d == Some(effects.changes()));
        if let Some(west) = Self::neighbor_position(map, position, 3) {
            effects = match Self::fix_single_tile(map, &west, effects) {
                Ok(e) => e,
                Err(e) => {
                    return Err(e);
                },
            };
        }
        Ok(effects)
    }

    /// The neighbour of the position in the given direction, when it is
    /// inside the map's width and height.
    fn neighbor_position(map: &TileMap, position: &MapPosition, dir: u8) -> (r: Option<MapPosition>)
        requires
            dir < 4,
        ensures
            r is Some <==> neighbor_in_map(*map, *position, dir as int),
            r matches Some(q) ==> q == neighbor_of(*position, dir as int),
    {
        let (world_width, world_height) = map.bounds().get_tuple();
        if dir == 0 {
            if position.y > 0 {
                Some(position.with_y_offset(-1))
            } else {
                None
            }
        } else if dir == 1 {
            if (position.x as i64) < (world_width as i64) - 1 {
                Some(position.with_x_offset(1))
            } else {
                None
            }
        } else if dir == 2 {
            if (position.y as i64) < (world_height as i64) - 1 {
                Some(position.with_y_offset(1))
            } else {
                None
            }
        } else {
            if position.x > 0 {
                Some(position.with_x_offset(-1))
            } else {
                None
            }
        }
    }

    /// Type bits of the tile at the position, modifications included.
    fn read_low(effects: &ToolEffects, map: &TileMap, position: &MapPosition) -> (r: Result<
        u16,
        String,
    >)
        ensures
            r is Ok <==> low_in(effects.changes(), *map, *position) is Some,
            r matches Ok(v) ==> v == low_in(effects.changes(), *map, *position).unwrap(),
    {
        match effects.get_map_tile_at(map, position) {
            Some(tile) => Ok(tile.get_raw()),
            None => Err(
                String::from_str(
                    "TileMapConnector::fix_single_tile cannot read effects map tile value",
                ),
            ),
        }
    }

    /// Does a piece of the network `kind` connect to a neighbour in direction
    /// `dir` whose type bits are `low`?
    fn links(kind: u8, dir: u8, low: u16) -> (r: bool)
        requires
            1 <= kind <= 3,
            dir < 4,
        ensures
            r == connects(kind as int, dir as int, low),
    {
        if kind == 1 {
            let v = Self::neutralize_road(low);
            let in_roads = v >= TileType::HorizontalBridge.raw_value() && v
                <= TileType::VerticalRoadPower.raw_value();
            if dir % 2 == 0 {
                (v == TileType::HorizontalRailRoad.raw_value() || in_roads) && v
                    != TileType::HorizontalRoadPower.raw_value() && v
                    != TileType::VerticalRailRoad.raw_value() && v
                    != TileType::HorizontalBridge.raw_value()
            } else {
                (v == TileType::VerticalRailRoad.raw_value() || in_roads) && v
                    != TileType::VerticalRoadPower.raw_value() && v
                    != TileType::HorizontalRailRoad.raw_value() && v
                    != TileType::VerticalBridge.raw_value()
            }
        } else if kind == 2 {
            let v = Self::neutralize_road(low);
            let in_rails = v >= TileType::RailHorizontalPowerVertical.raw_value() && v
                <= TileType::VerticalRailRoad.raw_value();
            if dir % 2 == 0 {
                in_rails && v != TileType::RailHorizontalPowerVertical.raw_value() && v
                    != TileType::HorizontalRailRoad.raw_value() && v
                    != TileType::UnderwaterHorizontalRail.raw_value()
            } else {
                in_rails && v != TileType::RailVerticalPowerHorizontal.raw_value() && v
                    != TileType::VerticalRailRoad.raw_value() && v
                    != TileType::UnderwaterVerticalRail.raw_value()
            }
        } else {
            let w = if dir == 0 {
                low
            } else {
                Self::neutralize_road(low)
            };
            if w & TILE_CONDUCT_BIT != 0x00 {
                let v = Self::neutralize_road(w & TILE_LOW_MASK);
                let blocked = if dir == 1 {
                    v == TileType::HorizontalPower.raw_value() || v
                        == TileType::HorizontalRoadPower.raw_value() || v
                        == TileType::RailHorizontalPowerVertical.raw_value()
                } else if dir == 3 {
                    v == TileType::HorizontalPower.raw_value() || v
                        == TileType::VerticalRoadPower.raw_value() || v
                        == TileType::RailVerticalPowerHorizontal.raw_value()
                } else {
                    v == TileType::VerticalPower.raw_value() || v
                        == TileType::VerticalRoadPower.raw_value() || v
                        == TileType::RailVerticalPowerHorizontal.raw_value()
                };
                !blocked
            } else {
                false
            }
        }
    }

    /// Does the neighbour in direction `dir` exist in the map and connect?
    fn neighbor_link(
        effects: &ToolEffects,
        map: &TileMap,
        position: &MapPosition,
        dir: u8,
        kind: u8,
    ) -> (r: Result<bool, String>)
        requires
            1 <= kind <= 3,
            dir < 4,
        ensures
            r is Ok <==> neighbor_readable(effects.changes(), *map, *position, dir as int),
            r matches Ok(b) ==> b == neighbor_connects(
                effects.changes(),
                *map,
                *position,
                dir as int,
                kind as int,
            ),
    {
        match Self::neighbor_position(map, position, dir) {
            None => Ok(false),
            Some(neighbor) => match Self::read_low(effects, map, &neighbor) {
                Ok(low) => Ok(Self::links(kind, dir, low)),
                Err(e) => Err(e),
            },
        }
    }

    /// Fix road, rails and wire connections at a given tile.
    fn fix_single_tile(map: &TileMap, position: &MapPosition, effects: ToolEffects) -> (r: Result<
        ToolEffects,
        String,
    >)
        ensures
            match r {
                Err(_) => fixed_single(effects.changes(), *map, *position) is None,
                Ok(e) => fixed_single(effects.changes(), *map, *position) == Some(e.changes())
                    && e.is_free() == effects.is_free() && e.total_cost() == effects.total_cost(),
            },
    {
        reveal(fixed_single);
        let low = match Self::read_low(&effects, map, position) {
            Ok(v) => v,
            Err(e) => {
                return Err(e);
            },
        };
        let tile_raw = Self::neutralize_road(low);
        let kind: u8 = if tile_raw >= TileType::Roads.raw_value() && tile_raw
            <= TileType::Intersection.raw_value() {
            1  // cleanup road
        } else if tile_raw >= TileType::LhRail.raw_value() && tile_raw
            <= TileType::LvRail10.raw_value() {
            2  // cleanup rail
        } else if tile_raw >= TileType::LhPower.raw_value() && tile_raw
            <= TileType::LvPower10.raw_value() {
            3  // cleanup wire
        } else {
            0
        };
        if kind == 0 {
            return Ok(effects);
        }
        let mut adjacent_tiles: usize = 0;
        let north = match Self::neighbor_link(&effects, map, position, 0, kind) {
            Ok(b) => b,
            Err(e) => {
                return Err(e);
            },
        };
        let east = match Self::neighbor_link(&effects, map, position, 1, kind) {
            Ok(b) => b,
            Err(e) => {
                return Err(e);
            },
        };
        let south = match Self::neighbor_link(&effects, map, position, 2, kind) {
            Ok(b) => b,
            Err(e) => {
                return Err(e);
            },
        };
        let west = match Self::neighbor_link(&effects, map, position, 3, kind) {
            Ok(b) => b,
            Err(e) => {
                return Err(e);
            },
        };
        proof {
            assert(0usize | 1usize == 1usize) by (bit_vector);
            assert(forall|a: usize| a < 2 ==> #[trigger] (a | 2usize) == a + 2) by (bit_vector);
            assert(forall|a: usize| a < 4 ==> #[trigger] (a | 4usize) == a + 4) by (bit_vector);
            assert(forall|a: usize| a < 8 ==> #[trigger] (a | 8usize) == a + 8) by (bit_vector);
        }
        if north {
            adjacent_tiles = adjacent_tiles | 0b00000001;
        }
        assert(adjacent_tiles == bit_if(north, 1));
        if east {
            adjacent_tiles = adjacent_tiles | 0b00000010;
        }
        assert(adjacent_tiles == bit_if(north, 1) + bit_if(east, 2));
        if south {
            adjacent_tiles = adjacent_tiles | 0b00000100;
        }
        assert(adjacent_tiles == bit_if(north, 1) + bit_if(east, 2) + bit_if(south, 4));
        if west {
            adjacent_tiles = adjacent_tiles | 0b00001000;
        }
        assert(adjacent_tiles == adjacency(effects.changes(), *map, *position, kind as int));
        let (piece, flags) = if kind == 1 {
            (road_table(adjacent_tiles), TILE_BULL_BIT | TILE_BURN_BIT)
        } else if kind == 2 {
            (rail_table(adjacent_tiles), TILE_BULL_BIT | TILE_BURN_BIT)
        } else {
            (wire_table(adjacent_tiles), TILE_BURN_BULL_CONDUCT_BIT)
        };
        let code = piece.raw_value();
        proof {
            assert(TILE_BULL_BIT | TILE_BURN_BIT == 0x3000u16) by (bit_vector);
            assert(code <= 236);
            assert(code | 0x3000u16 == code + 0x3000) by (bit_vector)
                requires
                    code <= 236,
            ;
            assert(code | 0x7000u16 == code + 0x7000) by (bit_vector)
                requires
                    code <= 236,
            ;
        }
        let tile = match Tile::from_raw(code | flags) {
            Ok(t) => t,
            Err(e) => {
                return Err(e);
            },
        };
        proof {
            Tile::lemma_of_raw(tile);
            assert(tile.raw() == network_piece_raw(kind as int, adjacent_tiles as int));
        }
        Ok(effects.add_modification(position, tile))
    }

    /// Returns the given raw tile type with the road removed.
    fn neutralize_road(tile_raw: u16) -> (r: u16)
        ensures
            r == neutral_road(tile_raw),
    {
        if tile_raw >= 64 && tile_raw <= 207 {
            assert(tile_raw & 0x000F == tile_raw % 16) by (bit_vector);
            (tile_raw & 0x000F) + 64
        } else {
            tile_raw
        }
    }
}

} // verus!
