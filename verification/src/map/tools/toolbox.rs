use vstd::prelude::*;

use crate::map::buildings::BuildingInfo;
use crate::map::connect::{bulldozed_type, fixed_zone, low_in, TileMapConnector};
use crate::map::position::{fits_i32, MapPosition};
use crate::map::tiles::{
    lemma_kind_is, Tile, TILE_ANIM_BIT, TILE_BULL_BIT, TILE_BURN_BIT, TILE_CONDUCT_BIT,
    TILE_LOW_MASK, TILE_ZONE_BIT,
};
use crate::map::tiles_type::{tile_type_of, TileType};
use crate::map::TileMap;
use crate::utils::bits::{lemma_flag_constants, lemma_u16_tile_bits};
use crate::utils::random::{draw_bits, lcg_next, MicropolisRandom};

use crate::map::generator::trees::{is_tree_bits, smoothing_fits};
use crate::map::tiles::type_bits;

use super::effects::{
    land_result,
    build_building, build_outcome, building_fits, forest_smoothed, is_rubble_raw, park_raw,
    put_down_forest, put_down_land, put_down_park, put_down_water, put_rubble, rubble_progress,
    square_readable, woods_raw,
};
use super::utils::{auto_bulldozable, big_zone_of, check_big_zone, compute_size, is_tile_auto_bulldozable, zone_size_of};
use super::{value_in, ConnectTileCommand, EditingTool, ToolEffects, ToolResult};

verus! {

/// Positions around `position` that the bulldozer may reach are 32-bit positions.
pub open spec fn bulldozer_fits(position: MapPosition) -> bool {
    fits_i32(position.x - 4) && fits_i32(position.y - 4) && fits_i32(position.x + 5) && fits_i32(
        position.y + 5,
    )
}

/// What `tool_bulldozer` answers: `Failed` outside the map; inside, an
/// error when the tile cannot be read or has no type; for a tile of no big
/// zone, the bulldozed tile (when bulldozable) with its zone fixed; for a
/// big zone, its square turned to rubble (when readable).
pub open spec fn bulldozer_result(
    map: TileMap,
    position: MapPosition,
    effects: ToolEffects,
    animations_enabled: bool,
    r: Result<ToolResult, String>,
) -> bool {
    &&& (!map.spec_in_bounds(position) ==> (r matches Ok(ToolResult::Failed)))
    &&& (map.spec_in_bounds(position) ==> match value_in(effects.changes(), map, position) {
            None => r is Err,
            Some(full) => if full.raw() & TILE_ZONE_BIT != 0 && tile_type_of(type_bits(full.raw()) as int) is None {
                r is Err
            } else {
                let low = type_bits(full.raw());
                let zone = if full.raw() & TILE_ZONE_BIT != 0 {
                    (0int, 0int, zone_size_of(low as int))
                } else {
                    big_zone_of(low as int)
                };
                if zone.2 == 0 {
                    let t = value_in(effects.changes(), map, position).unwrap();
                    if t.raw() & TILE_BULL_BIT == 0 {
                        r matches Ok(ToolResult::Failed)
                    } else {
                        let bulldozed = effects.changes().insert(
                            position,
                            Tile::of_raw(bulldozed_type(t.raw()).code() as u16),
                        );
                        match r {
                            Err(_) => fixed_zone(bulldozed, map, position) is None,
                            Ok(res) => res matches ToolResult::Succeeded(e) && fixed_zone(
                                bulldozed,
                                map,
                                position,
                            ) == Some(e.changes()) && e.is_free() == effects.is_free()
                                && e.total_cost() == effects.total_cost() + if effects.is_free() {
                                0int
                            } else {
                                1int
                            },
                        }
                    }
                } else {
                    let anchor = MapPosition {
                        x: (position.x + zone.0 - 1) as i32,
                        y: (position.y + zone.1 - 1) as i32,
                    };
                    &&& r is Ok <==> square_readable(effects.changes(), map, anchor, zone.2)
                    &&& r is Ok ==> (r matches Ok(ToolResult::Succeeded(e)) && e.is_free()
                        == effects.is_free() && e.total_cost() == effects.total_cost()
                        + if effects.is_free() {
                        0int
                    } else {
                        100int
                    } && rubble_progress(
                        effects.changes(),
                        map,
                        anchor,
                        zone.2,
                        anchor.x + zone.2,
                        anchor.y as int,
                        animations_enabled,
                        e.changes(),
                    ))
                }
            },
        })
}

/// Apply bulldozer tool (manual, with explosion animation for buildings).
///
/// Tiles outside big zones are bulldozed and their connections fixed; the
/// inner tiles of a big zone turn the whole zone into rubble.
pub fn tool_bulldozer(
    rng: &mut MicropolisRandom,
    map: &TileMap,
    position: &MapPosition,
    effects: ToolEffects,
    auto_bulldoze: bool,
    animations_enabled: bool,
) -> (r: Result<ToolResult, String>)
    requires
        map.spec_in_bounds(*position) ==> bulldozer_fits(*position),
        !effects.is_free() ==> effects.total_cost() + 100 <= u32::MAX,
    ensures
        final(rng).creation_seed() == old(rng).creation_seed(),
        bulldozer_result(*map, *position, effects, animations_enabled, r),
{
    if !map.in_bounds(position) {
        return Ok(ToolResult::Failed);
    }
    let full_raw = match effects.get_map_value_at(map, position) {
        Some(t) => t.get_raw(),
        None => {
            return Err(String::from_str("tool_bulldozer: cannot read tile"));
        },
    };
    let tile_raw = full_raw & TILE_LOW_MASK;
    proof {
        lemma_u16_tile_bits(full_raw);
        lemma_u16_tile_bits(tile_raw);
    }
    let tile = match Tile::from_raw(tile_raw) {
        Ok(t) => t,
        Err(e) => {
            return Err(e);
        },
    };
    // the zone bit marks the centre of a zone
    let (delta, zone_size) = if full_raw & TILE_ZONE_BIT != 0x00 {
        match compute_size(&tile) {
            Some(size) => (MapPosition::new(0, 0), size),
            None => {
                return Err(String::from_str("tool_bulldozer: cannot compute size for tile"));
            },
        }
    } else {
        match check_big_zone(&tile) {
            Some(zone) => zone,
            None => {
                return Err(String::from_str("tool_bulldozer: cannot check big zone for tile"));
            },
        }
    };
    if zone_size == 0 {
        // invalid zone
        TileMapConnector::connect_tile(
            map,
            position,
            &ConnectTileCommand::Bulldoze,
            effects,
            auto_bulldoze,
        )
    } else {
        let charged = effects.add_cost(EditingTool::Bulldozer.cost());
        let center = MapPosition::new(position.x + delta.x, position.y + delta.y);
        let rubble = match put_rubble(
            rng,
            map,
            &center.with_offset(-1, -1),
            zone_size as i8,
            charged,
            animations_enabled,
        ) {
            Ok(e) => e,
            Err(e) => {
                return Err(e);
            },
        };
        Ok(ToolResult::Succeeded(rubble))
    }
}

/// Build a road at the given position.
///
/// Laying roads is not available: only positions outside the map are
/// accepted, and they fail.
pub fn tool_road(
    map: &TileMap,
    position: &MapPosition,
    effects: ToolEffects,
    auto_bulldoze: bool,
) -> (r: Result<ToolResult, String>)
    requires
        !map.spec_in_bounds(*position),
    ensures
        r matches Ok(ToolResult::Failed),
{
    if !map.in_bounds(position) {
        return Ok(ToolResult::Failed);
    }
    TileMapConnector::connect_tile(map, position, &ConnectTileCommand::Road, effects, auto_bulldoze)
}

/// Build a railroad at the given position.
///
/// Laying rails is not available: only positions outside the map are
/// accepted, and they fail.
pub fn tool_rail(
    map: &TileMap,
    position: &MapPosition,
    effects: ToolEffects,
    auto_bulldoze: bool,
) -> (r: Result<ToolResult, String>)
    requires
        !map.spec_in_bounds(*position),
    ensures
        r matches Ok(ToolResult::Failed),
{
    if !map.in_bounds(position) {
        return Ok(ToolResult::Failed);
    }
    TileMapConnector::connect_tile(map, position, &ConnectTileCommand::Rail, effects, auto_bulldoze)
}

/// Build a wire at the given position.
///
/// Laying wires is not available: only positions outside the map are
/// accepted, and they fail.
pub fn tool_wire(
    map: &TileMap,
    position: &MapPosition,
    effects: ToolEffects,
    auto_bulldoze: bool,
) -> (r: Result<ToolResult, String>)
    requires
        !map.spec_in_bounds(*position),
    ensures
        r matches Ok(ToolResult::Failed),
{
    if !map.in_bounds(position) {
        return Ok(ToolResult::Failed);
    }
    TileMapConnector::connect_tile(map, position, &ConnectTileCommand::Wire, effects, auto_bulldoze)
}

/// What `tool_park` answers, the generator going from state `s0` to `s1`:
/// `Failed` outside the map; inside, after one draw, a request to bulldoze
/// on dirt, else the effects with a park (drawn among five) at the position.
pub open spec fn park_result(
    map: TileMap,
    center: MapPosition,
    effects: ToolEffects,
    s0: u64,
    s1: u64,
    r: Result<ToolResult, String>,
) -> bool {
    &&& !map.spec_in_bounds(center) ==> (r matches Ok(ToolResult::Failed)) && s1 == s0
    &&& map.spec_in_bounds(center) ==> s1 == lcg_next(s0) && if value_in(effects.changes(), map, center) matches Some(
        t,
    ) && t.kind() == Some(TileType::Dirt) {
        r matches Ok(ToolResult::NeedBulldoze)
    } else {
        r matches Ok(ToolResult::Succeeded(e)) && e.changes() == effects.changes().insert(
            center,
            Tile::of_raw(park_raw(draw_bits(s1) % 5)),
        ) && e.is_free() == effects.is_free() && e.total_cost() == effects.total_cost() + if effects.is_free() {
            0int
        } else {
            100int
        }
    }
}

/// What `tool_network` answers: `Failed` outside the map, else the network
/// put down (see `network_outcome`).
pub open spec fn network_result(map: TileMap, position: MapPosition, effects: ToolEffects, r: Result<ToolResult, String>) -> bool {
    &&& !map.spec_in_bounds(position) ==> (r matches Ok(ToolResult::Failed))
    &&& map.spec_in_bounds(position) ==> network_outcome(effects, map, position, r)
}

/// What `tool_water` answers: `Failed` outside the map; inside, an error
/// where the tile cannot be read, `Failed` on a river, else the effects
/// with a river at the position.
pub open spec fn water_result(map: TileMap, position: MapPosition, effects: ToolEffects, r: Result<ToolResult, String>) -> bool {
    &&& !map.spec_in_bounds(position) ==> (r matches Ok(ToolResult::Failed))
    &&& map.spec_in_bounds(position) ==> match low_in(effects.changes(), map, position) {
        None => r is Err,
        Some(v) => if v as int == TileType::River.code() {
            r matches Ok(ToolResult::Failed)
        } else {
            r matches Ok(ToolResult::Succeeded(e)) && e.changes() == effects.changes().insert(
                position,
                Tile::of_raw(TileType::River.code() as u16),
            ) && e.is_free() == effects.is_free() && e.total_cost() == effects.total_cost()
                + if effects.is_free() {
                0int
            } else {
                100int
            }
        },
    }
}

/// What `tool_land` answers: the bulldozer's answer, and after a successful
/// bulldozing, dirt put down (see `land_result`).
pub open spec fn land_tool_result(
    map: TileMap,
    position: MapPosition,
    effects: ToolEffects,
    animations_enabled: bool,
    r: Result<ToolResult, String>,
) -> bool {
    exists|b: Result<ToolResult, String>|
        #![trigger bulldozer_result(map, position, effects, animations_enabled, b)]
        {
            &&& bulldozer_result(map, position, effects, animations_enabled, b)
            &&& match b {
                Ok(ToolResult::Succeeded(e)) => land_result(e, map, position, r),
                Ok(other) => r == Ok::<ToolResult, String>(other),
                Err(_) => r is Err,
            }
        }
}

/// A forest planted at the position on top of the given effects: the woods
/// put down and smoothed, at the forest tool's cost.
pub open spec fn forest_planted(effects: ToolEffects, map: TileMap, position: MapPosition, r: Result<ToolResult, String>) -> bool {
    r matches Ok(ToolResult::Succeeded(e)) && e.changes() == forest_smoothed(
        effects.changes().insert(position, Tile::of_raw(woods_raw())),
        map,
        position,
        8,
    ) && e.is_free() == effects.is_free() && e.total_cost() == effects.total_cost() + if effects.is_free() {
        0int
    } else {
        100int
    }
}

/// What `tool_forest` answers: `Failed` outside the map; inside, an error
/// where the tile cannot be read, the effects unchanged on a tree, a forest
/// planted on dirt, and otherwise a forest planted after the bulldozer
/// cleared the tile to dirt (`Failed` when it did not).
pub open spec fn forest_result(
    map: TileMap,
    position: MapPosition,
    effects: ToolEffects,
    animations_enabled: bool,
    r: Result<ToolResult, String>,
) -> bool {
    &&& !map.spec_in_bounds(position) ==> (r matches Ok(ToolResult::Failed))
    &&& map.spec_in_bounds(position) ==> match value_in(effects.changes(), map, position) {
        None => r is Err,
        Some(t) => if is_tree_bits(type_bits(t.raw())) {
            r == Ok::<ToolResult, String>(ToolResult::Succeeded(effects))
        } else if t.kind() == Some(TileType::Dirt) {
            forest_planted(effects, map, position, r)
        } else {
            exists|b: Result<ToolResult, String>|
                #![trigger bulldozer_result(map, position, effects, animations_enabled, b)]
                {
                    &&& bulldozer_result(map, position, effects, animations_enabled, b)
                    &&& match b {
                        Ok(ToolResult::Succeeded(e)) => match value_in(e.changes(), map, position) {
                            None => r is Err,
                            Some(t2) => if t2.kind() == Some(TileType::Dirt) {
                                forest_planted(e, map, position, r)
                            } else {
                                r matches Ok(ToolResult::Failed)
                            },
                        },
                        Ok(other) => r == Ok::<ToolResult, String>(other),
                        Err(_) => r is Err,
                    }
                }
        },
    }
}

/// Build at park.
pub fn tool_park(
    rng: &mut MicropolisRandom,
    map: &TileMap,
    center: &MapPosition,
    effects: ToolEffects,
    auto_bulldoze: bool,
) -> (r: Result<ToolResult, String>)
    requires
        !effects.is_free() ==> effects.total_cost() + 100 <= u32::MAX,
    ensures
        final(rng).creation_seed() == old(rng).creation_seed(),
        park_result(*map, *center, effects, old(rng).state(), final(rng).state(), r),
{
    if !map.in_bounds(center) {
        return Ok(ToolResult::Failed);
    }
    put_down_park(rng, map, center, effects)
}

/// Raw value of a communication network tile: conductive, burnable,
/// bulldozable and animated.
pub open spec fn network_raw() -> u16 {
    (TileType::INDBASE2.code() + 0x7800) as u16
}

/// Build a communication network.
pub fn tool_network(map: &TileMap, position: &MapPosition, effects: ToolEffects) -> (r: Result<
    ToolResult,
    String,
>)
    requires
        !effects.is_free() ==> effects.total_cost() + 200 <= u32::MAX,
    ensures
        network_result(*map, *position, effects, r),
{
    if !map.in_bounds(position) {
        return Ok(ToolResult::Failed);
    }
    put_down_network(map, position, effects)
}

/// What putting down a network gives: an error where the tile cannot be
/// read; the network where the tile is dirt or can be bulldozed
/// automatically (then at the bulldozer's cost too); otherwise a request to
/// bulldoze first.
pub open spec fn network_outcome(
    effects: ToolEffects,
    map: TileMap,
    position: MapPosition,
    r: Result<ToolResult, String>,
) -> bool {
    match low_in(effects.changes(), map, position) {
        None => r is Err,
        Some(v) => if v as int != TileType::Dirt.code() && !auto_bulldozable(v) {
            r matches Ok(ToolResult::NeedBulldoze)
        } else {
            r matches Ok(ToolResult::Succeeded(e)) && e.changes() == effects.changes().insert(
                position,
                Tile::of_raw(network_raw()),
            ) && e.is_free() == effects.is_free() && e.total_cost() == effects.total_cost()
                + if effects.is_free() {
                0int
            } else if v as int == TileType::Dirt.code() {
                100int
            } else {
                200int
            }
        },
    }
}

/// Put down a communication network.
fn put_down_network(map: &TileMap, position: &MapPosition, effects: ToolEffects) -> (r: Result<
    ToolResult,
    String,
>)
    requires
        !effects.is_free() ==> effects.total_cost() + 200 <= u32::MAX,
    ensures
        network_outcome(effects, *map, *position, r),
{
    let tile = match effects.get_map_tile_at(map, position) {
        Some(t) => t,
        None => {
            return Err(String::from_str("Cannot read tile"));
        },
    };
    proof {
        lemma_kind_is(tile, TileType::Dirt);
        let raw = value_in(effects.changes(), *map, *position).unwrap().raw();
        lemma_u16_tile_bits(raw);
    }
    let mut current = effects;
    if !tile.is_dirt() {
        if is_tile_auto_bulldozable(&tile) == Some(true) {
            let dirt = match Tile::from_type(TileType::Dirt) {
                Ok(t) => t,
                Err(e) => {
                    return Err(e);
                },
            };
            current = current.add_cost(EditingTool::Bulldozer.cost()).add_modification(position, dirt);
        } else {
            return Ok(ToolResult::NeedBulldoze);
        }
    }
    proof {
        lemma_flag_constants();
    }
    let network = match Tile::from_raw(
        TileType::INDBASE2.raw_value() | TILE_CONDUCT_BIT | TILE_BURN_BIT | TILE_BULL_BIT
            | TILE_ANIM_BIT,
    ) {
        Ok(t) => t,
        Err(e) => {
            return Err(e);
        },
    };
    proof {
        Tile::lemma_of_raw(network);
    }
    let result = current.add_cost(EditingTool::Network.cost()).add_modification(position, network);
    assert(result.changes() =~= effects.changes().insert(*position, Tile::of_raw(network_raw())));
    Ok(ToolResult::Succeeded(result))
}

/// Place water at the give position.
pub fn tool_water(map: &TileMap, position: &MapPosition, effects: ToolEffects) -> (r: Result<
    ToolResult,
    String,
>)
    requires
        !effects.is_free() ==> effects.total_cost() + 100 <= u32::MAX,
    ensures
        water_result(*map, *position, effects, r),
{
    if !map.in_bounds(position) {
        return Ok(ToolResult::Failed);
    }
    put_down_water(map, position, effects)
}

/// Place land at the give position: bulldoze it, then put down dirt.
pub fn tool_land(
    rng: &mut MicropolisRandom,
    map: &TileMap,
    position: &MapPosition,
    effects: ToolEffects,
    auto_bulldoze: bool,
    animations_enabled: bool,
) -> (r: Result<ToolResult, String>)
    requires
        map.spec_in_bounds(*position) ==> bulldozer_fits(*position),
        !effects.is_free() ==> effects.total_cost() + 200 <= u32::MAX,
    ensures
        final(rng).creation_seed() == old(rng).creation_seed(),
        !map.spec_in_bounds(*position) ==> r matches Ok(ToolResult::Failed),
        r matches Ok(ToolResult::Succeeded(e)) ==> e.is_free() == effects.is_free() && e.changes().dom().contains(*position)
            && e.changes()[*position] == Tile::of_raw(TileType::Dirt.code() as u16),
        land_tool_result(*map, *position, effects, animations_enabled, r),
{
    if !map.in_bounds(position) {
        let r = Ok(ToolResult::Failed);
        assert(bulldozer_result(*map, *position, effects, animations_enabled, r));
        return r;
    }
    let b = tool_bulldozer(rng, map, position, effects, auto_bulldoze, animations_enabled);
    assert(bulldozer_result(*map, *position, effects, animations_enabled, b));
    let bulldozed = match b {
        Ok(ToolResult::Succeeded(e)) => e,
        Ok(other) => {
            return Ok(other);
        },
        Err(e) => {
            return Err(e);
        },
    };
    put_down_land(map, position, bulldozed)
}

/// Build at building.
pub fn tool_build_building(
    map: &TileMap,
    center: &MapPosition,
    effects: ToolEffects,
    building_info: &BuildingInfo,
    auto_bulldoze: bool,
) -> (r: Result<ToolResult, String>)
    requires
        building_fits(
            *center,
            building_info.size,
            building_info.base_tile.raw(),
            building_info.tool.price(),
            effects.is_free(),
            effects.total_cost(),
        ),
    ensures
        !map.spec_in_bounds(*center) ==> r matches Ok(ToolResult::Failed),
        map.spec_in_bounds(*center) ==> ({
            let o = build_outcome(
                effects.changes(),
                *map,
                *center,
                building_info.size,
                building_info.base_tile.raw(),
                building_info.is_animated,
                auto_bulldoze,
            );
            &&& (o.0 == 0 <==> r is Err)
            &&& (o.0 == 1 <==> (r matches Ok(ToolResult::Failed)))
            &&& (o.0 == 2 <==> (r matches Ok(ToolResult::NeedBulldoze)))
            &&& (o.0 == 3 <==> (r matches Ok(ToolResult::Succeeded(_))))
            &&& r matches Ok(ToolResult::Succeeded(e)) ==> e.changes() == o.1 && e.is_free()
                == effects.is_free() && e.total_cost() == effects.total_cost() + if effects.is_free() {
                0
            } else {
                o.2 + building_info.tool.price()
            }
        }),
{
    if !map.in_bounds(center) {
        return Ok(ToolResult::Failed);
    }
    build_building(map, center, building_info, effects, auto_bulldoze)
}

/// Place a forest at the given position: trees stay as they are, other
/// tiles are bulldozed first, and a forest is planted on dirt.
pub fn tool_forest(
    rng: &mut MicropolisRandom,
    map: &TileMap,
    position: &MapPosition,
    effects: ToolEffects,
    auto_bulldoze: bool,
    animations_enabled: bool,
) -> (r: Result<ToolResult, String>)
    requires
        map.spec_in_bounds(*position) ==> bulldozer_fits(*position) && smoothing_fits(*position),
        !effects.is_free() ==> effects.total_cost() + 200 <= u32::MAX,
    ensures
        final(rng).creation_seed() == old(rng).creation_seed(),
        !map.spec_in_bounds(*position) ==> r matches Ok(ToolResult::Failed),
        forest_result(*map, *position, effects, animations_enabled, r),
{
    if !map.in_bounds(position) {
        return Ok(ToolResult::Failed);
    }
    let tile = match effects.get_map_value_at(map, position) {
        Some(t) => t,
        None => {
            return Err(String::from_str("tool_forest: cannot read effects tile"));
        },
    };
    if tile.is_tree() {
        // nothing to do
        return Ok(ToolResult::Succeeded(effects));
    }
    let mut current = effects;
    if !tile.is_dirt() {
        current = match tool_bulldozer(rng, map, position, current, auto_bulldoze, animations_enabled) {
            Ok(ToolResult::Succeeded(e)) => e,
            Ok(other) => {
                return Ok(other);
            },
            Err(e) => {
                return Err(e);
            },
        };
    }
    let tile_refreshed = match current.get_map_value_at(map, position) {
        Some(t) => t,
        None => {
            return Err(String::from_str("tool_forest: cannot read effects tile"));
        },
    };
    if tile_refreshed.is_dirt() {
        put_down_forest(map, position, current)
    } else {
        // auto-bulldozing not allowed or impossible
        Ok(ToolResult::Failed)
    }
}

} // verus!
