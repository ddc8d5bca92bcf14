use vstd::prelude::*;

use crate::map::connect::{fixed_zone, TileMapConnector};
use crate::map::position::{fits_i32, MapPosition, MapRectangle};
use crate::map::tiles::{type_bits, Tile};
use crate::map::tiles_type::TileType;
use crate::map::TileMap;

use super::{ConnectTileCommand, ToolEffects, ToolResult};

verus! {

/// Raw value of the tile type moved by `offset`, as a 16-bit unsigned value.
pub open spec fn offset_code(tile_type: TileType, offset: int) -> u16 {
    (tile_type.code() + offset) as u16
}

/// Side of the zone that a tile of this raw type belongs to, 0 when unknown.
pub open spec fn zone_size_of(t: int) -> int {
    if (TileType::ResidentialBase.code() - 1 <= t <= TileType::PortBase.code() - 1) || (
    TileType::LastPowerPlant.code() + 1 <= t <= TileType::PoliceStation.code() + 4) || (
    TileType::Church1Base.code() <= t <= TileType::Church7Last.code()) {
        3
    } else if (TileType::PortBase.code() <= t <= TileType::LastPort.code()) || (
    TileType::CoalBase.code() <= t <= TileType::LastPowerPlant.code()) || (
    TileType::StadiumBase.code() <= t <= TileType::LastZone.code()) {
        4
    } else {
        0
    }
}

/// Offset from a clicked inner tile of a big zone to the zone's (1, 1)
/// tile, and the zone's size; size 0 when the tile is no such inner tile.
pub open spec fn big_zone_of(t: int) -> (int, int, int) {
    let four = |o: int|
        t == TileType::PowerPlant.code() + o || t == TileType::Port.code() + o || t
            == TileType::Nuclear.code() + o || t == TileType::Stadium.code() + o;
    let o = t - TileType::Airport.code();
    if four(0) {
        (0, 0, 4)
    } else if four(1) || t == TileType::CoalSmoke3.code() || t == TileType::CoalSmoke3.code() + 1
        || t == TileType::CoalSmoke3.code() + 2 {
        (-1, 0, 4)
    } else if four(4) {
        (0, -1, 4)
    } else if four(5) {
        (-1, -1, 4)
    } else if 0 <= o <= 21 && o % 6 <= 3 {
        (-(o % 6), -(o / 6), 6)
    } else {
        (0, 0, 0)
    }
}

/// Can a tile of this raw value be bulldozed automatically?
pub open spec fn auto_bulldozable(raw: u16) -> bool {
    (TileType::FirstRiverEdge.code() <= raw <= TileType::LastRubble.code()) || (
    TileType::HorizontalPower.code() + 2 <= raw <= TileType::HorizontalPower.code() + 12) || (
    TileType::TINYEXP.code() <= raw <= TileType::LASTTINYEXP.code() + 2)
}

/// Sides of a zone, with a negative side counting as none.
pub open spec fn side_count(v: int) -> int {
    if v > 0 {
        v
    } else {
        0
    }
}

/// Border positions around a zone at `p` of `w` by `h` tiles, in the order
/// they are connected: top row, left column, bottom row, right column.
pub open spec fn border_at(p: MapPosition, w: int, h: int, k: int) -> MapPosition {
    let ww = side_count(w);
    let hh = side_count(h);
    if k < ww {
        MapPosition { x: (p.x + k) as i32, y: (p.y - 1) as i32 }
    } else if k < ww + hh {
        MapPosition { x: (p.x - 1) as i32, y: (p.y + (k - ww)) as i32 }
    } else if k < 2 * ww + hh {
        MapPosition { x: (p.x + (k - ww - hh)) as i32, y: (p.y + h) as i32 }
    } else {
        MapPosition { x: (p.x + w) as i32, y: (p.y + (k - 2 * ww - hh)) as i32 }
    }
}

/// Every border position of the zone is a 32-bit position.
pub open spec fn border_fits(p: MapPosition, w: int, h: int) -> bool {
    &&& w > 0 ==> fits_i32(p.x + w - 1) && fits_i32(p.y - 1) && fits_i32(p.y + h)
    &&& h > 0 ==> fits_i32(p.x - 1) && fits_i32(p.y + h - 1) && fits_i32(p.x + w)
}

/// Outcome of fixing the connections at the first `n` border positions:
/// `None` when a tile could not be read, `Some(None)` when a position is
/// outside the map, otherwise the modifications.
pub open spec fn border_fixed(
    changes: Map<MapPosition, Tile>,
    map: TileMap,
    p: MapPosition,
    w: int,
    h: int,
    n: int,
) -> Option<Option<Map<MapPosition, Tile>>>
    decreases n,
{
    if n <= 0 {
        Some(Some(changes))
    } else {
        match border_fixed(changes, map, p, w, h, n - 1) {
            Some(Some(c)) => {
                let q = border_at(p, w, h, n - 1);
                if !map.spec_in_bounds(q) {
                    Some(None)
                } else {
                    match fixed_zone(c, map, q) {
                        Some(c2) => Some(Some(c2)),
                        None => None,
                    }
                }
            },
            other => other,
        }
    }
}

/// Once a step has stopped or failed, later steps keep that outcome.
proof fn lemma_border_fixed_settled(
    changes: Map<MapPosition, Tile>,
    map: TileMap,
    p: MapPosition,
    w: int,
    h: int,
    m: int,
    n: int,
)
    requires
        0 <= m <= n,
        !(border_fixed(changes, map, p, w, h, m) is Some && border_fixed(changes, map, p, w, h, m)->0 is Some),
    ensures
        border_fixed(changes, map, p, w, h, n) == border_fixed(changes, map, p, w, h, m),
    decreases n - m,
{
    if n > m {
        lemma_border_fixed_settled(changes, map, p, w, h, m, n - 1);
    }
}

/// The `k`-th border position of the zone (see `border_at`).
fn border_position_at(
    position: &MapPosition,
    zone_width: i8,
    zone_height: i8,
    columns: i32,
    rows: i32,
    k: i32,
) -> (r: MapPosition)
    requires
        columns == side_count(zone_width as int),
        rows == side_count(zone_height as int),
        0 <= k < 2 * columns + 2 * rows,
        border_fits(*position, zone_width as int, zone_height as int),
    ensures
        r == border_at(*position, zone_width as int, zone_height as int, k as int),
{
    if k < columns {
        position.with_offset(k as i8, -1)
    } else if k < columns + rows {
        position.with_offset(-1, (k - columns) as i8)
    } else if k < 2 * columns + rows {
        position.with_offset((k - columns - rows) as i8, zone_height)
    } else {
        position.with_offset(zone_width, (k - 2 * columns - rows) as i8)
    }
}

/// Check and connect a new zone around the border.
pub fn check_border(
    map: &TileMap,
    position: &MapPosition,
    zone_size: &MapRectangle,
    effects: ToolEffects,
    auto_bulldoze: bool,
) -> (r: Result<ToolResult, String>)
    requires
        border_fits(*position, zone_size.width as i8 as int, zone_size.height as i8 as int),
    ensures
        ({
            let w = zone_size.width as i8 as int;
            let h = zone_size.height as i8 as int;
            match border_fixed(
                effects.changes(),
                *map,
                *position,
                w,
                h,
                2 * side_count(w) + 2 * side_count(h),
            ) {
                None => r is Err,
                Some(None) => r matches Ok(ToolResult::Failed),
                Some(Some(c)) => r matches Ok(ToolResult::Succeeded(e)) && e.changes() == c
                    && e.is_free() == effects.is_free() && e.total_cost() == effects.total_cost(),
            }
        }),
{
    let zone_width = zone_size.width as i8;
    let zone_height = zone_size.height as i8;
    let columns: i32 = if zone_width > 0 {
        zone_width as i32
    } else {
        0
    };
    let rows: i32 = if zone_height > 0 {
        zone_height as i32
    } else {
        0
    };
    let total: i32 = 2 * columns + 2 * rows;
    let ghost w = zone_width as int;
    let ghost h = zone_height as int;
    let ghost start = effects.changes();
    let ghost free0 = effects.is_free();
    let ghost cost0 = effects.total_cost();
    let mut current = effects;
    let mut k: i32 = 0;
    while k < total
        invariant
            0 <= k <= total,
            columns == side_count(w),
            rows == side_count(h),
            total == 2 * columns + 2 * rows,
            w == zone_width,
            h == zone_height,
            zone_width == zone_size.width as i8,
            zone_height == zone_size.height as i8,
            border_fits(*position, w, h),
            start == effects.changes(),
            free0 == effects.is_free(),
            cost0 == effects.total_cost(),
            border_fixed(start, *map, *position, w, h, k as int) == Some(Some(current.changes())),
            current.is_free() == free0,
            current.total_cost() == cost0,
        decreases total - k,
    {
        let border_position = border_position_at(position, zone_width, zone_height, columns, rows, k);
        assert(border_position == border_at(*position, w, h, k as int));
        let ghost before = current.changes();
        match TileMapConnector::connect_tile(
            map,
            &border_position,
            &ConnectTileCommand::Fix,
            current,
            auto_bulldoze,
        ) {
            Ok(ToolResult::Succeeded(e)) => {
                current = e;
            },
            Ok(other) => {
                proof {
                    assert(!map.spec_in_bounds(border_position));
                    assert(border_fixed(start, *map, *position, w, h, k + 1) == Some(
                        None::<Map<MapPosition, Tile>>,
                    ));
                    lemma_border_fixed_settled(start, *map, *position, w, h, k + 1, total as int);
                }
                return Ok(other);
            },
            Err(e) => {
                proof {
                    assert(map.spec_in_bounds(border_position));
                    assert(fixed_zone(before, *map, border_position) is None);
                    assert(border_fixed(start, *map, *position, w, h, k + 1) is None);
                    lemma_border_fixed_settled(start, *map, *position, w, h, k + 1, total as int);
                }
                return Err(e);
            },
        }
        k = k + 1;
    }
    Ok(ToolResult::Succeeded(current))
}

/// Computes the size of the zone that the tile belongs to, or 0 if
/// unknown tile value.
pub fn compute_size(tile: &Tile) -> (r: Option<u8>)
    ensures
        match tile.kind() {
            None => r is None,
            Some(t) => if t == TileType::Invalid {
                r is None
            } else {
                r == Some(zone_size_of(t.code()) as u8)
            },
        },
{
    let tile_type = match *tile.get_type() {
        Some(t) => t,
        None => {
            return None;
        },
    };
    let t = match tile_type.to_u16() {
        Some(v) => v,
        None => {
            return None;
        },
    };
    if (t >= TileType::ResidentialBase.raw_value() - 1 && t <= TileType::PortBase.raw_value() - 1)
        || (t >= TileType::LastPowerPlant.raw_value() + 1 && t <= TileType::PoliceStation.raw_value()
        + 4) || (t >= TileType::Church1Base.raw_value() && t <= TileType::Church7Last.raw_value()) {
        Some(3)
    } else if (t >= TileType::PortBase.raw_value() && t <= TileType::LastPort.raw_value()) || (t
        >= TileType::CoalBase.raw_value() && t <= TileType::LastPowerPlant.raw_value()) || (t
        >= TileType::StadiumBase.raw_value() && t <= TileType::LastZone.raw_value()) {
        Some(4)
    } else {
        Some(0)
    }
}

/// Compute where the "center" - at (1, 1) - of the zone is, depending on where
/// the user clicked.
///
/// Only inner tiles are recognized, and possibly not even complete (ie. stadium
/// while game is playing).
///
/// Returns the corrected position and the size of the zone clicked at
/// (or 0 if cliked outside zone).
pub fn check_big_zone(tile: &Tile) -> (r: Option<(MapPosition, u8)>)
    ensures
        ({
            let z = big_zone_of(type_bits(tile.raw()) as int);
            r matches Some((d, s)) && d.x == z.0 && d.y == z.1 && s == z.2
        }),
{
    let t = tile.get_type_raw();
    let power_plant = TileType::PowerPlant.raw_value();
    let port = TileType::Port.raw_value();
    let nuclear = TileType::Nuclear.raw_value();
    let stadium = TileType::Stadium.raw_value();
    let coal_smoke = TileType::CoalSmoke3.raw_value();
    let airport = TileType::Airport.raw_value();
    if t == power_plant || t == port || t == nuclear || t == stadium {
        Some((MapPosition::new(0, 0), 4))
    } else if t == power_plant + 1 || t == coal_smoke || t == coal_smoke + 1 || t == coal_smoke + 2
        || t == port + 1 || t == nuclear + 1 || t == stadium + 1 {
        Some((MapPosition::new(-1, 0), 4))
    } else if t == power_plant + 4 || t == port + 4 || t == nuclear + 4 || t == stadium + 4 {
        Some((MapPosition::new(0, -1), 4))
    } else if t == power_plant + 5 || t == port + 5 || t == nuclear + 5 || t == stadium + 5 {
        Some((MapPosition::new(-1, -1), 4))
    } else if t >= airport && t <= airport + 21 && (t - airport) % 6 <= 3 {
        let o = (t - airport) as i32;
        Some((MapPosition::new(-(o % 6), -(o / 6)), 6))
    } else {
        Some((MapPosition::new(0, 0), 0))
    }
}

/// Can the tile be auto-bulldozed?
pub fn is_tile_auto_bulldozable(tile: &Tile) -> (r: Option<bool>)
    ensures
        r == Some(auto_bulldozable(tile.raw())),
{
    let raw = tile.get_raw();
    let horizontal_power = TileType::HorizontalPower.raw_value();
    Some(
        (raw >= TileType::FirstRiverEdge.raw_value() && raw <= TileType::LastRubble.raw_value()) || (
        raw >= horizontal_power + 2 && raw <= horizontal_power + 12) || (raw
            >= TileType::TINYEXP.raw_value() && raw <= TileType::LASTTINYEXP.raw_value() + 2),
    )
}

/// Raw value of the tile type moved by `offset`; `None` for the invalid type.
pub fn offseted_raw_type(tile_type: &TileType, offset: i8) -> (r: Option<u16>)
    ensures
        *tile_type == TileType::Invalid ==> r is None,
        *tile_type != TileType::Invalid ==> r == Some(offset_code(*tile_type, offset as int)),
{
    match tile_type.to_u16() {
        Some(v) => Some((v as i32 + offset as i32) as u16),
        None => None,
    }
}

} // verus!
