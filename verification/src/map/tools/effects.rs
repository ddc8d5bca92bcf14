use vstd::prelude::*;

use crate::map::buildings::BuildingInfo;
use crate::map::connect::low_in;
use crate::map::position::{fits_i32, MapPosition, MapRectangle};
use crate::map::generator::trees::{smooth_trees_at, smoothing_fits, trees_smoothed};
use crate::map::tiles::{
    type_bits, Tile, TILE_ANIM_BIT, TILE_BULL_BIT, TILE_BURN_BIT, TILE_BURN_BULL_BIT,
    TILE_CONDUCT_BIT, TILE_ZONE_BIT,
};
use crate::map::tiles::lemma_kind_is;
use crate::map::tiles_type::TileType;
use crate::map::TileMap;
use crate::utils::random::{draw_bits, lcg_next, MicropolisRandom};
use crate::utils::random_in_range;
use crate::utils::bits::{lemma_flag_constants, lemma_u16_tile_bits};

use super::utils::{auto_bulldozable, border_fits, border_fixed, check_border, is_tile_auto_bulldozable, side_count};
use super::{value_in, EditingTool, ToolEffects, ToolResult};

verus! {

/// Is the position in the square of `size` tiles whose top-left corner is `anchor`?
pub open spec fn in_square(anchor: MapPosition, size: int, q: MapPosition) -> bool {
    anchor.x <= q.x < anchor.x + size && anchor.y <= q.y < anchor.y + size
}

/// Does the position (inside the map) hold something that turns into rubble,
/// that is anything but dirt and radioactive waste?
pub open spec fn gets_rubble(changes: Map<MapPosition, Tile>, map: TileMap, q: MapPosition) -> bool {
    map.spec_in_bounds(q) && match low_in(changes, map, q) {
        Some(v) => v as int != TileType::Radioactive.code() && v as int != TileType::Dirt.code(),
        None => false,
    }
}

/// Raw value of a rubble tile: one of the first three explosion tiles when
/// animated, a fixed explosion tile otherwise; animated and bulldozable.
pub open spec fn is_rubble_raw(raw: u16, animated: bool) -> bool {
    if animated {
        TileType::TINYEXP.code() + 0x1800 <= raw <= TileType::TINYEXP.code() + 2 + 0x1800
    } else {
        raw == TileType::SOMETINYEXP.code() + 0x1800
    }
}

/// Positions of the square already visited when the scan is at column `x`, row `y`.
pub open spec fn scanned(anchor: MapPosition, size: int, x: int, y: int, q: MapPosition) -> bool {
    in_square(anchor, size, q) && (q.x < x || (q.x == x && q.y < y))
}

/// The modifications `current` are those of `changes` with rubble put on the
/// scanned positions that get rubble.
pub open spec fn rubble_progress(
    changes: Map<MapPosition, Tile>,
    map: TileMap,
    anchor: MapPosition,
    size: int,
    x: int,
    y: int,
    animated: bool,
    current: Map<MapPosition, Tile>,
) -> bool {
    &&& forall|q: MapPosition| #[trigger]
        current.dom().contains(q) == (changes.dom().contains(q) || (scanned(anchor, size, x, y, q)
            && gets_rubble(changes, map, q)))
    &&& forall|q: MapPosition|
        scanned(anchor, size, x, y, q) && gets_rubble(changes, map, q) ==> is_rubble_raw(
            #[trigger] current[q].raw(),
            animated,
        ) && current[q].wf()
    &&& forall|q: MapPosition|
        !(scanned(anchor, size, x, y, q) && gets_rubble(changes, map, q)) && changes.dom().contains(q)
            ==> #[trigger] current[q] == changes[q]
    &&& forall|q: MapPosition|
        scanned(anchor, size, x, y, q) && map.spec_in_bounds(q) ==> #[trigger] low_in(changes, map, q) is Some
}

/// Every position of the square inside the map can be read.
pub open spec fn square_readable(
    changes: Map<MapPosition, Tile>,
    map: TileMap,
    anchor: MapPosition,
    size: int,
) -> bool {
    forall|q: MapPosition|
        in_square(anchor, size, q) && map.spec_in_bounds(q) ==> #[trigger] low_in(changes, map, q) is Some
}

/// Put rubble on one position, unless it is outside the map, dirt or radioactive.
fn rubble_step(
    rng: &mut MicropolisRandom,
    map: &TileMap,
    position: &MapPosition,
    effects: ToolEffects,
    animations_enabled: bool,
) -> (r: Result<ToolEffects, String>)
    ensures
        final(rng).creation_seed() == old(rng).creation_seed(),
        !map.spec_in_bounds(*position) ==> r == Ok::<ToolEffects, String>(effects),
        map.spec_in_bounds(*position) ==> match low_in(effects.changes(), *map, *position) {
            None => r is Err,
            Some(v) => if !gets_rubble(effects.changes(), *map, *position) {
                r == Ok::<ToolEffects, String>(effects)
            } else {
                r matches Ok(e) && e.is_free() == effects.is_free() && e.total_cost()
                    == effects.total_cost() && e.changes() == effects.changes().insert(
                    *position,
                    e.changes()[*position],
                ) && is_rubble_raw(e.changes()[*position].raw(), animations_enabled)
                    && e.changes()[*position].wf()
            },
        },
{
    if !map.in_bounds(position) {
        return Ok(effects);
    }
    let tile = match effects.get_map_tile_at(map, position) {
        Some(t) => t,
        None => {
            return Err(String::from_str("put_rubble cannot read effects tile"));
        },
    };
    proof {
        lemma_kind_is(tile, TileType::Radioactive);
        lemma_kind_is(tile, TileType::Dirt);
        let raw = value_in(effects.changes(), *map, *position).unwrap().raw();
        lemma_u16_tile_bits(raw);
    }
    if tile.is_of_type(&TileType::Radioactive) || tile.is_of_type(&TileType::Dirt) {
        return Ok(effects);
    }
    let base = if animations_enabled {
        TileType::TINYEXP.raw_value() + random_in_range(rng, 0, 2)
    } else {
        TileType::SOMETINYEXP.raw_value()
    };
    proof {
        assert(forall|b: u16| 860 <= b <= 864 ==> #[trigger] (b | 0x0800u16 | 0x1000u16) == b + 0x1800)
            by (bit_vector);
        assert(TILE_ANIM_BIT == 0x0800u16);
        assert(TILE_BULL_BIT == 0x1000u16);
    }
    let rubble = match Tile::from_raw(base | TILE_ANIM_BIT | TILE_BULL_BIT) {
        Ok(t) => t,
        Err(e) => {
            return Err(e);
        },
    };
    let e = effects.add_modification(position, rubble);
    assert(e.changes()[*position] == rubble);
    assert(e.changes() =~= effects.changes().insert(*position, e.changes()[*position]));
    Ok(e)
}

/// Make a square of rubble tiles of the given size.
pub fn put_rubble(
    rng: &mut MicropolisRandom,
    map: &TileMap,
    anchor: &MapPosition,
    size: i8,
    effects: ToolEffects,
    animations_enabled: bool,
) -> (r: Result<ToolEffects, String>)
    requires
        fits_i32(anchor.x + size),
        fits_i32(anchor.y + size),
    ensures
        final(rng).creation_seed() == old(rng).creation_seed(),
        r is Ok <==> square_readable(effects.changes(), *map, *anchor, size as int),
        r matches Ok(e) ==> e.is_free() == effects.is_free() && e.total_cost()
            == effects.total_cost() && rubble_progress(
            effects.changes(),
            *map,
            *anchor,
            size as int,
            anchor.x + size,
            anchor.y as int,
            animations_enabled,
            e.changes(),
        ),
{
    let ghost ch = effects.changes();
    let ghost sz = size as int;
    let mut current = effects;
    let x_end: i32 = anchor.x + size as i32;
    let y_end: i32 = anchor.y + size as i32;
    let mut x: i32 = anchor.x;
    assert(rubble_progress(ch, *map, *anchor, sz, x as int, anchor.y as int, animations_enabled, current.changes()));
    while x < x_end
        invariant
            anchor.x <= x,
            x_end == anchor.x + sz,
            y_end == anchor.y + sz,
            x < x_end || x == x_end || sz <= 0,
            sz <= 0 ==> x == anchor.x,
            ch == effects.changes(),
            sz == size,
            current.is_free() == effects.is_free(),
            current.total_cost() == effects.total_cost(),
            old(rng).creation_seed() == rng.creation_seed(),
            rubble_progress(ch, *map, *anchor, sz, x as int, anchor.y as int, animations_enabled, current.changes()),
        decreases x_end - x,
    {
        let mut y: i32 = anchor.y;
        while y < y_end
            invariant
                anchor.x <= x < x_end,
                anchor.y <= y,
                x_end == anchor.x + sz,
                y_end == anchor.y + sz,
                y <= y_end,
                ch == effects.changes(),
                sz == size,
                current.is_free() == effects.is_free(),
                current.total_cost() == effects.total_cost(),
                old(rng).creation_seed() == rng.creation_seed(),
                rubble_progress(ch, *map, *anchor, sz, x as int, y as int, animations_enabled, current.changes()),
            decreases y_end - y,
        {
            let current_position = MapPosition::new(x, y);
            let ghost before = current.changes();
            proof {
                assert(!scanned(*anchor, sz, x as int, y as int, current_position));
                assert(low_in(before, *map, current_position) == low_in(ch, *map, current_position));
            }
            current = match rubble_step(rng, map, &current_position, current, animations_enabled) {
                Ok(e) => e,
                Err(e) => {
                    proof {
                        assert(in_square(*anchor, sz, current_position));
                        assert(!square_readable(ch, *map, *anchor, sz));
                    }
                    return Err(e);
                },
            };
            proof {
                let after = current.changes();
                assert forall|q: MapPosition| #[trigger]
                    after.dom().contains(q) == (ch.dom().contains(q) || (scanned(*anchor, sz, x as int, y + 1, q)
                        && gets_rubble(ch, *map, q))) by {
                    if q == current_position {
                    } else {
                        assert(scanned(*anchor, sz, x as int, y + 1, q) == scanned(*anchor, sz, x as int, y as int, q));
                    }
                }
                assert forall|q: MapPosition|
                    scanned(*anchor, sz, x as int, y + 1, q) && gets_rubble(ch, *map, q) implies is_rubble_raw(
                        #[trigger] after[q].raw(),
                        animations_enabled,
                    ) && after[q].wf() by {
                    if q != current_position {
                        assert(scanned(*anchor, sz, x as int, y as int, q));
                    }
                }
                assert forall|q: MapPosition|
                    !(scanned(*anchor, sz, x as int, y + 1, q) && gets_rubble(ch, *map, q)) && ch.dom().contains(q)
                        implies #[trigger] after[q] == ch[q] by {
                    if q != current_position {
                        assert(!(scanned(*anchor, sz, x as int, y as int, q) && gets_rubble(ch, *map, q)));
                    }
                }
                assert forall|q: MapPosition|
                    scanned(*anchor, sz, x as int, y + 1, q) && map.spec_in_bounds(q) implies #[trigger] low_in(ch, *map, q) is Some by {
                    if q != current_position {
                        assert(scanned(*anchor, sz, x as int, y as int, q));
                    }
                }
            }
            y = y + 1;
        }
        proof {
            assert forall|q: MapPosition| #[trigger] scanned(*anchor, sz, x + 1, anchor.y as int, q) == scanned(*anchor, sz, x as int, y as int, q) by {}
        }
        x = x + 1;
    }
    proof {
        assert forall|q: MapPosition| in_square(*anchor, sz, q) && map.spec_in_bounds(q) implies #[trigger] low_in(ch, *map, q) is Some by {
            assert(scanned(*anchor, sz, x as int, anchor.y as int, q));
        }
    }
    Ok(current)
}

/// Raw value of the park piece drawn as `value` (0 to 4): a fountain for 4,
/// woods otherwise; burnable and bulldozable.
pub open spec fn park_raw(value: int) -> u16 {
    if value == 4 {
        (TileType::FOUNTAIN.code() + 0x3800) as u16
    } else {
        (value + TileType::Woods2.code() + 0x3000) as u16
    }
}

/// Put down a park at the given position.
///
/// A park is refused (the area must be bulldozed first) where the tile is dirt.
pub fn put_down_park(
    rng: &mut MicropolisRandom,
    map: &TileMap,
    position: &MapPosition,
    effects: ToolEffects,
) -> (r: Result<ToolResult, String>)
    requires
        !effects.is_free() ==> effects.total_cost() + 100 <= u32::MAX,
    ensures
        final(rng).state() == lcg_next(old(rng).state()),
        final(rng).creation_seed() == old(rng).creation_seed(),
        if value_in(effects.changes(), *map, *position) matches Some(t) && t.kind() == Some(
            TileType::Dirt,
        ) {
            r matches Ok(ToolResult::NeedBulldoze)
        } else {
            r matches Ok(ToolResult::Succeeded(e)) && e.changes() == effects.changes().insert(
                *position,
                Tile::of_raw(park_raw(draw_bits(final(rng).state()) % 5)),
            ) && e.is_free() == effects.is_free() && e.total_cost() == effects.total_cost() + if effects.is_free() {
                0int
            } else {
                100int
            }
        },
{
    let value: u16 = random_in_range(rng, 0, 4);
    proof {
        lemma_flag_constants();
        assert forall|v: u16| v < 4 implies #[trigger] (0x2000u16 | 0x1000u16 | ((v + 40) as u16)) == v + 40 + 0x3000 by {
            lemma_u16_tile_bits((v + 40) as u16);
        }
    }
    let tile_raw = TILE_BURN_BIT | TILE_BULL_BIT | if value == 4 {
        TileType::FOUNTAIN.raw_value() | TILE_ANIM_BIT
    } else {
        value + TileType::Woods2.raw_value()
    };
    match effects.get_map_value_at(map, position) {
        Some(tile) => {
            if tile.is_dirt() {
                return Ok(ToolResult::NeedBulldoze);
            }
        },
        None => {},
    }
    let park = match Tile::from_raw(tile_raw) {
        Ok(t) => t,
        Err(e) => {
            return Err(e);
        },
    };
    proof {
        Tile::lemma_of_raw(park);
    }
    Ok(ToolResult::Succeeded(effects.add_cost(EditingTool::Park.cost()).add_modification(position, park)))
}

/// Put down a water tile.
pub fn put_down_water(map: &TileMap, position: &MapPosition, effects: ToolEffects) -> (r: Result<
    ToolResult,
    String,
>)
    requires
        !effects.is_free() ==> effects.total_cost() + 100 <= u32::MAX,
    ensures
        match low_in(effects.changes(), *map, *position) {
            None => r is Err,
            Some(v) => if v as int == TileType::River.code() {
                r matches Ok(ToolResult::Failed)
            } else {
                r matches Ok(ToolResult::Succeeded(e)) && e.changes() == effects.changes().insert(
                    *position,
                    Tile::of_raw(TileType::River.code() as u16),
                ) && e.is_free() == effects.is_free() && e.total_cost() == effects.total_cost()
                    + if effects.is_free() {
                    0int
                } else {
                    100int
                }
            },
        },
{
    let tile = match effects.get_map_tile_at(map, position) {
        Some(t) => t,
        None => {
            return Err(String::from_str("Cannot read tile"));
        },
    };
    proof {
        lemma_kind_is(tile, TileType::River);
        let raw = value_in(effects.changes(), *map, *position).unwrap().raw();
        lemma_u16_tile_bits(raw);
    }
    if tile.is_of_type(&TileType::River) {
        Ok(ToolResult::Failed)
    } else {
        let river = match Tile::from_type(TileType::River) {
            Ok(t) => t,
            Err(e) => {
                return Err(e);
            },
        };
        proof {
            Tile::lemma_of_raw(river);
        }
        Ok(
            ToolResult::Succeeded(
                effects.add_cost(EditingTool::Water.cost()).add_modification(position, river),
            ),
        )
    }
}

/// What `put_down_land` answers: an error where the tile cannot be read,
/// `Failed` on dirt, and otherwise the effects with dirt at the position.
pub open spec fn land_result(
    effects: ToolEffects,
    map: TileMap,
    position: MapPosition,
    r: Result<ToolResult, String>,
) -> bool {
    match low_in(effects.changes(), map, position) {
        None => r is Err,
        Some(v) => if v as int == TileType::Dirt.code() {
            r matches Ok(ToolResult::Failed)
        } else {
            r matches Ok(ToolResult::Succeeded(e)) && e.changes() == effects.changes().insert(
                position,
                Tile::of_raw(TileType::Dirt.code() as u16),
            ) && e.is_free() == effects.is_free() && e.total_cost() == effects.total_cost()
                + if effects.is_free() {
                0int
            } else {
                100int
            }
        },
    }
}

/// Put down a land tile.
pub fn put_down_land(map: &TileMap, position: &MapPosition, effects: ToolEffects) -> (r: Result<
    ToolResult,
    String,
>)
    requires
        !effects.is_free() ==> effects.total_cost() + 100 <= u32::MAX,
    ensures
        land_result(effects, *map, *position, r),
{
    let tile = match effects.get_map_tile_at(map, position) {
        Some(t) => t,
        None => {
            return Err(String::from_str("Cannot read tile"));
        },
    };
    proof {
        lemma_kind_is(tile, TileType::Dirt);
        let raw = value_in(effects.changes(), *map, *position).unwrap().raw();
        lemma_u16_tile_bits(raw);
    }
    if tile.is_dirt() {
        Ok(ToolResult::Failed)
    } else {
        let dirt = match Tile::from_type(TileType::Dirt) {
            Ok(t) => t,
            Err(e) => {
                return Err(e);
            },
        };
        proof {
            Tile::lemma_of_raw(dirt);
        }
        Ok(
            ToolResult::Succeeded(
                effects.add_cost(EditingTool::Land.cost()).add_modification(position, dirt),
            ),
        )
    }
}

/// The `k`-th position of a site of `w` columns anchored at `p`, row by row.
pub open spec fn site_at(p: MapPosition, w: int, k: int) -> MapPosition {
    MapPosition { x: (p.x + k % w) as i32, y: (p.y + k / w) as i32 }
}

/// Outcome of preparing the first `n` positions of a site: `None` when a
/// tile cannot be read, `Some(None)` when a tile must be bulldozed first,
/// otherwise the modifications and the cost of the tiles bulldozed.
pub open spec fn site_prepared(
    changes: Map<MapPosition, Tile>,
    map: TileMap,
    p: MapPosition,
    w: int,
    auto_bulldoze: bool,
    n: int,
) -> Option<Option<(Map<MapPosition, Tile>, int)>>
    decreases n,
{
    if n <= 0 {
        Some(Some((changes, 0)))
    } else {
        match site_prepared(changes, map, p, w, auto_bulldoze, n - 1) {
            Some(Some((c, count))) => {
                let q = site_at(p, w, n - 1);
                match low_in(c, map, q) {
                    None => None,
                    Some(v) => if v as int == TileType::Dirt.code() {
                        Some(Some((c, count)))
                    } else if !auto_bulldoze || !auto_bulldozable(v) {
                        Some(None)
                    } else {
                        Some(Some((c.insert(q, Tile::of_raw(0)), count + 100)))
                    },
                }
            },
            other => other,
        }
    }
}

proof fn lemma_site_prepared_settled(
    changes: Map<MapPosition, Tile>,
    map: TileMap,
    p: MapPosition,
    w: int,
    auto_bulldoze: bool,
    m: int,
    n: int,
)
    requires
        0 <= m <= n,
        !(site_prepared(changes, map, p, w, auto_bulldoze, m) is Some && site_prepared(
            changes,
            map,
            p,
            w,
            auto_bulldoze,
            m,
        )->0 is Some),
    ensures
        site_prepared(changes, map, p, w, auto_bulldoze, n) == site_prepared(
            changes,
            map,
            p,
            w,
            auto_bulldoze,
            m,
        ),
    decreases n - m,
{
    if n > m {
        lemma_site_prepared_settled(changes, map, p, w, auto_bulldoze, m, n - 1);
    }
}

/// Every position of a site of `w` by `h` tiles at `p` is a 32-bit position.
pub open spec fn site_fits(p: MapPosition, w: int, h: int) -> bool {
    w > 0 && h > 0 ==> fits_i32(p.x + w - 1) && fits_i32(p.y + h - 1)
}

/// The `k`-th position of a site, for `k` below its number of tiles.
fn site_position(position: &MapPosition, columns: i32, rows: i32, k: i32) -> (r: MapPosition)
    requires
        columns > 0,
        rows > 0,
        columns <= 127,
        rows <= 127,
        0 <= k < columns * rows,
        site_fits(*position, columns as int, rows as int),
    ensures
        r == site_at(*position, columns as int, k as int),
        0 <= k % columns < columns,
        0 <= k / columns < rows,
{
    assert(0 <= k / columns < rows) by (nonlinear_arith)
        requires
            columns > 0,
            0 <= k < columns * rows,
    ;
    position.with_offset((k % columns) as i8, (k / columns) as i8)
}

/// Prepare the site where a building is about to be put down,.
///
/// This function performs some basic sanity checks, and implements
/// the auto-bulldoze functionality to prepare the site.
fn prepare_bulding_site(
    map: &TileMap,
    position: &MapPosition,
    size: &MapRectangle,
    effects: ToolEffects,
    auto_bulldoze: bool,
) -> (r: Result<ToolResult, String>)
    requires
        fits_i32(position.x + size.width as i32),
        fits_i32(position.y + size.height as i32),
        site_fits(*position, size.width as i8 as int, size.height as i8 as int),
        !effects.is_free() ==> effects.total_cost() + 100 * (side_count(size.width as i8 as int)
            * side_count(size.height as i8 as int)) <= u32::MAX,
    ensures
        ({
            let w = side_count(size.width as i8 as int);
            let h = side_count(size.height as i8 as int);
            if !map.bounds_contain(*position, *size) {
                r matches Ok(ToolResult::Failed)
            } else {
                match site_prepared(effects.changes(), *map, *position, w, auto_bulldoze, w * h) {
                    None => r is Err,
                    Some(None) => r matches Ok(ToolResult::NeedBulldoze),
                    Some(Some((c, count))) => r matches Ok(ToolResult::Succeeded(e)) && e.changes()
                        == c && count <= 100 * (w * h) && e.is_free() == effects.is_free() && e.total_cost()
                        == effects.total_cost() + if effects.is_free() {
                        0
                    } else {
                        count
                    },
                }
            }
        }),
{
    let width = size.width as i8;
    let height = size.height as i8;
    // check that the entire site fits on the map
    if !map.bounds().is_contained(position, size) {
        return Ok(ToolResult::Failed);
    }
    let columns: i32 = if width > 0 { width as i32 } else { 0 };
    let rows: i32 = if height > 0 { height as i32 } else { 0 };
    assert(columns * rows <= 127 * 127) by (nonlinear_arith)
        requires
            0 <= columns <= 127,
            0 <= rows <= 127,
    ;
    let total: i32 = columns * rows;
    let ghost ch = effects.changes();
    let ghost free0 = effects.is_free();
    let ghost cost0 = effects.total_cost();
    let mut current = effects;
    let mut k: i32 = 0;
    // ensure that all the tiles are clear, auto-bulldoze if allowed and possible
    while k < total
        invariant
            0 <= k <= total,
            total == columns * rows,
            columns == side_count(size.width as i8 as int),
            rows == side_count(size.height as i8 as int),
            0 <= columns <= 127,
            0 <= rows <= 127,
            site_fits(*position, columns as int, rows as int),
            map.bounds_contain(*position, *size),
            ch == effects.changes(),
            free0 == effects.is_free(),
            cost0 == effects.total_cost(),
            !free0 ==> cost0 + 100 * total <= u32::MAX,
            site_prepared(ch, *map, *position, columns as int, auto_bulldoze, k as int) matches Some(Some((c, count)))
                && c == current.changes() && 0 <= count <= 100 * k && current.total_cost() == cost0 + if free0 {
                0
            } else {
                count
            },
            current.is_free() == free0,
        decreases total - k,
    {
        let current_position = site_position(position, columns, rows, k);
        let ghost before = current.changes();
        let current_tile = match current.get_map_tile_at(map, &current_position) {
            Some(t) => t,
            None => {
                proof {
                    assert(site_prepared(ch, *map, *position, columns as int, auto_bulldoze, k + 1) is None);
                    lemma_site_prepared_settled(ch, *map, *position, columns as int, auto_bulldoze, k + 1, total as int);
                }
                return Err(String::from_str("Cannot read tile"));
            },
        };
        proof {
            lemma_kind_is(current_tile, TileType::Dirt);
            let raw = value_in(before, *map, current_position).unwrap().raw();
            lemma_u16_tile_bits(raw);
        }
        if !current_tile.is_of_type(&TileType::Dirt) {
            if !auto_bulldoze || is_tile_auto_bulldozable(&current_tile) != Some(true) {
                proof {
                    assert(site_prepared(ch, *map, *position, columns as int, auto_bulldoze, k + 1) == Some(
                        None::<(Map<MapPosition, Tile>, int)>,
                    ));
                    lemma_site_prepared_settled(ch, *map, *position, columns as int, auto_bulldoze, k + 1, total as int);
                }
                return Ok(ToolResult::NeedBulldoze);
            }
            let dirt = match Tile::from_type(TileType::Dirt) {
                Ok(t) => t,
                Err(e) => {
                    return Err(e);
                },
            };
            proof {
                Tile::lemma_of_raw(dirt);
            }
            current = current.add_cost(EditingTool::Bulldozer.cost()).add_modification(&current_position, dirt);
        }
        k = k + 1;
    }
    Ok(ToolResult::Succeeded(current))
}

/// Raw value of the `k`-th tile of a building whose first tile has raw value
/// `base`: the tiles follow each other, burnable and conductive, the centre
/// (1, 1) marked as the zone tile and, for animated buildings, the tile at
/// (1, 2) animated.
pub open spec fn building_raw(base: u16, animated: bool, w: int, k: int) -> u16 {
    let dx = k % w;
    let dy = k / w;
    let extra: u16 = if dx == 1 && dy == 1 {
        0x0400u16
    } else if dx == 1 && dy == 2 && animated {
        0x0800u16
    } else {
        0u16
    };
    ((base + k) as u16) | 0x6000u16 | extra
}

/// The modifications after putting down the first `n` tiles of a building.
pub open spec fn building_placed(
    changes: Map<MapPosition, Tile>,
    p: MapPosition,
    base: u16,
    animated: bool,
    w: int,
    n: int,
) -> Map<MapPosition, Tile>
    decreases n,
{
    if n <= 0 {
        changes
    } else {
        building_placed(changes, p, base, animated, w, n - 1).insert(
            site_at(p, w, n - 1),
            Tile::of_raw(building_raw(base, animated, w, n - 1)),
        )
    }
}

/// Put down a new building, starting at the given position (left, top).
///
/// Building information:
/// - base_tile
///   Tile value to use at the top-left position.
/// - animation_flag
///   Set animation flag at relative position (1, 2).
fn put_down_building(
    map: &TileMap,
    position: &MapPosition,
    building_info: &BuildingInfo,
    effects: ToolEffects,
) -> (r: Result<ToolResult, String>)
    requires
        site_fits(
            *position,
            side_count(building_info.size.width as i8 as int),
            side_count(building_info.size.height as i8 as int),
        ),
        building_info.base_tile.raw() + side_count(building_info.size.width as i8 as int)
            * side_count(building_info.size.height as i8 as int) <= 0xffff,
    ensures
        ({
            let w = side_count(building_info.size.width as i8 as int);
            let h = side_count(building_info.size.height as i8 as int);
            r matches Ok(ToolResult::Succeeded(e)) && e.changes() == building_placed(
                effects.changes(),
                *position,
                building_info.base_tile.raw(),
                building_info.is_animated,
                w,
                w * h,
            ) && e.is_free() == effects.is_free() && e.total_cost() == effects.total_cost()
        }),
{
    let width = building_info.size.width as i8;
    let height = building_info.size.height as i8;
    let columns: i32 = if width > 0 { width as i32 } else { 0 };
    let rows: i32 = if height > 0 { height as i32 } else { 0 };
    assert(columns * rows <= 127 * 127) by (nonlinear_arith)
        requires
            0 <= columns <= 127,
            0 <= rows <= 127,
    ;
    let total: i32 = columns * rows;
    let ghost ch = effects.changes();
    let ghost base = building_info.base_tile.raw();
    let mut current = effects;
    let mut tile = building_info.base_tile;
    let mut k: i32 = 0;
    while k < total
        invariant
            0 <= k <= total,
            total == columns * rows,
            columns == side_count(building_info.size.width as i8 as int),
            rows == side_count(building_info.size.height as i8 as int),
            0 <= columns <= 127,
            0 <= rows <= 127,
            site_fits(*position, columns as int, rows as int),
            ch == effects.changes(),
            base == building_info.base_tile.raw(),
            base + total <= 0xffff,
            tile.raw() == base + k,
            current.changes() == building_placed(ch, *position, base, building_info.is_animated, columns as int, k as int),
            current.is_free() == effects.is_free(),
            current.total_cost() == effects.total_cost(),
        decreases total - k,
    {
        let current_position = site_position(position, columns, rows, k);
        let dx = k % columns;
        let dy = k / columns;
        let extra: u16 = if dx == 1 && dy == 1 {
            TILE_ZONE_BIT
        } else if dx == 1 && dy == 2 && building_info.is_animated {
            TILE_ANIM_BIT
        } else {
            0x00
        };
        let tile_raw = tile.get_raw() | TILE_BURN_BIT | TILE_CONDUCT_BIT | extra;
        proof {
            let t = tile.raw();
            lemma_u16_tile_bits(t);
        }
        let placed = match Tile::from_raw(tile_raw) {
            Ok(t) => t,
            Err(e) => {
                return Err(e);
            },
        };
        proof {
            Tile::lemma_of_raw(placed);
        }
        current = current.add_modification(&current_position, placed);
        tile.set_raw(tile.get_raw() + 1);
        k = k + 1;
    }
    Ok(ToolResult::Succeeded(current))
}

/// What building with the given information centred at `center` gives:
/// 0 for an error, 1 for a failure, 2 when the site must be bulldozed first,
/// 3 for success; with the modifications and the number of tiles bulldozed.
pub open spec fn build_outcome(
    changes: Map<MapPosition, Tile>,
    map: TileMap,
    center: MapPosition,
    size: MapRectangle,
    base: u16,
    animated: bool,
    auto_bulldoze: bool,
) -> (int, Map<MapPosition, Tile>, int) {
    let anchor = MapPosition { x: (center.x - 1) as i32, y: (center.y - 1) as i32 };
    let sw = size.width as i8 as int;
    let sh = size.height as i8 as int;
    let w = side_count(sw);
    let h = side_count(sh);
    if !map.bounds_contain(anchor, size) {
        (1, changes, 0)
    } else {
        match site_prepared(changes, map, anchor, w, auto_bulldoze, w * h) {
            None => (0, changes, 0),
            Some(None) => (2, changes, 0),
            Some(Some((prepared, count))) => {
                let placed = building_placed(prepared, anchor, base, animated, w, w * h);
                match border_fixed(placed, map, anchor, sw, sh, 2 * w + 2 * h) {
                    None => (0, changes, 0),
                    Some(None) => (1, changes, 0),
                    Some(Some(connected)) => (3, connected, count),
                }
            },
        }
    }
}

/// A building of the given size, whose first tile has raw value `base`, can
/// be put down around `center` without leaving 32-bit positions and 16-bit
/// tile values, and the cost of bulldozing its whole site and of the tool
/// (`price`) fits the accumulated cost.
pub open spec fn building_fits(
    center: MapPosition,
    size: MapRectangle,
    base: u16,
    price: int,
    free: bool,
    cost: u32,
) -> bool {
    let anchor = MapPosition { x: (center.x - 1) as i32, y: (center.y - 1) as i32 };
    let sw = size.width as i8 as int;
    let sh = size.height as i8 as int;
    let w = side_count(sw);
    let h = side_count(sh);
    &&& fits_i32(center.x - 1)
    &&& fits_i32(center.y - 1)
    &&& fits_i32(anchor.x + size.width as i32)
    &&& fits_i32(anchor.y + size.height as i32)
    &&& site_fits(anchor, w, h)
    &&& border_fits(anchor, sw, sh)
    &&& base + w * h <= 0xffff
    &&& !free ==> cost + 100 * (w * h) + price <= u32::MAX
}

/// Build a new building, with the given position being its 'center' tile.
pub fn build_building(
    map: &TileMap,
    center: &MapPosition,
    building_info: &BuildingInfo,
    effects: ToolEffects,
    auto_bulldoze: bool,
) -> (r: Result<ToolResult, String>)
    requires
        building_fits(
            *center,
            building_info.size,
            building_info.base_tile.raw(),
            building_info.tool.price(),
            effects.is_free(),
            effects.total_cost(),
        ),
    ensures
        ({
            let o = build_outcome(
                effects.changes(),
                *map,
                *center,
                building_info.size,
                building_info.base_tile.raw(),
                building_info.is_animated,
                auto_bulldoze,
            );
            &&& (o.0 == 0 <==> r is Err)
            &&& (o.0 == 1 <==> (r matches Ok(ToolResult::Failed)))
            &&& (o.0 == 2 <==> (r matches Ok(ToolResult::NeedBulldoze)))
            &&& (o.0 == 3 <==> (r matches Ok(ToolResult::Succeeded(_))))
            &&& r matches Ok(ToolResult::Succeeded(e)) ==> e.changes() == o.1 && e.is_free()
                == effects.is_free() && e.total_cost() == effects.total_cost() + if effects.is_free() {
                0
            } else {
                o.2 + building_info.tool.price()
            }
        }),
{
    // compute top-left 'anchor'
    let anchor = center.with_offset(-1, -1);
    let ghost w = side_count(building_info.size.width as i8 as int);
    let ghost h = side_count(building_info.size.height as i8 as int);
    assert(w * h <= 127 * 127) by (nonlinear_arith)
        requires
            0 <= w <= 127,
            0 <= h <= 127,
    ;
    // prepare building site
    let prepared = match prepare_bulding_site(
        map,
        &anchor,
        &building_info.size,
        effects,
        auto_bulldoze,
    ) {
        Ok(ToolResult::Succeeded(e)) => e,
        Ok(other) => {
            return Ok(other);
        },
        Err(e) => {
            return Err(e);
        },
    };
    // put down the building
    let placed = match put_down_building(map, &anchor, building_info, prepared) {
        Ok(ToolResult::Succeeded(e)) => e,
        Ok(other) => {
            return Ok(other);
        },
        Err(e) => {
            return Err(e);
        },
    };
    // update surrounding connections
    let connected = match check_border(map, &anchor, &building_info.size, placed, auto_bulldoze) {
        Ok(ToolResult::Succeeded(e)) => e,
        Ok(other) => {
            return Ok(other);
        },
        Err(e) => {
            return Err(e);
        },
    };
    // all good!
    Ok(ToolResult::Succeeded(connected.add_cost(building_info.tool.cost())))
}

/// Horizontal offsets of the eight neighbours of a forest tile.
pub open spec fn forest_dx() -> Seq<i32> {
    seq![-1i32, 0i32, 1i32, -1i32, 1i32, -1i32, 0i32, 1i32]
}

/// Vertical offsets of the eight neighbours of a forest tile.
pub open spec fn forest_dy() -> Seq<i32> {
    seq![-1i32, -1i32, -1i32, 0i32, 0i32, 1i32, 1i32, 1i32]
}

/// The modifications after smoothing the forest at `p` once for each of the
/// first `n` neighbours of `p` that is inside the map.
pub open spec fn forest_smoothed(
    changes: Map<MapPosition, Tile>,
    map: TileMap,
    p: MapPosition,
    n: int,
) -> Map<MapPosition, Tile>
    decreases n,
{
    if n <= 0 {
        changes
    } else {
        let c = forest_smoothed(changes, map, p, n - 1);
        let q = MapPosition { x: (p.x + forest_dx()[n - 1]) as i32, y: (p.y + forest_dy()[n - 1]) as i32 };
        if map.spec_in_bounds(q) {
            trees_smoothed(c, map, p, true)
        } else {
            c
        }
    }
}

/// Raw value of a freshly planted forest tile: woods, burnable and bulldozable.
pub open spec fn woods_raw() -> u16 {
    (TileType::Woods.code() + 0x3000) as u16
}

/// Put down a forest.
pub fn put_down_forest(map: &TileMap, position: &MapPosition, effects: ToolEffects) -> (r: Result<
    ToolResult,
    String,
>)
    requires
        smoothing_fits(*position),
        !effects.is_free() ==> effects.total_cost() + 100 <= u32::MAX,
    ensures
        r matches Ok(ToolResult::Succeeded(e)) && e.changes() == forest_smoothed(
            effects.changes().insert(*position, Tile::of_raw(woods_raw())),
            *map,
            *position,
            8,
        ) && e.is_free() == effects.is_free() && e.total_cost() == effects.total_cost() + if effects.is_free() {
            0int
        } else {
            100int
        },
{
    proof {
        lemma_flag_constants();
    }
    let woods = match Tile::from_raw(TileType::Woods.raw_value() | TILE_BURN_BULL_BIT) {
        Ok(t) => t,
        Err(e) => {
            return Err(e);
        },
    };
    proof {
        Tile::lemma_of_raw(woods);
    }
    let mut current = effects.add_modification(position, woods);
    let ghost planted = current.changes();
    let dx_table: [i32; 8] = [-1, 0, 1, -1, 1, -1, 0, 1];
    let dy_table: [i32; 8] = [-1, -1, -1, 0, 0, 1, 1, 1];
    let mut i: usize = 0;
    while i < 8
        invariant
            i <= 8,
            dx_table@ == forest_dx(),
            dy_table@ == forest_dy(),
            smoothing_fits(*position),
            current.changes() == forest_smoothed(planted, *map, *position, i as int),
            current.is_free() == effects.is_free(),
            current.total_cost() == effects.total_cost(),
        decreases 8 - i,
    {
        let neighbor = MapPosition::new(position.x + dx_table[i], position.y + dy_table[i]);
        if map.in_bounds(&neighbor) {
            current = match smooth_trees_at(map, position, current, true) {
                Ok(e) => e,
                Err(e) => {
                    return Err(e);
                },
            };
        }
        i = i + 1;
    }
    Ok(ToolResult::Succeeded(current.add_cost(EditingTool::Forest.cost())))
}

} // verus!
