pub mod census;
pub mod parameters;
pub mod scan;
pub mod sprites;
pub mod statistics;
pub mod taxes;
pub mod zones;

use vstd::prelude::*;

use crate::city::power::{position_fits, power_scanned, CityPower, COAL_POWER_STRENGTH, NUCLEAR_POWER_STRENGTH, POWER_STACK_SIZE};
use crate::city::City;
use census::{monthly_census_taken, yearly_census_taken};
use crate::city::sprite::{first_active, ActiveSpritesList, Sprite, SpriteType};
use crate::city::traffic::{driveable, perimeter_from, CityTraffic};
use crate::game::{GameLevelDifficulty, GameSpeed, GameSpeedPreset};
use crate::utils::random::{draw_bits, lcg_next, random16_at, trunc_rem, MicropolisRandom};
use crate::utils::bits::{lemma_i16_low_bits, lemma_u16_tile_bits, lemma_u64_low_bits, lemma_u8_low_bits};
use crate::utils::clamp;
use crate::city::disasters::{fire_raw, flood_spread, rubble_raw, FloodState};
use crate::map::tiles::{TILE_ANIM_BIT, TILE_BULL_BIT, TILE_BURN_BIT, TILE_CONDUCT_BIT, TILE_LOW_MASK, TILE_ZONE_BIT};
use crate::city::disasters::CityDisasters;
use crate::map::position::fits_i32;
use crate::map::tiles::type_bits;
use crate::map::tiles_type::tile_type_of;
use crate::map::{lemma_same_shape_values, lemma_write_same, lemma_write_cell_shape, same_shape, update_column, update_sweep};
use crate::map::{
    cell_exists, grid_value_at, sweep, uniform_cells, write_cell, MapClusteringStrategy, MapPosition, MapRectangle, Tile, TileMap,
    TileType, WorldMap,
};

use census::CitySimulationCensus;
use parameters::SimulationParameters;
use scan::{
    block8_position, center_readable, commercial_rate, covers, density_filled, density_smoothed,
    density_smoothing_fits, distance_fits, doubled, grid_map, mass_center, value_at, CitySimulationScanner,
};
use parameters::MAX_ROAD_EFFECT;
use sprites::{
    generate_train, TRAIN_GROOVE_X, TRAIN_GROOVE_Y, active_sprite_fits, generate_copter, generate_plane, generate_ship, pixel_of, ship_map_fits,
    ship_search, sprite_made, tile_fits,
};
use statistics::SimulationStatistics;
use taxes::SimulationTaxes;

verus! {

pub const CENSUS_MONTHLY_FREQUENCY: u32 = 4;

pub const CENSUS_YEARLY_FREQUENCY: u32 = 48;

pub const TAX_FREQUENCY: u32 = 48;

/// The grid after writing, at the position, the tile of the given raw value.
pub open spec fn put_raw(
    cells: Seq<Seq<Tile>>,
    strategy: MapClusteringStrategy,
    p: MapPosition,
    raw: u16,
) -> Seq<Seq<Tile>> {
    write_cell(cells, strategy, p, Tile::of_raw(raw))
}

/// The position at the given offset.
pub open spec fn offset_of(p: MapPosition, dx: int, dy: int) -> MapPosition {
    MapPosition { x: (p.x + dx) as i32, y: (p.y + dy) as i32 }
}

/// Positions around which a zone (up to 6 by 6 tiles) can be handled.
pub open spec fn zone_fits(p: MapPosition) -> bool {
    -0x4000_0000 <= p.x <= 0x4000_0000 && -0x4000_0000 <= p.y <= 0x4000_0000
}

/// Repairing one tile of a zone: a tile that is neither a zone center nor
/// animated, and is not rubble or water, gets the raw value (made conductive
/// and burnable).
pub open spec fn repair_step(
    cells: Seq<Seq<Tile>>,
    strategy: MapClusteringStrategy,
    p: MapPosition,
    raw: u16,
) -> Seq<Seq<Tile>> {
    match grid_value_at(cells, strategy, p) {
        None => cells,
        Some(t) => if t.raw() & 0x0400u16 != 0 || t.raw() & 0x0800u16 != 0 {
            cells
        } else if type_bits(t.raw()) < 44 || type_bits(t.raw()) >= 64 {
            put_raw(cells, strategy, p, raw | 0x6000u16)
        } else {
            cells
        },
    }
}

/// Repairing the first `n` tiles of row `y` (relative to the zone center,
/// from column -1), the raw value going up by one at each tile: the cells
/// reached and the last raw value.
pub open spec fn repair_row(
    cells: Seq<Seq<Tile>>,
    strategy: MapClusteringStrategy,
    at: MapPosition,
    y: int,
    raw: int,
    n: int,
) -> (Seq<Seq<Tile>>, int)
    decreases n,
{
    if n <= 0 {
        (cells, raw)
    } else {
        let (c, r) = repair_row(cells, strategy, at, y, raw, n - 1);
        (repair_step(c, strategy, offset_of(at, n - 2, y), (r + 1) as u16), r + 1)
    }
}

/// Repairing the first `rows` rows of a zone of the given size.
pub open spec fn repair_rows(
    cells: Seq<Seq<Tile>>,
    strategy: MapClusteringStrategy,
    at: MapPosition,
    raw: int,
    size: int,
    rows: int,
) -> (Seq<Seq<Tile>>, int)
    decreases rows,
{
    if rows <= 0 {
        (cells, raw)
    } else {
        let (c, r) = repair_rows(cells, strategy, at, raw, size, rows - 1);
        repair_row(c, strategy, at, rows - 2, r, size)
    }
}

/// The grid after repairing the zone of the given size and center type at `at`.
pub open spec fn repaired(
    cells: Seq<Seq<Tile>>,
    strategy: MapClusteringStrategy,
    at: MapPosition,
    center: TileType,
    size: int,
) -> Seq<Seq<Tile>> {
    repair_rows(cells, strategy, at, center.code() - 2 - size, size, size).0
}

/// The grid after drawing the four coal smoke tiles of a power plant.
pub open spec fn smoked(cells: Seq<Seq<Tile>>, strategy: MapClusteringStrategy, at: MapPosition) -> Seq<
    Seq<Tile>,
> {
    let c1 = put_raw(cells, strategy, offset_of(at, 1, -1), 916u16 | 0xE800u16);
    let c2 = put_raw(c1, strategy, offset_of(at, 2, -1), 920u16 | 0xE800u16);
    let c3 = put_raw(c2, strategy, offset_of(at, 1, 0), 924u16 | 0xE800u16);
    put_raw(c3, strategy, offset_of(at, 2, 0), 928u16 | 0xE800u16)
}

/// Drawing the first `n` tiles of row `y` of a stadium, from column `x0`:
/// each must exist and gets the next raw value (burnable and conductive).
/// The cells reached, the next raw value, and whether all tiles existed.
pub open spec fn stadium_row(
    cells: Seq<Seq<Tile>>,
    strategy: MapClusteringStrategy,
    x0: int,
    y: int,
    value: int,
    n: int,
) -> (Seq<Seq<Tile>>, int, bool)
    decreases n,
{
    if n <= 0 {
        (cells, value, true)
    } else {
        let (c, v, ok) = stadium_row(cells, strategy, x0, y, value, n - 1);
        let p = MapPosition { x: (x0 + n - 1) as i32, y: y as i32 };
        if !ok {
            (c, v, ok)
        } else if grid_value_at(c, strategy, p) is None {
            (c, v, false)
        } else {
            (put_raw(c, strategy, p, (v as u16) | 0x6000u16), v + 1, true)
        }
    }
}

/// Drawing the first `rows` rows of a stadium centered at `center`.
pub open spec fn stadium_rows(
    cells: Seq<Seq<Tile>>,
    strategy: MapClusteringStrategy,
    center: MapPosition,
    value: int,
    rows: int,
) -> (Seq<Seq<Tile>>, int, bool)
    decreases rows,
{
    if rows <= 0 {
        (cells, value, true)
    } else {
        let (c, v, ok) = stadium_rows(cells, strategy, center, value, rows - 1);
        if !ok {
            (c, v, ok)
        } else {
            stadium_row(c, strategy, center.x - 1, center.y - 1 + rows - 1, v, 4)
        }
    }
}

/// Drawing a stadium: the center tile gets the zone and power bits, then the
/// 4 by 4 tiles from the north-west neighbour of the center get the raw values
/// from `base - 5` on. The cells reached and whether all tiles existed.
pub open spec fn stadium_drawn(
    cells: Seq<Seq<Tile>>,
    strategy: MapClusteringStrategy,
    center: MapPosition,
    base: TileType,
) -> (Seq<Seq<Tile>>, bool) {
    match grid_value_at(cells, strategy, center) {
        None => (cells, false),
        Some(t) => {
            let c0 = put_raw(cells, strategy, center, t.raw() | 0x8400u16);
            let (c, v, ok) = stadium_rows(c0, strategy, center, base.code() - 5, 4);
            (c, ok)
        },
    }
}

/// Once a tile of a stadium row is missing, the row stops there.
proof fn lemma_stadium_row_stuck(
    cells: Seq<Seq<Tile>>,
    strategy: MapClusteringStrategy,
    x0: int,
    y: int,
    value: int,
    k: int,
    n: int,
)
    requires
        0 <= k <= n,
        !stadium_row(cells, strategy, x0, y, value, k).2,
    ensures
        stadium_row(cells, strategy, x0, y, value, n) == stadium_row(cells, strategy, x0, y, value, k),
    decreases n - k,
{
    if k < n {
        lemma_stadium_row_stuck(cells, strategy, x0, y, value, k, n - 1);
    }
}

/// Once a tile of a stadium is missing, the drawing stops there.
proof fn lemma_stadium_rows_stuck(
    cells: Seq<Seq<Tile>>,
    strategy: MapClusteringStrategy,
    center: MapPosition,
    value: int,
    k: int,
    n: int,
)
    requires
        0 <= k <= n,
        !stadium_rows(cells, strategy, center, value, k).2,
    ensures
        stadium_rows(cells, strategy, center, value, n) == stadium_rows(cells, strategy, center, value, k),
    decreases n - k,
{
    if k < n {
        lemma_stadium_rows_stuck(cells, strategy, center, value, k, n - 1);
    }
}

/// Chance (one in this plus one) of a meltdown of a nuclear plant at each
/// difficulty level.
pub open spec fn meltdown_range(difficulty: GameLevelDifficulty) -> int {
    match difficulty {
        GameLevelDifficulty::Easy => 30000,
        GameLevelDifficulty::Normal => 20000,
        GameLevelDifficulty::Hard => 10000,
    }
}

/// Road found around a station zone, as `find_perimeter_road` tells: the
/// position it gives.
pub open spec fn station_road(
    cells: Seq<Seq<Tile>>,
    strategy: MapClusteringStrategy,
    at: MapPosition,
) -> (bool, MapPosition) {
    perimeter_from(cells, strategy, at, 0)
}

/// Effect a station adds to its map: the funding effect (halved when
/// unpowered, read as a 16-bit value), halved again (rounding towards zero)
/// without a road.
pub open spec fn station_strength(effect: u64, powered: bool, road_found: bool) -> int {
    let z = (effect / (if powered {
        1u64
    } else {
        2u64
    })) as i16;
    if road_found {
        z as int
    } else if z >= 0 {
        z / 2
    } else {
        -((-z) / 2)
    }
}

/// Value of a station map at the road of a station zone, plus the station's
/// strength; `None` when the station map has no value there.
pub open spec fn station_sum(
    station: WorldMap<i16>,
    cells: Seq<Seq<Tile>>,
    strategy: MapClusteringStrategy,
    at: MapPosition,
    effect: u64,
    powered: bool,
) -> Option<int> {
    let (found, road) = station_road(cells, strategy, at);
    match station.tile_at(road) {
        Some(v) => Some(v + station_strength(effect, powered, found)),
        None => None,
    }
}

/// The grid of a station zone after its repair, when it is due.
pub open spec fn station_repaired(
    cells: Seq<Seq<Tile>>,
    strategy: MapClusteringStrategy,
    at: MapPosition,
    time: u64,
    kind: TileType,
) -> Seq<Seq<Tile>> {
    if time % 8 == 0 {
        repaired(cells, strategy, at, kind, 3)
    } else {
        cells
    }
}

/// The sum of the city time and the coordinates that starts and stops games
/// at a stadium.
pub open spec fn stadium_clock(time: u64, at: MapPosition) -> int {
    (time as i32) + at.x + at.y
}

/// Can the stadium clock be computed on 32-bit integers?
pub open spec fn stadium_clock_fits(time: u64, at: MapPosition) -> bool {
    fits_i32((time as i32) + at.x) && fits_i32(stadium_clock(time, at))
}

/// The grid after a game starts at a stadium, when all its tiles exist.
pub open spec fn game_started(
    cells: Seq<Seq<Tile>>,
    strategy: MapClusteringStrategy,
    at: MapPosition,
) -> (Seq<Seq<Tile>>, bool) {
    let (c, ok) = stadium_drawn(cells, strategy, at, TileType::FullStadium);
    if ok {
        let c1 = put_raw(c, strategy, offset_of(at, 1, 0), (932 + 0x0800) as u16);
        (put_raw(c1, strategy, offset_of(at, 1, 1), (940 + 0x0800) as u16), true)
    } else {
        (c, false)
    }
}

/// The radar tile of an airport after an update: turning when powered (a
/// still radar starts turning), still otherwise.
pub open spec fn radar_raw(current: u16, powered: bool) -> Option<u16> {
    if powered {
        if type_bits(current) == 711 {
            Some((832 + 0x0800 + 0x4000 + 0x2000) as u16)
        } else {
            None
        }
    } else {
        Some((711 + 0x4000 + 0x2000) as u16)
    }
}

/// What the activity of a powered airport does to the sprites, with the
/// generator state after its draws: one time in six an airplane is ensured,
/// else one time in thirteen a helicopter.
pub open spec fn airport_activity(
    before: Seq<Sprite>,
    after: Seq<Sprite>,
    rng_before: u64,
    rng_after: u64,
    at: MapPosition,
) -> bool {
    let r1 = lcg_next(rng_before);
    if trunc_rem(draw_bits(r1), 6) == 0 {
        &&& rng_after == r1
        &&& first_active(before, SpriteType::Airplane) is Some ==> after == before
        &&& first_active(before, SpriteType::Airplane) is None ==> sprite_made(
            before,
            after,
            SpriteType::Airplane,
            pixel_of(at, 48, 12),
        )
    } else {
        let r2 = lcg_next(r1);
        if trunc_rem(draw_bits(r2), 13) == 0 {
            &&& first_active(before, SpriteType::Helicopter) is Some ==> after == before
                && rng_after == r2
            &&& first_active(before, SpriteType::Helicopter) is None ==> sprite_made(
                before,
                after,
                SpriteType::Helicopter,
                pixel_of(at, 0, 30),
            )
        } else {
            after == before && rng_after == r2
        }
    }
}

/// Type of the tile at a position: `None` when there is no tile, `Some(None)`
/// when its type bits name no type.
pub open spec fn special_kind(map: TileMap, at: MapPosition) -> Option<Option<TileType>> {
    match map.tile_at(at) {
        Some(t) => Some(tile_type_of(type_bits(t.raw()) as int)),
        None => None,
    }
}

/// Offsets of the neighbours a fire spreads to: west, north, east, south.
pub open spec fn fire_offset(z: int) -> (int, int) {
    if z == 0 {
        (-1, 0)
    } else if z == 1 {
        (0, -1)
    } else if z == 2 {
        (1, 0)
    } else {
        (0, 1)
    }
}

/// Making a tile of a burning zone bulldozable: a tile of type 64 or more
/// gets the bulldozable bit.
pub open spec fn mark_step(cells: Seq<Seq<Tile>>, strategy: MapClusteringStrategy, p: MapPosition) -> Seq<
    Seq<Tile>,
> {
    match grid_value_at(cells, strategy, p) {
        Some(t) => if type_bits(t.raw()) >= 64 {
            put_raw(cells, strategy, p, t.raw() | 0x1000u16)
        } else {
            cells
        },
        None => cells,
    }
}

/// Marking the first `n` tiles of column `x` of a burning zone (relative to
/// `at`, from row -1).
pub open spec fn mark_column(
    cells: Seq<Seq<Tile>>,
    strategy: MapClusteringStrategy,
    at: MapPosition,
    x: int,
    n: int,
) -> Seq<Seq<Tile>>
    decreases n,
{
    if n <= 0 {
        cells
    } else {
        mark_step(mark_column(cells, strategy, at, x, n - 1), strategy, offset_of(at, x, n - 2))
    }
}

/// Marking the first `n` columns (from column -1) of the square of the
/// given side from one tile before `at`.
pub open spec fn mark_columns(
    cells: Seq<Seq<Tile>>,
    strategy: MapClusteringStrategy,
    at: MapPosition,
    side: int,
    n: int,
) -> Seq<Seq<Tile>>
    decreases n,
{
    if n <= 0 {
        cells
    } else {
        mark_column(mark_columns(cells, strategy, at, side, n - 1), strategy, at, n - 2, side)
    }
}

/// Side of the square of a burning zone, from the type of its center:
/// 3 below the ports, 6 for an airport, 5 otherwise.
pub open spec fn burning_side(low: int) -> int {
    if low < 693 {
        3
    } else if low == 716 {
        6
    } else {
        5
    }
}

/// A rate of growth lowered by 20, within -200 and 200.
pub open spec fn lowered_growth(g: int) -> i16 {
    (if g - 20 < -200 {
        -200
    } else if g - 20 > 200 {
        200
    } else {
        g - 20
    }) as i16
}

/// Are all the values of the grid within -200 and 200?
pub open spec fn growth_bounded(cells: Seq<Seq<i16>>) -> bool {
    forall|i: int, j: int|
        0 <= i < cells.len() && 0 <= j < cells[i].len() ==> -200 <= #[trigger] cells[i][j] <= 200
}

/// Writing a value within -200 and 200 keeps the grid within them.
proof fn lemma_growth_write(cells: Seq<Seq<i16>>, strategy: MapClusteringStrategy, p: MapPosition, v: i16)
    requires
        growth_bounded(cells),
        -200 <= v <= 200,
    ensures
        growth_bounded(write_cell(cells, strategy, p, v)),
{
    let w = write_cell(cells, strategy, p, v);
    let b = strategy.block_of(p);
    assert forall|i: int, j: int| 0 <= i < w.len() && 0 <= j < w[i].len() implies -200 <= #[trigger] w[i][j]
        <= 200 by {
        if cell_exists(cells, strategy, p) && i == b.x && j != b.y {
            assert(w[i][j] == cells[i][j]);
        }
    }
}

/// What a fire spreading changes: the tiles, the generator state, the
/// rates of growth, and the positions of the explosions it sets off.
pub struct FireState {
    pub cells: Seq<Seq<Tile>>,
    pub rng: u64,
    pub growth: Seq<Seq<i16>>,
    pub explosions: Seq<MapPosition>,
}

/// A fire at `at` trying its neighbour number `k` (west, north, east,
/// south): one time in eight, when burnable, it catches fire; a burnable
/// zone neighbour first sets the zone of `at` on fire (which fails when `at`
/// has no rate of growth), and explodes when it is an industrial zone or
/// more. `None` on a failure.
pub open spec fn fire_step(
    prev: FireState,
    strategy: MapClusteringStrategy,
    growth_strategy: MapClusteringStrategy,
    at: MapPosition,
    k: int,
) -> Option<FireState> {
    let r1 = lcg_next(prev.rng);
    let skipped = FireState { rng: r1, ..prev };
    if random16_at(r1) % 8 != 0 {
        Some(skipped)
    } else {
        let (dx, dy) = fire_offset(k);
        let p = offset_of(at, dx, dy);
        match grid_value_at(prev.cells, strategy, p) {
            None => Some(skipped),
            Some(t) => if t.raw() & 0x2000u16 == 0 {
                Some(skipped)
            } else {
                let zoned = if t.raw() & 0x0400u16 != 0 {
                    match grid_value_at(prev.growth, growth_strategy, at) {
                        None => None,
                        Some(g) => {
                            let low = type_bits(t.raw()) as int;
                            Some(
                                FireState {
                                    cells: mark_columns(
                                        prev.cells,
                                        strategy,
                                        at,
                                        burning_side(low),
                                        burning_side(low),
                                    ),
                                    rng: r1,
                                    growth: write_cell(
                                        prev.growth,
                                        growth_strategy,
                                        at,
                                        lowered_growth(g as int),
                                    ),
                                    explosions: if low > 625 {
                                        prev.explosions.push(pixel_of(p, 8, 8))
                                    } else {
                                        prev.explosions
                                    },
                                },
                            )
                        },
                    }
                } else {
                    Some(skipped)
                };
                match zoned {
                    None => None,
                    Some(z) => {
                        let r2 = lcg_next(z.rng);
                        Some(
                            FireState {
                                cells: put_raw(z.cells, strategy, p, fire_raw(random16_at(r2))),
                                rng: r2,
                                ..z
                            },
                        )
                    },
                }
            },
        }
    }
}

/// A fire at `at` trying its first `n` neighbours in turn (see `fire_step`).
pub open spec fn fire_spread(
    s: FireState,
    strategy: MapClusteringStrategy,
    growth_strategy: MapClusteringStrategy,
    at: MapPosition,
    n: int,
) -> Option<FireState>
    decreases n,
{
    if n <= 0 {
        Some(s)
    } else {
        match fire_spread(s, strategy, growth_strategy, at, n - 1) {
            None => None,
            Some(prev) => fire_step(prev, strategy, growth_strategy, at, n - 1),
        }
    }
}

/// Odds (one in the result plus one) that a fire goes out, from the fire
/// control of its area.
pub open spec fn fire_out_rate(z: int) -> int {
    if 0 <= z <= 19 {
        3
    } else if 20 <= z <= 99 {
        2
    } else if z > 100 {
        1
    } else {
        10
    }
}

/// Do the new sprites, after the old ones, hold explosions at the positions
/// (moved to the top-left of the sprite)?
pub open spec fn explosions_added(before: Seq<Sprite>, after: Seq<Sprite>, positions: Seq<MapPosition>) -> bool {
    &&& after.len() == before.len() + positions.len()
    &&& after.subrange(0, before.len() as int) == before
    &&& forall|i: int|
        0 <= i < positions.len() ==> {
            &&& (#[trigger] after[before.len() + i]).kind == SpriteType::Explosion
            &&& after[before.len() + i].position == offset_of(positions[i], -40, -16)
        }
}

/// Explosions added in two rounds are added in one.
proof fn lemma_explosions_chain(
    a: Seq<Sprite>,
    b: Seq<Sprite>,
    c: Seq<Sprite>,
    e1: Seq<MapPosition>,
    e2: Seq<MapPosition>,
)
    requires
        explosions_added(a, b, e1),
        explosions_added(b, c, e2),
    ensures
        explosions_added(a, c, e1 + e2),
{
    let e = e1 + e2;
    assert(c.subrange(0, a.len() as int) =~= a) by {
        assert(c.subrange(0, b.len() as int) == b);
        assert forall|i: int| 0 <= i < a.len() implies c.subrange(0, a.len() as int)[i] == a[i] by {
            assert(c[i] == c.subrange(0, b.len() as int)[i]);
            assert(b[i] == b.subrange(0, a.len() as int)[i]);
        }
    }
    assert forall|i: int| 0 <= i < e.len() implies {
        &&& (#[trigger] c[a.len() + i]).kind == SpriteType::Explosion
        &&& c[a.len() + i].position == offset_of(e[i], -40, -16)
    } by {
        if i < e1.len() {
            assert(c[a.len() + i] == c.subrange(0, b.len() as int)[a.len() + i]);
            assert(b[a.len() + i].kind == SpriteType::Explosion);
        } else {
            let j = i - e1.len();
            assert(c[b.len() + j].kind == SpriteType::Explosion);
        }
    }
}

/// Once the fire fails, trying more neighbours fails too.
proof fn lemma_fire_stuck(
    s: FireState,
    strategy: MapClusteringStrategy,
    growth_strategy: MapClusteringStrategy,
    at: MapPosition,
    k: int,
    n: int,
)
    requires
        k <= n,
        fire_spread(s, strategy, growth_strategy, at, k) is None,
    ensures
        fire_spread(s, strategy, growth_strategy, at, n) is None,
    decreases n - k,
{
    if k < n {
        lemma_fire_stuck(s, strategy, growth_strategy, at, k, n - 1);
    }
}

/// A rail tile wearing out while the road effect is below 30: unless the
/// first draw is a multiple of 512, a conductive tile (which must be there)
/// whose road effect is below the second draw modulo 32 becomes river
/// (below the underwater rails) or rubble (third draw). `None` when the
/// tile is missing; otherwise the cells and the generator state reached.
pub open spec fn rail_decay(
    cells: Seq<Seq<Tile>>,
    strategy: MapClusteringStrategy,
    p: MapPosition,
    state: u64,
    road_effect: int,
) -> Option<(Seq<Seq<Tile>>, u64)> {
    if road_effect >= 30 {
        Some((cells, state))
    } else {
        let r1 = lcg_next(state);
        if random16_at(r1) % 512 == 0 {
            Some((cells, r1))
        } else {
            match grid_value_at(cells, strategy, p) {
                None => None,
                Some(t) => if t.raw() & 0x4000u16 == 0 {
                    Some((cells, r1))
                } else {
                    let r2 = lcg_next(r1);
                    if road_effect < random16_at(r2) % 32 {
                        if type_bits(t.raw()) < 224 {
                            Some((put_raw(cells, strategy, p, 2), r2))
                        } else {
                            let r3 = lcg_next(r2);
                            Some((put_raw(cells, strategy, p, rubble_raw(random16_at(r3))), r3))
                        }
                    } else {
                        Some((cells, r2))
                    }
                },
            }
        }
    }
}

/// Generator state after trying to start a train (see `generate_train`).
pub open spec fn train_state(state: u64, sprites: Seq<Sprite>, total_population: u32) -> u64 {
    if total_population <= 20 || first_active(sprites, SpriteType::Train) is Some {
        state
    } else {
        lcg_next(state)
    }
}

/// A rate of growth moving one step towards zero, within -200 and 200.
pub open spec fn growth_decay(v: i16) -> i16 {
    let w: int = if v > 0 {
        v - 1
    } else if v < 0 {
        v + 1
    } else {
        v as int
    };
    (if w < -200 {
        -200
    } else if w > 200 {
        200
    } else {
        w
    }) as i16
}

/// Traffic fading: a density above 200 loses 34, one above 24 loses 24.
pub open spec fn traffic_decay(z: u8) -> u8 {
    if z == 0 || z <= 24 {
        z
    } else if z > 200 {
        (z - 34) as u8
    } else {
        (z - 24) as u8
    }
}

/// Does every position of the first `w` columns and `h` rows (times the
/// stride) have a value in the grid?
pub open spec fn covers_positions<T>(
    cells: Seq<Seq<T>>,
    strategy: MapClusteringStrategy,
    stride: int,
    w: int,
    h: int,
) -> bool {
    forall|x: int, y: int|
        0 <= x < w && 0 <= y < h ==> #[trigger] grid_value_at(
            cells,
            strategy,
            MapPosition { x: (x * stride) as i32, y: (y * stride) as i32 },
        ) is Some
}

/// A whole fire at `at`: it spreads (see `fire_spread`), then, with odds
/// depending on the fire control of its area, goes out and leaves rubble.
/// `None` on a failure.
pub open spec fn fire_result(
    start: FireState,
    strategy: MapClusteringStrategy,
    growth_strategy: MapClusteringStrategy,
    stations: WorldMap<i16>,
    at: MapPosition,
) -> Option<FireState> {
    match fire_spread(start, strategy, growth_strategy, at, 4) {
        None => None,
        Some(f) => match grid_value_at(stations.cells(), stations.strategy(), at) {
            None => None,
            Some(z) => {
                let r3 = lcg_next(f.rng);
                if trunc_rem(draw_bits(r3), fire_out_rate(z as int) + 1) == 0 {
                    match grid_value_at(f.cells, strategy, at) {
                        None => None,
                        Some(_) => {
                            let r4 = lcg_next(r3);
                            Some(
                                FireState {
                                    cells: put_raw(f.cells, strategy, at, rubble_raw(random16_at(r4))),
                                    rng: r4,
                                    ..f
                                },
                            )
                        },
                    }
                } else {
                    Some(FireState { rng: r3, ..f })
                }
            },
        },
    }
}

/// What scanning the map changes: the tiles, the generator state, the rates
/// of growth, the explosions set off, and the count of fires.
pub struct ScanState {
    pub cells: Seq<Seq<Tile>>,
    pub rng: u64,
    pub growth: Seq<Seq<i16>>,
    pub explosions: Seq<MapPosition>,
    pub fires: int,
}

/// Where a scan is: going on, failed (an error), or aborted at an input on
/// which the scan cannot go on (a missing tile, a count of fires beyond 16
/// bits, or a flood drawing a negative tile offset).
pub enum ScanOutcome {
    Running(ScanState),
    Failed,
    Aborted,
}

/// Scanning the tile at `p`: a fire (types 56 to 63) counts, and one time in
/// four burns (see `fire_result`); a flood (48 to 51) spreads while the
/// city floods (see `flood_spread`); radioactivity (52 to 55) decays (one
/// time in 4096 it becomes dirt); other tiles stay. A tile of no type
/// fails; a missing tile aborts.
pub open spec fn scan_tile(
    s: ScanState,
    strategy: MapClusteringStrategy,
    growth_strategy: MapClusteringStrategy,
    stations: WorldMap<i16>,
    flooding: bool,
    p: MapPosition,
) -> ScanOutcome {
    match grid_value_at(s.cells, strategy, p) {
        None => ScanOutcome::Aborted,
        Some(t) => match t.kind() {
            None => ScanOutcome::Failed,
            Some(k) => if k == TileType::Invalid {
                ScanOutcome::Failed
            } else {
                let c = k.code();
                if c < 48 || c >= 64 {
                    ScanOutcome::Running(s)
                } else if c >= 56 {
                    if s.fires + 1 > u16::MAX {
                        ScanOutcome::Aborted
                    } else {
                        let r1 = lcg_next(s.rng);
                        let counted = ScanState { fires: s.fires + 1, rng: r1, ..s };
                        if random16_at(r1) % 4 != 0 {
                            ScanOutcome::Running(counted)
                        } else {
                            match fire_result(
                                FireState { cells: s.cells, rng: r1, growth: s.growth, explosions: Seq::empty() },
                                strategy,
                                growth_strategy,
                                stations,
                                p,
                            ) {
                                None => ScanOutcome::Failed,
                                Some(f) => ScanOutcome::Running(
                                    ScanState {
                                        cells: f.cells,
                                        rng: f.rng,
                                        growth: f.growth,
                                        explosions: s.explosions + f.explosions,
                                        ..counted
                                    },
                                ),
                            }
                        }
                    }
                } else if c < 52 {
                    if flooding {
                        let fl = flood_spread(
                            FloodState { cells: s.cells, rng: s.rng, ok: true },
                            strategy,
                            p,
                            4,
                        );
                        if fl.ok {
                            ScanOutcome::Running(ScanState { cells: fl.cells, rng: fl.rng, ..s })
                        } else {
                            ScanOutcome::Aborted
                        }
                    } else {
                        ScanOutcome::Running(s)
                    }
                } else {
                    let r1 = lcg_next(s.rng);
                    ScanOutcome::Running(
                        ScanState {
                            cells: if random16_at(r1) % 4096 == 0 {
                                write_cell(s.cells, strategy, p, Tile::of_raw(0))
                            } else {
                                s.cells
                            },
                            rng: r1,
                            ..s
                        },
                    )
                }
            }
        },
    }
}

/// Scanning the first `n` tiles of column `x`, from the top.
pub open spec fn scan_column(
    o: ScanOutcome,
    strategy: MapClusteringStrategy,
    growth_strategy: MapClusteringStrategy,
    stations: WorldMap<i16>,
    flooding: bool,
    x: int,
    n: int,
) -> ScanOutcome
    decreases n,
{
    if n <= 0 {
        o
    } else {
        match scan_column(o, strategy, growth_strategy, stations, flooding, x, n - 1) {
            ScanOutcome::Running(s) => scan_tile(
                s,
                strategy,
                growth_strategy,
                stations,
                flooding,
                MapPosition { x: x as i32, y: (n - 1) as i32 },
            ),
            other => other,
        }
    }
}

/// Scanning the `n` columns from `x1`, each over `h` rows.
pub open spec fn scan_columns(
    o: ScanOutcome,
    strategy: MapClusteringStrategy,
    growth_strategy: MapClusteringStrategy,
    stations: WorldMap<i16>,
    flooding: bool,
    x1: int,
    n: int,
    h: int,
) -> ScanOutcome
    decreases n,
{
    if n <= 0 {
        o
    } else {
        scan_column(
            scan_columns(o, strategy, growth_strategy, stations, flooding, x1, n - 1, h),
            strategy,
            growth_strategy,
            stations,
            flooding,
            x1 + n - 1,
            h,
        )
    }
}

/// A scan that aborts stays aborted.
proof fn lemma_scan_column_aborted(
    o: ScanOutcome,
    strategy: MapClusteringStrategy,
    growth_strategy: MapClusteringStrategy,
    stations: WorldMap<i16>,
    flooding: bool,
    x: int,
    k: int,
    n: int,
)
    requires
        k <= n,
        scan_column(o, strategy, growth_strategy, stations, flooding, x, k) is Aborted,
    ensures
        scan_column(o, strategy, growth_strategy, stations, flooding, x, n) is Aborted,
    decreases n - k,
{
    if k < n {
        lemma_scan_column_aborted(o, strategy, growth_strategy, stations, flooding, x, k, n - 1);
    }
}

proof fn lemma_scan_column_failed(
    o: ScanOutcome,
    strategy: MapClusteringStrategy,
    growth_strategy: MapClusteringStrategy,
    stations: WorldMap<i16>,
    flooding: bool,
    x: int,
    k: int,
    n: int,
)
    requires
        k <= n,
        scan_column(o, strategy, growth_strategy, stations, flooding, x, k) is Failed,
    ensures
        scan_column(o, strategy, growth_strategy, stations, flooding, x, n) is Failed,
    decreases n - k,
{
    if k < n {
        lemma_scan_column_failed(o, strategy, growth_strategy, stations, flooding, x, k, n - 1);
    }
}

proof fn lemma_scan_column_from(
    o: ScanOutcome,
    strategy: MapClusteringStrategy,
    growth_strategy: MapClusteringStrategy,
    stations: WorldMap<i16>,
    flooding: bool,
    x: int,
    n: int,
)
    requires
        !(o is Running),
    ensures
        scan_column(o, strategy, growth_strategy, stations, flooding, x, n) == o,
    decreases n,
{
    if n > 0 {
        lemma_scan_column_from(o, strategy, growth_strategy, stations, flooding, x, n - 1);
    }
}

proof fn lemma_scan_columns_stuck(
    o: ScanOutcome,
    strategy: MapClusteringStrategy,
    growth_strategy: MapClusteringStrategy,
    stations: WorldMap<i16>,
    flooding: bool,
    x1: int,
    k: int,
    n: int,
    h: int,
)
    requires
        k <= n,
        !(scan_columns(o, strategy, growth_strategy, stations, flooding, x1, k, h) is Running),
    ensures
        scan_columns(o, strategy, growth_strategy, stations, flooding, x1, n, h) == scan_columns(
            o,
            strategy,
            growth_strategy,
            stations,
            flooding,
            x1,
            k,
            h,
        ),
    decreases n - k,
{
    if k < n {
        lemma_scan_columns_stuck(o, strategy, growth_strategy, stations, flooding, x1, k, n - 1, h);
        lemma_scan_column_from(
            scan_columns(o, strategy, growth_strategy, stations, flooding, x1, n - 1, h),
            strategy,
            growth_strategy,
            stations,
            flooding,
            x1 + n - 1,
            h,
        );
    }
}

pub struct Simulation {
    scanner: CitySimulationScanner,
    parameters: SimulationParameters,
    statistics: SimulationStatistics,
    census: CitySimulationCensus,
    taxes: SimulationTaxes,
    speed: GameSpeed,
    speed_cycle: u16,
    phase_cycle: u8,
    simulation_cycle: u16,
    do_initial_evaluation: bool,
    new_power: bool,
    /// Number of passes through the simulator loop.
    passes: u32,
    /// Current simulator loop pass counter.
    pass_index: usize,
    /// Incremented every time the map changes.
    map_serial: u32,
    /// City time unit counter, increnented once every 16 runs through
    /// the simulator (at fast speed). A time unit is 7.6 days. 4 units
    /// per month, 48 units per year, relative to #startingYear
    ///
    /// Four units per month, so one unit is about a week (7.6 days).
    city_time: u64,
    /// Coordinates of the city center.
    city_center: MapPosition,
    /// Pollution density map.
    pollution_density: WorldMap<u8>,
    /// Land value map.
    land_value_map: WorldMap<u8>,
    /// Crime rate map.
    crime_rate_map: WorldMap<u8>,
    /// Terrain development density map.
    ///
    /// Used to calculate land value.
    terrain_density: WorldMap<u8>,
    /// Rate of growth map.
    ///
    /// Affected by DecROGMem, incROG called by zones. Decreased by fire
    /// explosions from sprites, fire spreading. Doesn't seem to
    /// actually feed back into the simulation. Output only.
    rate_of_growth: WorldMap<i16>,
    /// Fire station map.
    ///
    /// Effectivity of fire control in each area.
    /// Affected by fire stations (powered or not), fire funding ratio and road access.
    /// Affects how long fires burn.
    fire_station_map: WorldMap<i16>,
    /// Copy of fire station map to display.
    fire_station_effect_map: WorldMap<i16>,
    /// Police station map.
    ///
    /// Effectivity of police in fighting crime.
    /// Affected by police stations (powered or not), police funding ratio and road access.
    /// Affects crime rate.
    police_station_map: WorldMap<i16>,
    /// Copy of police station map to display.
    police_station_effect_map: WorldMap<i16>,
    /// Commercial rate map.
    ///
    /// Depends on distance to city center.
    /// Affects commercial zone evaluation.
    commercial_rate_map: WorldMap<i16>,
}

/// A map of `width / block` columns of `height / block` zeros, by blocks of the strategy.
fn zero_map<T: Copy>(
    dimensions: &MapRectangle,
    zero: T,
    strategy: MapClusteringStrategy,
) -> (r: WorldMap<T>)
    ensures
        r.cells() == uniform_cells(
            (dimensions.width as int / strategy.size()) as nat,
            (dimensions.height as int / strategy.size()) as nat,
            zero,
        ),
        r.strategy() == strategy,
{
    let block = strategy.block_size();
    WorldMap::filled(dimensions.get_width() / block, dimensions.get_height() / block, zero, strategy)
}

impl Simulation {
    /// Simulation time, in city time units.
    pub closed spec fn time(&self) -> u64 {
        self.city_time
    }

    /// Current pass of the simulator loop.
    pub closed spec fn pass(&self) -> usize {
        self.pass_index
    }

    /// Serial number of the map, incremented at each change.
    pub closed spec fn serial(&self) -> u32 {
        self.map_serial
    }

    /// Statistics of the last map scan.
    pub closed spec fn stats(&self) -> SimulationStatistics {
        self.statistics
    }

    /// Phase of the simulator (0 to 15).
    pub closed spec fn phase(&self) -> u8 {
        self.phase_cycle
    }

    pub fn new(map: &TileMap) -> (r: Self)
        ensures
            r.time() == 0,
            r.pass() == 0,
            r.serial() == 1,
            r.phase() == 0,
            r.stats() == statistics::zero_statistics(),
    {
        let dimensions = map.bounds();
        let scanner = CitySimulationScanner::new(map);
        Self {
            scanner,
            parameters: SimulationParameters::default(),
            statistics: SimulationStatistics::default(),
            census: CitySimulationCensus::new(),
            taxes: SimulationTaxes::default(),
            speed: GameSpeed::from(GameSpeedPreset::Normal),
            speed_cycle: 0,
            phase_cycle: 0,
            simulation_cycle: 0,
            do_initial_evaluation: true,
            new_power: false,
            passes: 0,
            pass_index: 0,
            map_serial: 1,
            city_time: 0,
            city_center: MapPosition::new(0, 0),
            pollution_density: zero_map(&dimensions, 0u8, MapClusteringStrategy::BlockSize2),
            land_value_map: zero_map(&dimensions, 0u8, MapClusteringStrategy::BlockSize2),
            crime_rate_map: zero_map(&dimensions, 0u8, MapClusteringStrategy::BlockSize2),
            terrain_density: zero_map(&dimensions, 0u8, MapClusteringStrategy::BlockSize4),
            rate_of_growth: zero_map(&dimensions, 0i16, MapClusteringStrategy::BlockSize8),
            fire_station_map: zero_map(&dimensions, 0i16, MapClusteringStrategy::BlockSize8),
            fire_station_effect_map: zero_map(&dimensions, 0i16, MapClusteringStrategy::BlockSize8),
            police_station_map: zero_map(&dimensions, 0i16, MapClusteringStrategy::BlockSize8),
            police_station_effect_map: zero_map(
                &dimensions,
                0i16,
                MapClusteringStrategy::BlockSize8,
            ),
            commercial_rate_map: zero_map(&dimensions, 0i16, MapClusteringStrategy::BlockSize8),
        }
    }

    pub fn reset_pass_counter(&mut self)
        ensures
            final(self).pass() == 0,
            final(self).serial() == old(self).serial(),
            final(self).time() == old(self).time(),
            final(self).stats() == old(self).stats(),
            final(self).phase() == old(self).phase(),
    {
        self.pass_index = 0;
    }

    /// Note a change of the map.
    pub fn on_map_updated(&mut self)
        requires
            old(self).serial() < u32::MAX,
        ensures
            final(self).serial() == old(self).serial() + 1,
            final(self).pass() == old(self).pass(),
            final(self).time() == old(self).time(),
            final(self).stats() == old(self).stats(),
            final(self).phase() == old(self).phase(),
    {
        self.map_serial = self.map_serial + 1;
    }

    /// Repair the zone at the given position.
    ///
    /// - at: center-tile position of the zone
    /// - zone_center: type of the center-tile
    fn repair_zone(map: &mut TileMap, at: &MapPosition, zone_center: TileType, zone_size: u16) -> (r:
        Result<(), String>)
        requires
            zone_fits(*at),
            1 <= zone_size <= 6,
            zone_center.code() >= 2 + zone_size,
            zone_center.code() <= 1000,
        ensures
            r is Ok,
            final(map).cells() == repaired(
                old(map).cells(),
                old(map).strategy(),
                *at,
                zone_center,
                zone_size as int,
            ),
            final(map).strategy() == old(map).strategy(),
            same_shape(final(map).cells(), old(map).cells()),
    {
        let ghost strategy = map.strategy();
        let ghost start = map.cells();
        let ghost raw0 = zone_center.code() - 2 - zone_size;
        let mut tile_raw = zone_center.raw_value() - 2 - zone_size;
        let size = zone_size as i32;
        // y and x loops one position shifted to compensate for the center-tile position.
        let mut y: i32 = -1;
        while y < size - 1
            invariant
                -1 <= y <= size - 1,
                size == zone_size,
                1 <= zone_size <= 6,
                zone_fits(*at),
                raw0 == zone_center.code() - 2 - zone_size,
                zone_center.code() <= 1000,
                start == old(map).cells(),
                strategy == old(map).strategy(),
                map.strategy() == strategy,
                same_shape(map.cells(), old(map).cells()),
                ({
                    let (c, r) = repair_rows(start, strategy, *at, raw0, size as int, y + 1);
                    map.cells() == c && tile_raw == r && r == raw0 + (y + 1) * size
                }),
            decreases size - 1 - y,
        {
            let ghost row_start = map.cells();
            let ghost raw_start = tile_raw as int;
            let mut x: i32 = -1;
            while x < size - 1
                invariant
                    -1 <= x <= size - 1,
                    -1 <= y < size - 1,
                    size == zone_size,
                    1 <= zone_size <= 6,
                    zone_fits(*at),
                    zone_center.code() <= 1000,
                    raw_start == raw0 + (y + 1) * size,
                    raw0 == zone_center.code() - 2 - zone_size,
                    map.strategy() == strategy,
                    same_shape(map.cells(), old(map).cells()),
                    ({
                        let (c, r) = repair_row(row_start, strategy, *at, y as int, raw_start, x + 1);
                        map.cells() == c && tile_raw == r && r == raw_start + x + 1
                    }),
                decreases size - 1 - x,
            {
                proof {
                    assert(raw0 + (y + 1) * size + x + 2 <= 1000 + 36) by (nonlinear_arith)
                        requires
                            raw0 <= 1000,
                            -1 <= y < size - 1,
                            -1 <= x < size - 1,
                            size <= 6,
                    ;
                }
                let zone_position = MapPosition::new(at.x + x, at.y + y);
                tile_raw = tile_raw + 1;
                proof {
                    map.lemma_tile_at_cells(zone_position);
                }
                match map.get_tile_at(&zone_position) {
                    Some(zone_tile) => {
                        let zone_tile_raw = zone_tile.get_raw();
                        if zone_tile_raw & 0x0400 == 0x00 && zone_tile_raw & 0x0800 == 0x00 {
                            let low = zone_tile_raw & 0x03ff;
                            if low < 44 || low >= 64 {
                                let tile = Tile::from_raw(tile_raw | 0x4000 | 0x2000)?;
                                proof {
                                    Tile::lemma_of_raw(tile);
                                    lemma_u16_tile_bits(tile_raw);
                                    lemma_write_cell_shape(map.cells(), strategy, zone_position, tile);
                                }
                                map.set_tile_at(&zone_position, tile);
                            }
                        }
                    },
                    None => {},
                }
                x = x + 1;
            }
            proof {
                assert(raw_start + size == raw0 + (y + 2) * size) by (nonlinear_arith)
                    requires
                        raw_start == raw0 + (y + 1) * size,
                ;
            }
            y = y + 1;
        }
        Ok(())
    }

    /// Repair a fire or police station zone when due, and add its strength to
    /// the station map at its road.
    fn station_zone(
        station_map: &mut WorldMap<i16>,
        map: &mut TileMap,
        at: &MapPosition,
        kind: TileType,
        effect: u64,
        powered: bool,
        time: u64,
    ) -> (r: Result<(), String>)
        requires
            zone_fits(*at),
            kind == TileType::FireStation || kind == TileType::PoliceStation,
            station_sum(
                *old(station_map),
                station_repaired(old(map).cells(), old(map).strategy(), *at, time, kind),
                old(map).strategy(),
                *at,
                effect,
                powered,
            ) matches Some(v) ==> -0x8000 <= v <= 0x7fff,
        ensures
            ({
                let cells = station_repaired(old(map).cells(), old(map).strategy(), *at, time, kind);
                let sum = station_sum(*old(station_map), cells, old(map).strategy(), *at, effect, powered);
                &&& final(map).cells() == cells
                &&& sum matches Some(v) ==> r is Ok && final(station_map).cells() == write_cell(
                    old(station_map).cells(),
                    old(station_map).strategy(),
                    station_road(cells, old(map).strategy(), *at).1,
                    v as i16,
                )
                &&& sum is None ==> r is Err && final(station_map).cells() == old(station_map).cells()
            }),
            final(map).strategy() == old(map).strategy(),
            final(station_map).strategy() == old(station_map).strategy(),
    {
        proof {
            lemma_u64_low_bits(time);
        }
        if time & 0x07 == 0x00 {
            Self::repair_zone(map, at, kind, 3)?;
        }
        let mut z = (effect / if powered {
            1  // powered effect
        } else {
            2  // otherwise: from the funding ratio
        }) as i16;
        proof {
            map.lemma_tile_at_cells(*at);
        }
        let (found_road, road_position) = CityTraffic::find_perimeter_road(map, at)?;
        if !found_road {
            z = z / 2;
        }
        let value = match station_map.get_tile_at(&road_position) {
            Some(v) => *v,
            None => {
                return Err(String::from_str("Simulation.do_special_zone cannot get station map value"));
            },
        };
        station_map.set_tile_at(&road_position, value + z);
        Ok(())
    }

    /// Update special zones.
    fn do_special_zone(
        &mut self,
        rng: &mut MicropolisRandom,
        map: &mut TileMap,
        power: &mut CityPower,
        sprites: &mut ActiveSpritesList,
        at: &MapPosition,
        is_zone_powered: bool,
        disasters_enabled: bool,
        difficulty: &GameLevelDifficulty,
    ) -> (r: Result<(), String>)
        requires
            zone_fits(*at),
            special_kind(*old(map), *at) == Some(Some(TileType::PowerPlant)) ==> old(power).wf()
                && old(power).generators().0 < usize::MAX,
            special_kind(*old(map), *at) == Some(Some(TileType::Nuclear)) ==> old(power).wf()
                && old(power).generators().1 < usize::MAX && (disasters_enabled ==> trunc_rem(
                draw_bits(lcg_next(old(rng).state())),
                meltdown_range(*difficulty) + 1,
            ) != 0),
            special_kind(*old(map), *at) == Some(Some(TileType::FireStation)) ==> old(self).statistics.fire_station_count < u16::MAX && (station_sum(
                old(self).fire_station_map,
                station_repaired(old(map).cells(), old(map).strategy(), *at, old(self).city_time, TileType::FireStation),
                old(map).strategy(),
                *at,
                old(self).parameters.effects().1,
                is_zone_powered,
            ) matches Some(v) ==> -0x8000 <= v <= 0x7fff),
            special_kind(*old(map), *at) == Some(Some(TileType::PoliceStation)) ==> old(self).statistics.police_station_count < u16::MAX && (station_sum(
                old(self).police_station_map,
                station_repaired(old(map).cells(), old(map).strategy(), *at, old(self).city_time, TileType::PoliceStation),
                old(map).strategy(),
                *at,
                old(self).parameters.effects().2,
                is_zone_powered,
            ) matches Some(v) ==> -0x8000 <= v <= 0x7fff),
            special_kind(*old(map), *at) == Some(Some(TileType::Stadium)) || special_kind(
                *old(map),
                *at,
            ) == Some(Some(TileType::FullStadium)) ==> old(self).statistics.stadium_count
                < u16::MAX && stadium_clock_fits(old(self).city_time, *at),
            special_kind(*old(map), *at) == Some(Some(TileType::Airport)) ==> old(self).statistics.airport_count < u16::MAX && tile_fits(*at) && active_sprite_fits(
                old(sprites).sprites(),
                SpriteType::Airplane,
            ) && active_sprite_fits(old(sprites).sprites(), SpriteType::Helicopter),
            special_kind(*old(map), *at) == Some(Some(TileType::Port)) ==> old(self).statistics.seaport_count < u16::MAX && ship_map_fits(*old(map)) && active_sprite_fits(
                old(sprites).sprites(),
                SpriteType::Ship,
            ),
        ensures
            special_kind(*old(map), *at) is None ==> r is Err,
            special_kind(*old(map), *at) == Some(None::<TileType>) ==> r is Err,
            special_kind(*old(map), *at) is None || special_kind(*old(map), *at) == Some(
                None::<TileType>,
            ) ==> *final(map) == *old(map) && *final(self) == *old(self) && *final(power) == *old(power) && *final(sprites) == *old(sprites) && *final(rng) == *old(rng),
            special_kind(*old(map), *at) matches Some(Some(kind)) && !(kind == TileType::PowerPlant
                || kind == TileType::Nuclear || kind == TileType::FireStation || kind
                == TileType::PoliceStation || kind == TileType::Stadium || kind
                == TileType::FullStadium || kind == TileType::Airport || kind == TileType::Port)
                ==> r is Ok && *final(map) == *old(map) && *final(self) == *old(self) && *final(power) == *old(power) && *final(sprites) == *old(sprites) && *final(rng) == *old(rng),
            special_kind(*old(map), *at) == Some(Some(TileType::PowerPlant)) ==> {
                &&& r is Ok
                &&& final(map).cells() == smoked(
                    if old(self).city_time % 8 == 0 {
                        repaired(old(map).cells(), old(map).strategy(), *at, TileType::PowerPlant, 4)
                    } else {
                        old(map).cells()
                    },
                    old(map).strategy(),
                    *at,
                )
                &&& final(power).generators() == (
                    (old(power).generators().0 + 1) as usize,
                    old(power).generators().1,
                )
                &&& old(power).stack().len() < POWER_STACK_SIZE - 2 ==> final(power).stack() == old(power).stack().push(*at)
                &&& *final(self) == *old(self)
            },
            special_kind(*old(map), *at) == Some(Some(TileType::Nuclear)) ==> {
                &&& r is Ok
                &&& final(map).cells() == if old(self).city_time % 8 == 0 {
                    repaired(old(map).cells(), old(map).strategy(), *at, TileType::Nuclear, 4)
                } else {
                    old(map).cells()
                }
                &&& final(power).generators() == (
                    old(power).generators().0,
                    (old(power).generators().1 + 1) as usize,
                )
                &&& old(power).stack().len() < POWER_STACK_SIZE - 2 ==> final(power).stack() == old(power).stack().push(*at)
                &&& disasters_enabled ==> final(rng).state() == lcg_next(old(rng).state())
                &&& !disasters_enabled ==> final(rng).state() == old(rng).state()
                &&& *final(self) == *old(self)
            },
            special_kind(*old(map), *at) == Some(Some(TileType::FireStation)) ==> {
                let cells = station_repaired(
                    old(map).cells(),
                    old(map).strategy(),
                    *at,
                    old(self).city_time,
                    TileType::FireStation,
                );
                let sum = station_sum(
                    old(self).fire_station_map,
                    cells,
                    old(map).strategy(),
                    *at,
                    old(self).parameters.effects().1,
                    is_zone_powered,
                );
                &&& final(map).cells() == cells
                &&& sum matches Some(v) ==> r is Ok && final(self).fire_station_map.cells() == write_cell(
                    old(self).fire_station_map.cells(),
                    old(self).fire_station_map.strategy(),
                    station_road(cells, old(map).strategy(), *at).1,
                    v as i16,
                )
                &&& sum is None ==> r is Err
                &&& final(self).statistics.fire_station_count == old(self).statistics.fire_station_count + 1
            },
            special_kind(*old(map), *at) == Some(Some(TileType::PoliceStation)) ==> {
                let cells = station_repaired(
                    old(map).cells(),
                    old(map).strategy(),
                    *at,
                    old(self).city_time,
                    TileType::PoliceStation,
                );
                let sum = station_sum(
                    old(self).police_station_map,
                    cells,
                    old(map).strategy(),
                    *at,
                    old(self).parameters.effects().2,
                    is_zone_powered,
                );
                &&& final(map).cells() == cells
                &&& sum matches Some(v) ==> r is Ok && final(self).police_station_map.cells() == write_cell(
                    old(self).police_station_map.cells(),
                    old(self).police_station_map.strategy(),
                    station_road(cells, old(map).strategy(), *at).1,
                    v as i16,
                )
                &&& sum is None ==> r is Err
                &&& final(self).statistics.police_station_count == old(self).statistics.police_station_count + 1
            },
            special_kind(*old(map), *at) == Some(Some(TileType::Stadium)) ==> {
                let strategy = old(map).strategy();
                let c1 = if old(self).city_time % 16 == 0 {
                    repaired(old(map).cells(), strategy, *at, TileType::Stadium, 4)
                } else {
                    old(map).cells()
                };
                let starts = is_zone_powered && (stadium_clock(old(self).city_time, *at) as i32)
                    & 0x1Fi32 == 0;
                let (c2, ok) = game_started(c1, strategy, *at);
                &&& !starts ==> r is Ok && final(map).cells() == c1
                &&& starts ==> (r is Ok <==> ok) && final(map).cells() == c2
                &&& final(self).statistics.stadium_count == old(self).statistics.stadium_count + 1
            },
            special_kind(*old(map), *at) == Some(Some(TileType::FullStadium)) ==> {
                let stops = (stadium_clock(old(self).city_time, *at) as i32) & 0x07i32 == 0;
                let (c, ok) = stadium_drawn(old(map).cells(), old(map).strategy(), *at, TileType::Stadium);
                &&& !stops ==> r is Ok && final(map).cells() == old(map).cells()
                &&& stops ==> (r is Ok <==> ok) && final(map).cells() == c
                &&& final(self).statistics.stadium_count == old(self).statistics.stadium_count + 1
            },
            special_kind(*old(map), *at) == Some(Some(TileType::Airport)) ==> {
                let strategy = old(map).strategy();
                let c1 = repaired(old(map).cells(), strategy, *at, TileType::Airport, 6);
                let radar = offset_of(*at, 1, -1);
                &&& old(self).city_time % 8 != 0 ==> r is Ok && final(map).cells() == old(map).cells()
                    && *final(sprites) == *old(sprites) && *final(rng) == *old(rng)
                &&& old(self).city_time % 8 == 0 ==> match grid_value_at(c1, strategy, radar) {
                    None => r is Err && final(map).cells() == c1,
                    Some(t) => {
                        &&& r is Ok
                        &&& final(map).cells() == match radar_raw(t.raw(), is_zone_powered) {
                            Some(v) => put_raw(c1, strategy, radar, v),
                            None => c1,
                        }
                        &&& is_zone_powered ==> airport_activity(
                            old(sprites).sprites(),
                            final(sprites).sprites(),
                            old(rng).state(),
                            final(rng).state(),
                            *at,
                        )
                        &&& !is_zone_powered ==> *final(sprites) == *old(sprites) && *final(rng)
                            == *old(rng)
                    },
                }
                &&& final(self).statistics.airport_count == old(self).statistics.airport_count + 1
            },
            special_kind(*old(map), *at) == Some(Some(TileType::Port)) ==> {
                let cells = if old(self).city_time & 0x15u64 == 0 {
                    repaired(old(map).cells(), old(map).strategy(), *at, TileType::Port, 4)
                } else {
                    old(map).cells()
                };
                &&& r is Ok
                &&& final(map).cells() == cells
                &&& (is_zone_powered && first_active(old(sprites).sprites(), SpriteType::Ship) is None)
                    ==> {
                    let (found, next) = ship_search(*final(map), old(rng).state());
                    &&& final(rng).state() == next
                    &&& found is None ==> *final(sprites) == *old(sprites)
                    &&& found matches Some(p) ==> sprite_made(
                        old(sprites).sprites(),
                        final(sprites).sprites(),
                        SpriteType::Ship,
                        pixel_of(p, -47, 0),
                    )
                }
                &&& !(is_zone_powered && first_active(old(sprites).sprites(), SpriteType::Ship)
                    is None) ==> *final(sprites) == *old(sprites) && *final(rng) == *old(rng)
                &&& final(self).statistics.seaport_count == old(self).statistics.seaport_count + 1
            },
            final(map).strategy() == old(map).strategy(),
            final(rng).creation_seed() == old(rng).creation_seed(),
            final(sprites).cycle() == old(sprites).cycle(),
            final(self).city_time == old(self).city_time,
    {
        proof {
            map.lemma_tile_at_cells(*at);
        }
        let tile_value = match map.get_tile_at(at) {
            Some(t) => t.get_raw() & 0x03ff,
            None => {
                return Err(String::from_str("Simulation::do_special_zone cannot read tile"));
            },
        };
        let tile_type = match TileType::from_u16(tile_value) {
            Some(t) => t,
            None => {
                return Err(String::from_str("Simulation::do_special_zone invalid tile type"));
            },
        };
        match tile_type {
            TileType::PowerPlant => self.coal_power_plant(map, power, at),
            TileType::Nuclear => self.nuclear_power_plant(
                rng,
                map,
                power,
                at,
                disasters_enabled,
                difficulty,
            ),
            TileType::FireStation => self.fire_station(map, at, is_zone_powered),
            TileType::PoliceStation => self.police_station(map, at, is_zone_powered),
            // Empty stadium
            TileType::Stadium => self.stadium(map, at, is_zone_powered),
            // Full stadium
            TileType::FullStadium => self.full_stadium(map, at),
            TileType::Airport => self.airport(rng, map, sprites, at, is_zone_powered),
            TileType::Port => self.port(rng, map, sprites, at, is_zone_powered),
            _ => Ok(()),
        }
    }

    /// Update a fire station zone.
    fn fire_station(&mut self, map: &mut TileMap, at: &MapPosition, powered: bool) -> (r: Result<
        (),
        String,
    >)
        requires
            zone_fits(*at),
            old(self).statistics.fire_station_count < u16::MAX,
            station_sum(
                old(self).fire_station_map,
                station_repaired(old(map).cells(), old(map).strategy(), *at, old(self).city_time, TileType::FireStation),
                old(map).strategy(),
                *at,
                old(self).parameters.effects().1,
                powered,
            ) matches Some(v) ==> -0x8000 <= v <= 0x7fff,
        ensures
            ({
                let cells = station_repaired(
                    old(map).cells(),
                    old(map).strategy(),
                    *at,
                    old(self).city_time,
                    TileType::FireStation,
                );
                let sum = station_sum(
                    old(self).fire_station_map,
                    cells,
                    old(map).strategy(),
                    *at,
                    old(self).parameters.effects().1,
                    powered,
                );
                &&& final(map).cells() == cells
                &&& sum matches Some(v) ==> r is Ok && final(self).fire_station_map.cells() == write_cell(
                    old(self).fire_station_map.cells(),
                    old(self).fire_station_map.strategy(),
                    station_road(cells, old(map).strategy(), *at).1,
                    v as i16,
                )
                &&& sum is None ==> r is Err && final(self).fire_station_map.cells() == old(self).fire_station_map.cells()
            }),
            final(self).statistics == (SimulationStatistics {
                fire_station_count: (old(self).statistics.fire_station_count + 1) as u16,
                ..old(self).statistics
            }),
            final(map).strategy() == old(map).strategy(),
            final(self).fire_station_map.strategy() == old(self).fire_station_map.strategy(),
            final(self).police_station_map == old(self).police_station_map,
            final(self).city_time == old(self).city_time,
    {
        self.statistics.fire_station_count = self.statistics.fire_station_count + 1;
        let effect = self.parameters.get_fire_effect();
        Self::station_zone(
            &mut self.fire_station_map,
            map,
            at,
            TileType::FireStation,
            effect,
            powered,
            self.city_time,
        )
    }

    /// Update a police station zone.
    fn police_station(&mut self, map: &mut TileMap, at: &MapPosition, powered: bool) -> (r: Result<
        (),
        String,
    >)
        requires
            zone_fits(*at),
            old(self).statistics.police_station_count < u16::MAX,
            station_sum(
                old(self).police_station_map,
                station_repaired(old(map).cells(), old(map).strategy(), *at, old(self).city_time, TileType::PoliceStation),
                old(map).strategy(),
                *at,
                old(self).parameters.effects().2,
                powered,
            ) matches Some(v) ==> -0x8000 <= v <= 0x7fff,
        ensures
            ({
                let cells = station_repaired(
                    old(map).cells(),
                    old(map).strategy(),
                    *at,
                    old(self).city_time,
                    TileType::PoliceStation,
                );
                let sum = station_sum(
                    old(self).police_station_map,
                    cells,
                    old(map).strategy(),
                    *at,
                    old(self).parameters.effects().2,
                    powered,
                );
                &&& final(map).cells() == cells
                &&& sum matches Some(v) ==> r is Ok && final(self).police_station_map.cells() == write_cell(
                    old(self).police_station_map.cells(),
                    old(self).police_station_map.strategy(),
                    station_road(cells, old(map).strategy(), *at).1,
                    v as i16,
                )
                &&& sum is None ==> r is Err && final(self).police_station_map.cells() == old(self).police_station_map.cells()
            }),
            final(self).statistics == (SimulationStatistics {
                police_station_count: (old(self).statistics.police_station_count + 1) as u16,
                ..old(self).statistics
            }),
            final(map).strategy() == old(map).strategy(),
            final(self).police_station_map.strategy() == old(self).police_station_map.strategy(),
            final(self).fire_station_map == old(self).fire_station_map,
            final(self).city_time == old(self).city_time,
    {
        self.statistics.police_station_count = self.statistics.police_station_count + 1;
        let effect = self.parameters.get_police_effect();
        Self::station_zone(
            &mut self.police_station_map,
            map,
            at,
            TileType::PoliceStation,
            effect,
            powered,
            self.city_time,
        )
    }

    /// Update an empty stadium: repair it when due and, when powered, start a
    /// game every now and then.
    fn stadium(&mut self, map: &mut TileMap, at: &MapPosition, powered: bool) -> (r: Result<
        (),
        String,
    >)
        requires
            zone_fits(*at),
            old(self).statistics.stadium_count < u16::MAX,
            stadium_clock_fits(old(self).city_time, *at),
        ensures
            ({
                let strategy = old(map).strategy();
                let c1 = if old(self).city_time % 16 == 0 {
                    repaired(old(map).cells(), strategy, *at, TileType::Stadium, 4)
                } else {
                    old(map).cells()
                };
                let starts = powered && (stadium_clock(old(self).city_time, *at) as i32) & 0x1Fi32 == 0;
                let (c2, ok) = game_started(c1, strategy, *at);
                &&& !starts ==> r is Ok && final(map).cells() == c1
                &&& starts ==> (r is Ok <==> ok) && final(map).cells() == c2
            }),
            final(self).statistics == (SimulationStatistics {
                stadium_count: (old(self).statistics.stadium_count + 1) as u16,
                ..old(self).statistics
            }),
            final(map).strategy() == old(map).strategy(),
            final(self).fire_station_map == old(self).fire_station_map,
            final(self).police_station_map == old(self).police_station_map,
            final(self).city_time == old(self).city_time,
    {
        self.statistics.stadium_count = self.statistics.stadium_count + 1;
        let time = self.city_time;
        proof {
            lemma_u64_low_bits(time);
        }
        if time & 0x0F == 0x00 {
            Self::repair_zone(map, at, TileType::Stadium, 4)?;
        }
        if powered {
            // start a match every now and then
            if (time as i32 + at.get_x() + at.get_y()) & 0x1F == 0x00 {
                Self::draw_stadium(map, at, TileType::FullStadium)?;
                let game1 = Tile::from_raw(TileType::FootballGame1.raw_value() + 0x0800)?;
                let game2 = Tile::from_raw(TileType::FootballGame2.raw_value() + 0x0800)?;
                proof {
                    Tile::lemma_of_raw(game1);
                    Tile::lemma_of_raw(game2);
                }
                map.set_tile_at(&MapPosition::new(at.x + 1, at.y), game1);
                map.set_tile_at(&MapPosition::new(at.x + 1, at.y + 1), game2);
            }
        }
        Ok(())
    }

    /// Update a full stadium: the game stops every now and then.
    fn full_stadium(&mut self, map: &mut TileMap, at: &MapPosition) -> (r: Result<(), String>)
        requires
            zone_fits(*at),
            old(self).statistics.stadium_count < u16::MAX,
            stadium_clock_fits(old(self).city_time, *at),
        ensures
            ({
                let stops = (stadium_clock(old(self).city_time, *at) as i32) & 0x07i32 == 0;
                let (c, ok) = stadium_drawn(old(map).cells(), old(map).strategy(), *at, TileType::Stadium);
                &&& !stops ==> r is Ok && final(map).cells() == old(map).cells()
                &&& stops ==> (r is Ok <==> ok) && final(map).cells() == c
            }),
            final(self).statistics == (SimulationStatistics {
                stadium_count: (old(self).statistics.stadium_count + 1) as u16,
                ..old(self).statistics
            }),
            final(map).strategy() == old(map).strategy(),
            final(self).fire_station_map == old(self).fire_station_map,
            final(self).police_station_map == old(self).police_station_map,
            final(self).city_time == old(self).city_time,
    {
        self.statistics.stadium_count = self.statistics.stadium_count + 1;
        if (self.city_time as i32 + at.get_x() + at.get_y()) & 0x07 == 0x00 {
            // stop the match
            Self::draw_stadium(map, at, TileType::Stadium)?;
        }
        Ok(())
    }

    /// Update an airport: repair it when due, turn its radar, and when
    /// powered let airplanes and helicopters come.
    fn airport(
        &mut self,
        rng: &mut MicropolisRandom,
        map: &mut TileMap,
        sprites: &mut ActiveSpritesList,
        at: &MapPosition,
        powered: bool,
    ) -> (r: Result<(), String>)
        requires
            zone_fits(*at),
            tile_fits(*at),
            old(self).statistics.airport_count < u16::MAX,
            active_sprite_fits(old(sprites).sprites(), SpriteType::Airplane),
            active_sprite_fits(old(sprites).sprites(), SpriteType::Helicopter),
        ensures
            ({
                let strategy = old(map).strategy();
                let c1 = repaired(old(map).cells(), strategy, *at, TileType::Airport, 6);
                let radar = offset_of(*at, 1, -1);
                &&& old(self).city_time % 8 != 0 ==> r is Ok && final(map).cells() == old(map).cells()
                    && *final(sprites) == *old(sprites) && *final(rng) == *old(rng)
                &&& old(self).city_time % 8 == 0 ==> match grid_value_at(c1, strategy, radar) {
                    None => r is Err && final(map).cells() == c1 && *final(sprites) == *old(sprites)
                        && *final(rng) == *old(rng),
                    Some(t) => {
                        &&& r is Ok
                        &&& final(map).cells() == match radar_raw(t.raw(), powered) {
                            Some(v) => put_raw(c1, strategy, radar, v),
                            None => c1,
                        }
                        &&& powered ==> airport_activity(
                            old(sprites).sprites(),
                            final(sprites).sprites(),
                            old(rng).state(),
                            final(rng).state(),
                            *at,
                        )
                        &&& !powered ==> *final(sprites) == *old(sprites) && *final(rng) == *old(rng)
                    },
                }
            }),
            final(self).statistics == (SimulationStatistics {
                airport_count: (old(self).statistics.airport_count + 1) as u16,
                ..old(self).statistics
            }),
            final(map).strategy() == old(map).strategy(),
            final(sprites).cycle() == old(sprites).cycle(),
            final(rng).creation_seed() == old(rng).creation_seed(),
            final(self).fire_station_map == old(self).fire_station_map,
            final(self).police_station_map == old(self).police_station_map,
            final(self).city_time == old(self).city_time,
    {
        self.statistics.airport_count = self.statistics.airport_count + 1;
        let time = self.city_time;
        proof {
            lemma_u64_low_bits(time);
        }
        if time & 0x07 == 0x00 {
            Self::repair_zone(map, at, TileType::Airport, 6)?;
            // display a rotating radar if powered
            let radar_position = MapPosition::new(at.x + 1, at.y - 1);
            proof {
                map.lemma_tile_at_cells(radar_position);
            }
            let radar_raw_value = match map.get_tile_at(&radar_position) {
                Some(tile) => tile.get_raw(),
                None => {
                    return Err(String::from_str("Simulation.do_special_zone cannot get radar tile"));
                },
            };
            if powered {
                if radar_raw_value & 0x03ff == TileType::Radar.raw_value() {
                    let radar = Tile::from_raw(TileType::HBRDG_END.raw_value() + 0x0800 + 0x4000 + 0x2000)?;
                    proof {
                        Tile::lemma_of_raw(radar);
                    }
                    map.set_tile_at(&radar_position, radar);
                }
            } else {
                let radar = Tile::from_raw(TileType::Radar.raw_value() + 0x4000 + 0x2000)?;
                proof {
                    Tile::lemma_of_raw(radar);
                }
                map.set_tile_at(&radar_position, radar);
            }
            // handle the airport activity if powered
            if powered {
                Self::do_airport(rng, sprites, at)?;
            }
        }
        Ok(())
    }

    /// Generate an airplane or helicopter every now and then.
    fn do_airport(rng: &mut MicropolisRandom, sprites: &mut ActiveSpritesList, position: &MapPosition) -> (r:
        Result<(), String>)
        requires
            tile_fits(*position),
            active_sprite_fits(old(sprites).sprites(), SpriteType::Airplane),
            active_sprite_fits(old(sprites).sprites(), SpriteType::Helicopter),
        ensures
            r is Ok,
            airport_activity(
                old(sprites).sprites(),
                final(sprites).sprites(),
                old(rng).state(),
                final(rng).state(),
                *position,
            ),
            final(sprites).cycle() == old(sprites).cycle(),
            final(rng).creation_seed() == old(rng).creation_seed(),
    {
        if rng.get_random(5) == 0 {
            return generate_plane(rng, sprites, position);
        }
        if rng.get_random(12) == 0 {
            return generate_copter(rng, sprites, position);
        }
        Ok(())
    }

    /// Update a seaport: repair it when due, and when powered launch a ship
    /// if there is none.
    fn port(
        &mut self,
        rng: &mut MicropolisRandom,
        map: &mut TileMap,
        sprites: &mut ActiveSpritesList,
        at: &MapPosition,
        powered: bool,
    ) -> (r: Result<(), String>)
        requires
            zone_fits(*at),
            old(self).statistics.seaport_count < u16::MAX,
            ship_map_fits(*old(map)),
            active_sprite_fits(old(sprites).sprites(), SpriteType::Ship),
        ensures
            r is Ok,
            ({
                let strategy = old(map).strategy();
                let cells = if old(self).city_time & 0x15u64 == 0 {
                    repaired(old(map).cells(), strategy, *at, TileType::Port, 4)
                } else {
                    old(map).cells()
                };
                &&& final(map).cells() == cells
                &&& (powered && first_active(old(sprites).sprites(), SpriteType::Ship) is None) ==> {
                    let (found, next) = ship_search(*final(map), old(rng).state());
                    &&& final(rng).state() == next
                    &&& found is None ==> *final(sprites) == *old(sprites)
                    &&& found matches Some(p) ==> sprite_made(
                        old(sprites).sprites(),
                        final(sprites).sprites(),
                        SpriteType::Ship,
                        pixel_of(p, -47, 0),
                    )
                }
                &&& !(powered && first_active(old(sprites).sprites(), SpriteType::Ship) is None)
                    ==> *final(sprites) == *old(sprites) && *final(rng) == *old(rng)
            }),
            final(self).statistics == (SimulationStatistics {
                seaport_count: (old(self).statistics.seaport_count + 1) as u16,
                ..old(self).statistics
            }),
            final(map).strategy() == old(map).strategy(),
            final(sprites).cycle() == old(sprites).cycle(),
            final(rng).creation_seed() == old(rng).creation_seed(),
            final(self).fire_station_map == old(self).fire_station_map,
            final(self).police_station_map == old(self).police_station_map,
            final(self).city_time == old(self).city_time,
    {
        self.statistics.seaport_count = self.statistics.seaport_count + 1;
        if self.city_time & 0x15 == 0x00 {
            Self::repair_zone(map, at, TileType::Port, 4)?;
        }
        // if no ship and powered, generate a new one
        if powered && sprites.get_sprite(&SpriteType::Ship).is_none() {
            generate_ship(rng, sprites, map)?;
        }
        Ok(())
    }

    /// Update a coal power plant: count it, repair it when due, push it on the
    /// power stack and draw its smoke.
    fn coal_power_plant(&mut self, map: &mut TileMap, power: &mut CityPower, at: &MapPosition) -> (r:
        Result<(), String>)
        requires
            zone_fits(*at),
            old(power).wf(),
            old(power).generators().0 < usize::MAX,
        ensures
            r is Ok,
            final(map).cells() == smoked(
                if old(self).city_time % 8 == 0 {
                    repaired(old(map).cells(), old(map).strategy(), *at, TileType::PowerPlant, 4)
                } else {
                    old(map).cells()
                },
                old(map).strategy(),
                *at,
            ),
            final(map).strategy() == old(map).strategy(),
            final(power).wf(),
            final(power).generators() == (
                (old(power).generators().0 + 1) as usize,
                old(power).generators().1,
            ),
            old(power).stack().len() < POWER_STACK_SIZE - 2 ==> final(power).stack() == old(power).stack().push(*at),
            old(power).stack().len() >= POWER_STACK_SIZE - 2 ==> final(power).stack() == old(power).stack(),
            final(power).grid() == old(power).grid(),
            final(power).zone_counts() == old(power).zone_counts(),
            *final(self) == *old(self),
    {
        // coal power generation
        power.add_coal_generator();
        let time = self.city_time;
        proof {
            lemma_u64_low_bits(time);
        }
        if time & 0x07 == 0x00 {
            Self::repair_zone(map, at, TileType::PowerPlant, 4)?;
        }
        power.push_power_stack(*at);
        Self::coal_smoke(map, at)?;
        Ok(())
    }

    /// Update a nuclear power plant: count it, repair it when due and push it
    /// on the power stack.
    ///
    /// With disasters enabled, a draw first decides of a meltdown; meltdowns
    /// are not simulated, so the precondition leaves out the draw that would
    /// trigger one.
    fn nuclear_power_plant(
        &mut self,
        rng: &mut MicropolisRandom,
        map: &mut TileMap,
        power: &mut CityPower,
        at: &MapPosition,
        disasters_enabled: bool,
        difficulty: &GameLevelDifficulty,
    ) -> (r: Result<(), String>)
        requires
            zone_fits(*at),
            old(power).wf(),
            old(power).generators().1 < usize::MAX,
            disasters_enabled ==> trunc_rem(
                draw_bits(lcg_next(old(rng).state())),
                meltdown_range(*difficulty) + 1,
            ) != 0,
        ensures
            r is Ok,
            disasters_enabled ==> final(rng).state() == lcg_next(old(rng).state()),
            !disasters_enabled ==> final(rng).state() == old(rng).state(),
            final(rng).creation_seed() == old(rng).creation_seed(),
            final(map).cells() == if old(self).city_time % 8 == 0 {
                repaired(old(map).cells(), old(map).strategy(), *at, TileType::Nuclear, 4)
            } else {
                old(map).cells()
            },
            final(map).strategy() == old(map).strategy(),
            final(power).wf(),
            final(power).generators() == (
                old(power).generators().0,
                (old(power).generators().1 + 1) as usize,
            ),
            old(power).stack().len() < POWER_STACK_SIZE - 2 ==> final(power).stack() == old(power).stack().push(*at),
            old(power).stack().len() >= POWER_STACK_SIZE - 2 ==> final(power).stack() == old(power).stack(),
            final(power).grid() == old(power).grid(),
            final(power).zone_counts() == old(power).zone_counts(),
            *final(self) == *old(self),
    {
        if disasters_enabled {
            let range: i16 = match difficulty {
                GameLevelDifficulty::Easy => 30000,
                GameLevelDifficulty::Normal => 20000,
                GameLevelDifficulty::Hard => 10000,
            };
            if rng.get_random(range) == 0x00 {
                vstd::pervasive::unreached::<()>();
            }
        }
        // nuclear power generation
        power.add_nuclear_generator();
        let time = self.city_time;
        proof {
            lemma_u64_low_bits(time);
        }
        if time & 0x07 == 0x00 {
            Self::repair_zone(map, at, TileType::Nuclear, 4)?;
        }
        power.push_power_stack(*at);
        Ok(())
    }

    /// Draw coal smoke tiles around the given coal power plant position.
    fn coal_smoke(map: &mut TileMap, at: &MapPosition) -> (r: Result<(), String>)
        requires
            zone_fits(*at),
        ensures
            r is Ok,
            final(map).cells() == smoked(old(map).cells(), old(map).strategy(), *at),
            final(map).strategy() == old(map).strategy(),
    {
        let smoke_tiles: [u16; 4] = [916, 920, 924, 928];
        let smoke_dx: [i32; 4] = [1, 2, 1, 2];
        let smoke_dy: [i32; 4] = [-1, -1, 0, 0];
        let ghost strategy = map.strategy();
        let ghost c0 = map.cells();
        let ghost c1 = put_raw(c0, strategy, offset_of(*at, 1, -1), 916u16 | 0xE800u16);
        let ghost c2 = put_raw(c1, strategy, offset_of(*at, 2, -1), 920u16 | 0xE800u16);
        let ghost c3 = put_raw(c2, strategy, offset_of(*at, 1, 0), 924u16 | 0xE800u16);
        let ghost c4 = put_raw(c3, strategy, offset_of(*at, 2, 0), 928u16 | 0xE800u16);
        let ghost steps = seq![c0, c1, c2, c3, c4];
        let mut i: usize = 0;
        while i < 4
            invariant
                i <= 4,
                zone_fits(*at),
                smoke_tiles@ == seq![916u16, 920u16, 924u16, 928u16],
                smoke_dx@ == seq![1i32, 2i32, 1i32, 2i32],
                smoke_dy@ == seq![-1i32, -1i32, 0i32, 0i32],
                steps == seq![c0, c1, c2, c3, c4],
                c1 == put_raw(c0, strategy, offset_of(*at, 1, -1), 916u16 | 0xE800u16),
                c2 == put_raw(c1, strategy, offset_of(*at, 2, -1), 920u16 | 0xE800u16),
                c3 == put_raw(c2, strategy, offset_of(*at, 1, 0), 924u16 | 0xE800u16),
                c4 == put_raw(c3, strategy, offset_of(*at, 2, 0), 928u16 | 0xE800u16),
                map.strategy() == strategy,
                map.cells() == steps[i as int],
            decreases 4 - i,
        {
            let position = MapPosition::new(at.x + smoke_dx[i], at.y + smoke_dy[i]);
            let tile = Tile::from_raw(smoke_tiles[i] | 0x0800 | 0x4000 | 0x8000 | 0x2000)?;
            proof {
                Tile::lemma_of_raw(tile);
                let v = smoke_tiles@[i as int];
                lemma_u16_tile_bits(v);
            }
            map.set_tile_at(&position, tile);
            i = i + 1;
        }
        Ok(())
    }

    /// Draw a stadium (either full or empty).
    fn draw_stadium(map: &mut TileMap, center: &MapPosition, base_value: TileType) -> (r: Result<
        (),
        String,
    >)
        requires
            zone_fits(*center),
            5 <= base_value.code() <= 1000,
        ensures
            ({
                let (c, ok) = stadium_drawn(old(map).cells(), old(map).strategy(), *center, base_value);
                &&& r is Ok <==> ok
                &&& final(map).cells() == c
            }),
            final(map).strategy() == old(map).strategy(),
    {
        let ghost strategy = map.strategy();
        proof {
            map.lemma_tile_at_cells(*center);
        }
        // Center
        let center_raw = match map.get_tile_at(center) {
            Some(tile) => tile.get_raw(),
            None => {
                return Err(String::from_str("Simulation::draw_stadium cannot access center tile"));
            },
        };
        let center_tile = Tile::from_raw(center_raw | 0x0400 | 0x8000)?;
        proof {
            Tile::lemma_of_raw(center_tile);
            lemma_u16_tile_bits(center_raw);
        }
        map.set_tile_at(center, center_tile);
        let ghost c0 = map.cells();
        // Other tiles
        let mut value = base_value.raw_value() - 5;
        let (center_x, center_y) = center.as_tuple();
        let mut y = center_y - 1;
        while y < center_y + 3
            invariant
                center_y - 1 <= y <= center_y + 3,
                center_x == center.x && center_y == center.y,
                zone_fits(*center),
                map.strategy() == strategy,
                base_value.code() <= 1000,
                5 <= base_value.code(),
                c0 == put_raw(old(map).cells(), strategy, *center, center_raw | 0x8400u16),
                grid_value_at(old(map).cells(), strategy, *center) matches Some(t) && t.raw() == center_raw,
                strategy == old(map).strategy(),
                ({
                    let (c, v, ok) = stadium_rows(c0, strategy, *center, base_value.code() - 5, y - (center_y - 1));
                    &&& map.cells() == c
                    &&& value == v
                    &&& ok
                    &&& v == base_value.code() - 5 + 4 * (y - (center_y - 1))
                }),
            decreases center_y + 3 - y,
        {
            let ghost row_start = map.cells();
            let ghost value_start = value as int;
            let mut x = center_x - 1;
            while x < center_x + 3
                invariant
                    center_x - 1 <= x <= center_x + 3,
                    center_y - 1 <= y < center_y + 3,
                    center_x == center.x && center_y == center.y,
                    zone_fits(*center),
                    map.strategy() == strategy,
                    value_start <= 1100,
                    c0 == put_raw(old(map).cells(), strategy, *center, center_raw | 0x8400u16),
                    grid_value_at(old(map).cells(), strategy, *center) matches Some(t) && t.raw() == center_raw,
                    strategy == old(map).strategy(),
                    ({
                        let (c, v, ok) = stadium_rows(c0, strategy, *center, base_value.code() - 5, y - (center_y - 1));
                        &&& row_start == c
                        &&& value_start == v
                        &&& ok
                    }),
                    ({
                        let (c, v, ok) = stadium_row(row_start, strategy, center_x - 1, y as int, value_start, x - (center_x - 1));
                        &&& map.cells() == c
                        &&& value == v
                        &&& ok
                        &&& v == value_start + x - (center_x - 1)
                    }),
                decreases center_x + 3 - x,
            {
                let at = MapPosition::new(x, y);
                proof {
                    map.lemma_tile_at_cells(at);
                }
                if map.get_tile_at(&at).is_none() {
                    proof {
                        let n = x - (center_x - 1);
                        let k = y - (center_y - 1);
                        lemma_stadium_row_stuck(row_start, strategy, center_x - 1, y as int, value_start, n + 1, 4);
                        lemma_stadium_rows_stuck(c0, strategy, *center, base_value.code() - 5, k + 1, 4);
                    }
                    return Err(String::from_str("Simulation::draw_stadium cannot access tile"));
                }
                let tile = Tile::from_raw(value | 0x2000 | 0x4000)?;
                proof {
                    Tile::lemma_of_raw(tile);
                    lemma_u16_tile_bits(value);
                }
                map.set_tile_at(&at, tile);
                value = value + 1;
                x = x + 1;
            }
            y = y + 1;
        }
        Ok(())
    }
}


impl Simulation {
    /// Raw value of a random fire tile: one of the eight fire tiles, animated.
    fn random_fire_tile_value(rng: &mut MicropolisRandom) -> (r: u16)
        ensures
            final(rng).state() == lcg_next(old(rng).state()),
            final(rng).creation_seed() == old(rng).creation_seed(),
            r == fire_raw(random16_at(final(rng).state())),
    {
        let draw = rng.get_random_16();
        proof {
            lemma_i16_low_bits(draw);
            let v = ((draw as u16) & 7u16) as u16;
            lemma_u16_tile_bits((56u16 + v) as u16);
        }
        (TileType::Fire.raw_value() + (draw as u16 & 0x07)) | TILE_ANIM_BIT
    }

    /// Raw value of a random rubble tile: one of the four rubble tiles, bulldozable.
    fn random_rubble_tile_value(rng: &mut MicropolisRandom) -> (r: u16)
        ensures
            final(rng).state() == lcg_next(old(rng).state()),
            final(rng).creation_seed() == old(rng).creation_seed(),
            r == rubble_raw(random16_at(final(rng).state())),
    {
        let draw = rng.get_random_16();
        proof {
            lemma_i16_low_bits(draw);
            let v = ((draw as u16) & 3u16) as u16;
            lemma_u16_tile_bits((44u16 + v) as u16);
        }
        (TileType::Rubble.raw_value() + (draw as u16 & 0x03)) | TILE_BULL_BIT
    }

    /// Handle decay of a radioactive tile: one time in 4096, it becomes dirt.
    fn do_radioactive_tile(rng: &mut MicropolisRandom, map: &mut TileMap, position: &MapPosition) -> (r:
        Result<(), String>)
        ensures
            r is Ok,
            final(rng).state() == lcg_next(old(rng).state()),
            final(rng).creation_seed() == old(rng).creation_seed(),
            random16_at(final(rng).state()) % 4096 == 0 ==> final(map).cells()
                == old(map).cells_after_set(*position, Tile::of_raw(0)),
            random16_at(final(rng).state()) % 4096 != 0 ==> final(map).cells() == old(map).cells(),
            final(map).strategy() == old(map).strategy(),
    {
        let draw = rng.get_random_16();
        proof {
            lemma_i16_low_bits(draw);
        }
        if draw & 0x0FFF == 0x00 {
            let dirt = Tile::from_type(TileType::Dirt)?;
            proof {
                Tile::lemma_of_raw(dirt);
            }
            map.set_tile_at(position, dirt);
        }
        Ok(())
    }

    /// Handle a zone on fire: its rate of growth goes down by 20 (within -200
    /// and 200) and the tiles of type 64 or more of its square become
    /// bulldozable; the zone tile comes back (its type bits).
    fn fire_zone(&mut self, map: &mut TileMap, position: &MapPosition, zone_tile: &Tile) -> (r: Result<
        Tile,
        String,
    >)
        requires
            zone_fits(*position),
            growth_bounded(old(self).rate_of_growth.cells()),
        ensures
            ({
                let growth = old(self).rate_of_growth;
                match grid_value_at(growth.cells(), growth.strategy(), *position) {
                    None => r is Err && *final(self) == *old(self) && *final(map) == *old(map),
                    Some(g) => {
                        &&& r matches Ok(t) && t == Tile::of_raw(type_bits(zone_tile.raw()))
                        &&& final(self).rate_of_growth.cells() == write_cell(
                            growth.cells(),
                            growth.strategy(),
                            *position,
                            lowered_growth(g as int),
                        )
                        &&& final(map).cells() == mark_columns(
                            old(map).cells(),
                            old(map).strategy(),
                            *position,
                            burning_side(type_bits(zone_tile.raw()) as int),
                            burning_side(type_bits(zone_tile.raw()) as int),
                        )
                    },
                }
            }),
            final(self).rate_of_growth.strategy() == old(self).rate_of_growth.strategy(),
            growth_bounded(final(self).rate_of_growth.cells()),
            final(map).strategy() == old(map).strategy(),
            final(self).statistics == old(self).statistics,
            final(self).fire_station_map == old(self).fire_station_map,
            final(self).parameters == old(self).parameters,
            *final(self) == (Simulation { rate_of_growth: final(self).rate_of_growth, ..*old(self) }),
    {
        proof {
            self.rate_of_growth.lemma_tile_at_cells(*position);
        }
        let value = match self.rate_of_growth.get_tile_at(position) {
            Some(v) => *v,
            None => {
                return Err(String::from_str("Simulation.fire_zone: cannot get rate of growth value"));
            },
        };
        let lowered = clamp(value as i64 - 20, -200, 200) as i16;
        let ghost growth_before = self.rate_of_growth.cells();
        self.rate_of_growth.set_tile_at(position, lowered);
        proof {
            lemma_growth_write(growth_before, self.rate_of_growth.strategy(), *position, lowered);
        }
        let tile_raw = zone_tile.get_raw() & TILE_LOW_MASK;
        proof {
            lemma_u16_tile_bits(zone_tile.raw());
        }
        let xy_max: i32 = if tile_raw < TileType::PortBase.raw_value() {
            2
        } else if tile_raw == TileType::Airport.raw_value() {
            5
        } else {
            4
        };
        let side = xy_max + 1;
        let ghost strategy = map.strategy();
        let ghost start = map.cells();
        // make remaining tiles of the zone bulldozable
        let mut x: i32 = -1;
        while x < xy_max
            invariant
                -1 <= x <= xy_max,
                side == xy_max + 1,
                2 <= xy_max <= 5,
                zone_fits(*position),
                map.strategy() == strategy,
                start == old(map).cells(),
                strategy == old(map).strategy(),
                map.cells() == mark_columns(start, strategy, *position, side as int, x + 1),
            decreases xy_max - x,
        {
            let ghost before_column = map.cells();
            let mut y: i32 = -1;
            while y < xy_max
                invariant
                    -1 <= y <= xy_max,
                    -1 <= x < xy_max,
                    side == xy_max + 1,
                    2 <= xy_max <= 5,
                    zone_fits(*position),
                    map.strategy() == strategy,
                    map.cells() == mark_column(before_column, strategy, *position, x as int, y + 1),
                decreases xy_max - y,
            {
                let current_position = MapPosition::new(position.x + x, position.y + y);
                proof {
                    map.lemma_tile_at_cells(current_position);
                }
                match map.get_tile_at(&current_position) {
                    Some(current_tile) => {
                        let current_tile_raw = current_tile.get_raw();
                        proof {
                            lemma_u16_tile_bits(current_tile_raw);
                        }
                        if current_tile_raw & TILE_LOW_MASK >= TileType::HorizontalBridge.raw_value() {
                            // post release
                            let marked = Tile::from_raw(current_tile_raw | TILE_BULL_BIT)?;
                            proof {
                                Tile::lemma_of_raw(marked);
                            }
                            map.set_tile_at(&current_position, marked);
                        }
                    },
                    None => {},
                }
                y = y + 1;
            }
            x = x + 1;
        }
        let t = Tile::from_raw(tile_raw)?;
        proof {
            Tile::lemma_of_raw(t);
        }
        Ok(t)
    }
}


impl Simulation {
    /// Try to set the neighbour number `z` of a fire on fire (see `fire_step`).
    #[verifier::spinoff_prover]
    #[verifier::rlimit(50)]
    fn spread_fire_to(
        &mut self,
        rng: &mut MicropolisRandom,
        map: &mut TileMap,
        sprites: &mut ActiveSpritesList,
        position: &MapPosition,
        z: usize,
        Ghost(explosions): Ghost<Seq<MapPosition>>,
    ) -> (r: Result<(), String>)
        requires
            z < 4,
            tile_fits(*position),
            growth_bounded(old(self).rate_of_growth.cells()),
        ensures
            ({
                let prev = FireState {
                    cells: old(map).cells(),
                    rng: old(rng).state(),
                    growth: old(self).rate_of_growth.cells(),
                    explosions,
                };
                match fire_step(prev, old(map).strategy(), old(self).rate_of_growth.strategy(), *position, z as int) {
                    None => r is Err,
                    Some(n) => {
                        &&& r is Ok
                        &&& final(map).cells() == n.cells
                        &&& final(rng).state() == n.rng
                        &&& final(self).rate_of_growth.cells() == n.growth
                        &&& n.explosions.len() >= explosions.len()
                        &&& n.explosions.subrange(0, explosions.len() as int) == explosions
                        &&& explosions_added(
                            old(sprites).sprites(),
                            final(sprites).sprites(),
                            n.explosions.subrange(explosions.len() as int, n.explosions.len() as int),
                        )
                    },
                }
            }),
            growth_bounded(final(self).rate_of_growth.cells()),
            final(self).rate_of_growth.strategy() == old(self).rate_of_growth.strategy(),
            final(map).strategy() == old(map).strategy(),
            final(rng).creation_seed() == old(rng).creation_seed(),
            final(sprites).cycle() == old(sprites).cycle(),
            final(self).statistics == old(self).statistics,
            final(self).fire_station_map == old(self).fire_station_map,
            final(self).parameters == old(self).parameters,
            *final(self) == (Simulation { rate_of_growth: final(self).rate_of_growth, statistics: final(self).statistics, ..*old(self) }),
    {
        let ghost o = sprites.sprites();
        proof {
            assert(o.subrange(0, o.len() as int) =~= o);
            assert(explosions.subrange(0, explosions.len() as int) =~= explosions);
            assert(explosions.subrange(explosions.len() as int, explosions.len() as int) =~= Seq::<MapPosition>::empty());
        }
        let draw = rng.get_random_16();
        proof {
            lemma_i16_low_bits(draw);
        }
        if draw & 0x07 != 0x00 {
            return Ok(());
        }
        let (dx, dy): (i32, i32) = if z == 0 {
            (-1, 0)
        } else if z == 1 {
            (0, -1)
        } else if z == 2 {
            (1, 0)
        } else {
            (0, 1)
        };
        let position_temp = MapPosition::new(position.x + dx, position.y + dy);
        proof {
            map.lemma_tile_at_cells(position_temp);
        }
        let tile = match map.get_tile_at(&position_temp) {
            Some(t) => *t,
            None => {
                return Ok(());
            },
        };
        let tile_raw = tile.get_raw();
        if tile_raw & TILE_BURN_BIT == 0x00 {
            return Ok(());
        }
        if tile_raw & TILE_ZONE_BIT != 0x00 {
            // neighbour tile is a burnable zone
            proof {
                self.rate_of_growth.lemma_tile_at_cells(*position);
            }
            self.fire_zone(map, position, &tile)?;
            // explode?
            proof {
                lemma_u16_tile_bits(tile_raw);
            }
            if tile_raw & TILE_LOW_MASK > TileType::IndustrialZoneBase.raw_value() {
                let explosion_position = MapPosition::new(position_temp.x * 16 + 8, position_temp.y * 16 + 8);
                CityDisasters::make_explosion_at(rng, sprites, &explosion_position, &MapPosition::new(0, 0));
                proof {
                    let after = sprites.sprites();
                    let e2 = explosions.push(explosion_position);
                    assert(after.subrange(0, o.len() as int) =~= o);
                    assert(e2.subrange(0, explosions.len() as int) =~= explosions);
                    assert(e2.subrange(explosions.len() as int, e2.len() as int) =~= seq![explosion_position]);
                }
            }
        }
        let fire = Tile::from_raw(Self::random_fire_tile_value(rng))?;
        proof {
            Tile::lemma_of_raw(fire);
        }
        map.set_tile_at(&position_temp, fire);
        Ok(())
    }

    /// Handle a tile on fire at the given map position: the fire spreads to
    /// its neighbours (see `fire_spread`), then goes out (leaving rubble)
    /// with odds depending on the fire control of its area.
    fn do_fire(
        &mut self,
        rng: &mut MicropolisRandom,
        map: &mut TileMap,
        sprites: &mut ActiveSpritesList,
        position: &MapPosition,
    ) -> (r: Result<(), String>)
        requires
            tile_fits(*position),
            growth_bounded(old(self).rate_of_growth.cells()),
        ensures
            match fire_result(
                FireState {
                    cells: old(map).cells(),
                    rng: old(rng).state(),
                    growth: old(self).rate_of_growth.cells(),
                    explosions: Seq::empty(),
                },
                old(map).strategy(),
                old(self).rate_of_growth.strategy(),
                old(self).fire_station_map,
                *position,
            ) {
                None => r is Err,
                Some(f) => {
                    &&& r is Ok
                    &&& final(map).cells() == f.cells
                    &&& final(rng).state() == f.rng
                    &&& final(self).rate_of_growth.cells() == f.growth
                    &&& explosions_added(old(sprites).sprites(), final(sprites).sprites(), f.explosions)
                },
            },
            growth_bounded(final(self).rate_of_growth.cells()),
            final(self).rate_of_growth.strategy() == old(self).rate_of_growth.strategy(),
            final(map).strategy() == old(map).strategy(),
            final(rng).creation_seed() == old(rng).creation_seed(),
            final(sprites).cycle() == old(sprites).cycle(),
            final(self).statistics == old(self).statistics,
            final(self).fire_station_map == old(self).fire_station_map,
            final(self).parameters == old(self).parameters,
            *final(self) == (Simulation { rate_of_growth: final(self).rate_of_growth, statistics: final(self).statistics, ..*old(self) }),
    {
        let ghost start = FireState {
            cells: map.cells(),
            rng: rng.state(),
            growth: self.rate_of_growth.cells(),
            explosions: Seq::empty(),
        };
        let ghost strategy = map.strategy();
        let ghost growth_strategy = self.rate_of_growth.strategy();
        let ghost mut explosions: Seq<MapPosition> = Seq::empty();
        proof {
            assert(sprites.sprites().subrange(0, sprites.sprites().len() as int) =~= sprites.sprites());
        }
        // try to set neighbouring tiles on fire as well
        let mut z: usize = 0;
        while z < 4
            invariant
                *self == (Simulation { rate_of_growth: self.rate_of_growth, statistics: self.statistics, ..*old(self) }),
                z <= 4,
                tile_fits(*position),
                start == (FireState {
                    cells: old(map).cells(),
                    rng: old(rng).state(),
                    growth: old(self).rate_of_growth.cells(),
                    explosions: Seq::empty(),
                }),
                strategy == old(map).strategy(),
                growth_strategy == old(self).rate_of_growth.strategy(),
                map.strategy() == strategy,
                self.rate_of_growth.strategy() == growth_strategy,
                fire_spread(start, strategy, growth_strategy, *position, z as int) == Some(
                    FireState {
                        cells: map.cells(),
                        rng: rng.state(),
                        growth: self.rate_of_growth.cells(),
                        explosions,
                    },
                ),
                explosions_added(old(sprites).sprites(), sprites.sprites(), explosions),
                growth_bounded(self.rate_of_growth.cells()),
                rng.creation_seed() == old(rng).creation_seed(),
                sprites.cycle() == old(sprites).cycle(),
                self.statistics == old(self).statistics,
                self.fire_station_map == old(self).fire_station_map,
                self.parameters == old(self).parameters,
            decreases 4 - z,
        {
            let ghost prev = FireState {
                cells: map.cells(),
                rng: rng.state(),
                growth: self.rate_of_growth.cells(),
                explosions,
            };
            let ghost sprites_before = sprites.sprites();
            let step = self.spread_fire_to(rng, map, sprites, position, z, Ghost(explosions));
            match step {
                Ok(_) => {},
                Err(e) => {
                    proof {
                        lemma_fire_stuck(start, strategy, growth_strategy, *position, z + 1, 4);
                    }
                    return Err(e);
                },
            }
            proof {
                let n = fire_step(prev, strategy, growth_strategy, *position, z as int).unwrap();
                let added = n.explosions.subrange(explosions.len() as int, n.explosions.len() as int);
                lemma_explosions_chain(old(sprites).sprites(), sprites_before, sprites.sprites(), explosions, added);
                assert(explosions + added =~= n.explosions);
                explosions = n.explosions;
            }
            z = z + 1;
        }
        // compute likelihood of fire running out of fuel
        proof {
            self.fire_station_map.lemma_tile_at_cells(*position);
        }
        let control = match self.fire_station_map.get_tile_at(position) {
            Some(v) => *v,
            None => {
                return Err(String::from_str("Simulation.do_fire: cannot get fire control efficience"));
            },
        };
        let rate: i16 = if 0 <= control && control <= 19 {
            3
        } else if 20 <= control && control <= 99 {
            2
        } else if control > 100 {
            1
        } else {
            10
        };
        // should we put out the fire?
        if rng.get_random(rate) == 0x00 {
            proof {
                map.lemma_tile_at_cells(*position);
            }
            if map.get_tile_at(position).is_none() {
                return Err(String::from_str("Simulation.do_fire: cannot get tile"));
            }
            let rubble = Tile::from_raw(Self::random_rubble_tile_value(rng))?;
            proof {
                Tile::lemma_of_raw(rubble);
            }
            map.set_tile_at(position, rubble);
        }
        Ok(())
    }
}


impl Simulation {
    /// Handle a rail track: count it, maybe start a train, and let the track
    /// wear out when the road budget is short (see `rail_decay`).
    fn do_rail(
        &mut self,
        rng: &mut MicropolisRandom,
        map: &mut TileMap,
        sprites: &mut ActiveSpritesList,
        position: &MapPosition,
        total_population: u32,
    ) -> (r: Result<(), String>)
        requires
            tile_fits(*position),
            old(self).statistics.rail_total < u16::MAX,
        ensures
            final(self).statistics == (SimulationStatistics {
                rail_total: (old(self).statistics.rail_total + 1) as u16,
                ..old(self).statistics
            }),
            final(sprites).cycle() == old(sprites).cycle(),
            total_population <= 20 || first_active(old(sprites).sprites(), SpriteType::Train) is Some
                ==> *final(sprites) == *old(sprites),
            !(total_population <= 20 || first_active(old(sprites).sprites(), SpriteType::Train) is Some)
                ==> {
                let next = lcg_next(old(rng).state());
                &&& trunc_rem(draw_bits(next), 26) != 0 ==> *final(sprites) == *old(sprites)
                &&& trunc_rem(draw_bits(next), 26) == 0 ==> sprite_made(
                    old(sprites).sprites(),
                    final(sprites).sprites(),
                    SpriteType::Train,
                    pixel_of(*position, TRAIN_GROOVE_X as int, TRAIN_GROOVE_Y as int),
                )
            },
            match rail_decay(
                old(map).cells(),
                old(map).strategy(),
                *position,
                train_state(old(rng).state(), old(sprites).sprites(), total_population),
                old(self).parameters.effects().0 as int,
            ) {
                None => r is Err,
                Some((cells, state)) => r is Ok && final(map).cells() == cells && final(rng).state() == state,
            },
            final(map).strategy() == old(map).strategy(),
            final(rng).creation_seed() == old(rng).creation_seed(),
            final(self).rate_of_growth == old(self).rate_of_growth,
            final(self).fire_station_map == old(self).fire_station_map,
            final(self).parameters == old(self).parameters,
    {
        self.statistics.rail_total = self.statistics.rail_total + 1;
        generate_train(rng, sprites, position, total_population)?;
        let road_effect = self.parameters.get_road_effect();
        if road_effect >= (15 * MAX_ROAD_EFFECT / 16) {
            return Ok(());
        }
        // rail deteriorates if not enough budget
        let draw = rng.get_random_16();
        proof {
            lemma_i16_low_bits(draw);
        }
        if draw & 0x01FF != 0x00 {
            proof {
                map.lemma_tile_at_cells(*position);
            }
            let tile = match map.get_tile_at(position) {
                Some(t) => *t,
                None => {
                    return Err(String::from_str("Simulation.do_rail: cannot get tile"));
                },
            };
            if tile.get_raw() & TILE_CONDUCT_BIT != 0x00 {
                let draw2 = rng.get_random_16();
                proof {
                    lemma_i16_low_bits(draw2);
                }
                if road_effect < (draw2 as u64) & 31 {
                    let tile_value = tile.get_raw() & TILE_LOW_MASK;
                    proof {
                        lemma_u16_tile_bits(tile.raw());
                    }
                    let raw = if tile_value < TileType::UnderwaterHorizontalRail.raw_value() {
                        TileType::River.raw_value()
                    } else {
                        Self::random_rubble_tile_value(rng)
                    };
                    let mut worn = tile;
                    worn.set_raw(raw);
                    proof {
                        Tile::lemma_of_raw(worn);
                    }
                    map.set_tile_at(position, worn);
                }
            }
        }
        Ok(())
    }
}


impl Simulation {
    /// Decrease the rates of growth: each value of the map moves one step
    /// towards zero, within -200 and 200 (the positions read are those of
    /// the map's own size, mapped to its blocks).
    fn decrease_rate_of_growth_map(&mut self)
        requires
            old(self).rate_of_growth.width() < 0x4000_0000,
            old(self).rate_of_growth.height() < 0x4000_0000,
            covers_positions(
                old(self).rate_of_growth.cells(),
                old(self).rate_of_growth.strategy(),
                1,
                old(self).rate_of_growth.width() as int,
                old(self).rate_of_growth.height() as int,
            ),
        ensures
            final(self).rate_of_growth.cells() == update_sweep(
                old(self).rate_of_growth.cells(),
                old(self).rate_of_growth.strategy(),
                |v: i16| growth_decay(v),
                1,
                old(self).rate_of_growth.width() as int,
                old(self).rate_of_growth.height() as int,
            ),
            final(self).rate_of_growth.strategy() == old(self).rate_of_growth.strategy(),
            same_shape(final(self).rate_of_growth.cells(), old(self).rate_of_growth.cells()),
            final(self).statistics == old(self).statistics,
            final(self).fire_station_map == old(self).fire_station_map,
            final(self).parameters == old(self).parameters,
            *final(self) == (Simulation { rate_of_growth: final(self).rate_of_growth, ..*old(self) }),
    {
        let bounds = self.rate_of_growth.bounds();
        let w = bounds.get_width();
        let h = bounds.get_height();
        let ghost f = |v: i16| growth_decay(v);
        let ghost strategy = self.rate_of_growth.strategy();
        let ghost start = self.rate_of_growth.cells();
        let mut x: usize = 0;
        while x < w
            invariant
                *self == (Simulation { rate_of_growth: self.rate_of_growth, ..*old(self) }),
                x <= w,
                w == old(self).rate_of_growth.width(),
                h == old(self).rate_of_growth.height(),
                w < 0x4000_0000,
                h < 0x4000_0000,
                f == (|v: i16| growth_decay(v)),
                strategy == old(self).rate_of_growth.strategy(),
                start == old(self).rate_of_growth.cells(),
                self.rate_of_growth.strategy() == strategy,
                covers_positions(start, strategy, 1, w as int, h as int),
                same_shape(self.rate_of_growth.cells(), start),
                self.rate_of_growth.cells() == update_sweep(start, strategy, f, 1, x as int, h as int),
                self.statistics == old(self).statistics,
                self.fire_station_map == old(self).fire_station_map,
                self.parameters == old(self).parameters,
            decreases w - x,
        {
            let ghost column_start = self.rate_of_growth.cells();
            let mut y: usize = 0;
            while y < h
                invariant
                    *self == (Simulation { rate_of_growth: self.rate_of_growth, ..*old(self) }),
                    y <= h,
                    x < w,
                    w < 0x4000_0000,
                    h < 0x4000_0000,
                    strategy == old(self).rate_of_growth.strategy(),
                    self.rate_of_growth.strategy() == strategy,
                    covers_positions(start, strategy, 1, w as int, h as int),
                    same_shape(self.rate_of_growth.cells(), start),
                    same_shape(column_start, start),
                    f == (|v: i16| growth_decay(v)),
                    self.rate_of_growth.cells() == update_column(column_start, strategy, f, 1, x as int, y as int),
                    self.statistics == old(self).statistics,
                    self.fire_station_map == old(self).fire_station_map,
                    self.parameters == old(self).parameters,
                decreases h - y,
            {
                let position = MapPosition::new(x as i32, y as i32);
                proof {
                    assert(grid_value_at(start, strategy, MapPosition { x: (x * 1) as i32, y: (y * 1) as i32 }) is Some);
                    assert(MapPosition { x: (x * 1) as i32, y: (y * 1) as i32 } == position);
                    lemma_same_shape_values(self.rate_of_growth.cells(), start, strategy, position);
                    self.rate_of_growth.lemma_tile_at_cells(position);
                }
                let z = match self.rate_of_growth.get_tile_at(&position) {
                    Some(v) => *v,
                    None => vstd::pervasive::unreached(),
                };
                let decayed: i16 = if z > 0 {
                    clamp(z as i64 - 1, -200, 200) as i16
                } else if z < 0 {
                    clamp(z as i64 + 1, -200, 200) as i16
                } else {
                    z
                };
                let ghost before = self.rate_of_growth.cells();
                self.rate_of_growth.set_tile_at(&position, decayed);
                proof {
                    lemma_write_cell_shape(before, strategy, position, decayed);
                    assert(decayed == f(z));
                }
                y = y + 1;
            }
            x = x + 1;
        }
    }

    /// Fade the traffic: each density of the traffic map (read at the
    /// positions of its blocks over the map) loses 24, or 34 above 200,
    /// when above 24.
    fn decrease_traffic_map(map: &TileMap, traffic: &mut CityTraffic)
        requires
            map.width() < 0x4000_0000,
            map.height() < 0x4000_0000,
            old(traffic).density().strategy() == MapClusteringStrategy::BlockSize2,
            covers_positions(
                old(traffic).density().cells(),
                MapClusteringStrategy::BlockSize2,
                2,
                (map.width() as int + 1) / 2,
                (map.height() as int + 1) / 2,
            ),
        ensures
            final(traffic).density().cells() == update_sweep(
                old(traffic).density().cells(),
                MapClusteringStrategy::BlockSize2,
                |z: u8| traffic_decay(z),
                2,
                (map.width() as int + 1) / 2,
                (map.height() as int + 1) / 2,
            ),
            final(traffic).density().strategy() == old(traffic).density().strategy(),
            final(traffic).wf() == old(traffic).wf(),
            final(traffic).pointer() == old(traffic).pointer(),
            final(traffic).stack() == old(traffic).stack(),
    {
        let map_bounds = map.bounds();
        let traffic_density_map = traffic.get_density_map_mut();
        let block: usize = 2;
        let w = (map_bounds.get_width() + 1) / block;
        let h = (map_bounds.get_height() + 1) / block;
        let ghost f = |z: u8| traffic_decay(z);
        let ghost strategy = MapClusteringStrategy::BlockSize2;
        let ghost start = traffic_density_map.cells();
        let mut x: usize = 0;
        while x < w
            invariant
                x <= w,
                block == 2,
                w == (map.width() as int + 1) / 2,
                h == (map.height() as int + 1) / 2,
                w < 0x4000_0000,
                h < 0x4000_0000,
                f == (|z: u8| traffic_decay(z)),
                strategy == MapClusteringStrategy::BlockSize2,
                traffic_density_map.strategy() == strategy,
                covers_positions(start, strategy, 2, w as int, h as int),
                same_shape(traffic_density_map.cells(), start),
                traffic_density_map.cells() == update_sweep(start, strategy, f, 2, x as int, h as int),
            decreases w - x,
        {
            let ghost column_start = traffic_density_map.cells();
            let mut y: usize = 0;
            while y < h
                invariant
                    y <= h,
                    x < w,
                    block == 2,
                    w < 0x4000_0000,
                    h < 0x4000_0000,
                    strategy == MapClusteringStrategy::BlockSize2,
                    traffic_density_map.strategy() == strategy,
                    covers_positions(start, strategy, 2, w as int, h as int),
                    same_shape(traffic_density_map.cells(), start),
                    same_shape(column_start, start),
                    f == (|z: u8| traffic_decay(z)),
                    traffic_density_map.cells() == update_column(column_start, strategy, f, 2, x as int, y as int),
                decreases h - y,
            {
                let position = MapPosition::new((x * block) as i32, (y * block) as i32);
                proof {
                    assert(grid_value_at(start, strategy, MapPosition { x: (x * 2) as i32, y: (y * 2) as i32 }) is Some);
                    lemma_same_shape_values(traffic_density_map.cells(), start, strategy, position);
                    traffic_density_map.lemma_tile_at_cells(position);
                }
                let z = match traffic_density_map.get_tile_at(&position) {
                    Some(v) => *v,
                    None => vstd::pervasive::unreached(),
                };
                if z != 0 {
                    let faded: u8 = if z <= 24 {
                        z
                    } else if z > 200 {
                        z - 34
                    } else {
                        z - 24
                    };
                    let ghost before = traffic_density_map.cells();
                    traffic_density_map.set_tile_at(&position, faded);
                    proof {
                        lemma_write_cell_shape(before, strategy, position, faded);
                        assert(faded == f(z));
                    }
                } else {
                    proof {
                        assert(f(z) == z);
                        lemma_write_same(traffic_density_map.cells(), strategy, position, z);
                    }
                }
                y = y + 1;
            }
            x = x + 1;
        }
    }
}


impl Simulation {
    /// Scan one tile (see `scan_tile`).
    fn scan_tile_at(
        &mut self,
        rng: &mut MicropolisRandom,
        map: &mut TileMap,
        sprites: &mut ActiveSpritesList,
        disasters: &mut CityDisasters,
        position: &MapPosition,
        Ghost(explosions): Ghost<Seq<MapPosition>>,
    ) -> (r: Result<(), String>)
        requires
            tile_fits(*position),
            growth_bounded(old(self).rate_of_growth.cells()),
            !(scan_tile(
                ScanState {
                    cells: old(map).cells(),
                    rng: old(rng).state(),
                    growth: old(self).rate_of_growth.cells(),
                    explosions,
                    fires: old(self).statistics.fire_station_count as int,
                },
                old(map).strategy(),
                old(self).rate_of_growth.strategy(),
                old(self).fire_station_map,
                old(disasters).flooding() > 0,
                *position,
            ) is Aborted),
        ensures
            match scan_tile(
                ScanState {
                    cells: old(map).cells(),
                    rng: old(rng).state(),
                    growth: old(self).rate_of_growth.cells(),
                    explosions,
                    fires: old(self).statistics.fire_station_count as int,
                },
                old(map).strategy(),
                old(self).rate_of_growth.strategy(),
                old(self).fire_station_map,
                old(disasters).flooding() > 0,
                *position,
            ) {
                ScanOutcome::Running(n) => {
                    &&& r is Ok
                    &&& final(map).cells() == n.cells
                    &&& final(rng).state() == n.rng
                    &&& final(self).rate_of_growth.cells() == n.growth
                    &&& final(self).statistics.fire_station_count == n.fires
                    &&& n.explosions.len() >= explosions.len()
                    &&& n.explosions.subrange(0, explosions.len() as int) == explosions
                    &&& explosions_added(
                        old(sprites).sprites(),
                        final(sprites).sprites(),
                        n.explosions.subrange(explosions.len() as int, n.explosions.len() as int),
                    )
                },
                _ => r is Err,
            },
            growth_bounded(final(self).rate_of_growth.cells()),
            final(self).rate_of_growth.strategy() == old(self).rate_of_growth.strategy(),
            final(map).strategy() == old(map).strategy(),
            final(rng).creation_seed() == old(rng).creation_seed(),
            final(sprites).cycle() == old(sprites).cycle(),
            final(self).statistics == (SimulationStatistics {
                fire_station_count: final(self).statistics.fire_station_count,
                ..old(self).statistics
            }),
            final(self).fire_station_map == old(self).fire_station_map,
            final(self).parameters == old(self).parameters,
            *final(disasters) == *old(disasters),
            *final(self) == (Simulation { rate_of_growth: final(self).rate_of_growth, statistics: final(self).statistics, ..*old(self) }),
    {
        let ghost o = sprites.sprites();
        proof {
            assert(o.subrange(0, o.len() as int) =~= o);
            assert(explosions.subrange(0, explosions.len() as int) =~= explosions);
            assert(explosions.subrange(explosions.len() as int, explosions.len() as int) =~= Seq::<MapPosition>::empty());
            map.lemma_tile_at_cells(*position);
        }
        let tile = match map.get_tile_at(position) {
            Some(t) => *t,
            None => vstd::pervasive::unreached(),
        };
        let tile_type = match tile.get_type() {
            Some(k) => *k,
            None => {
                return Err(String::from_str("Simulation.scan_map_section invalid tile"));
            },
        };
        let code = match tile_type.to_u16() {
            Some(c) => c,
            None => {
                return Err(String::from_str("Simulation.scan_map_section invalid tile type"));
            },
        };
        if code < TileType::Flood.raw_value() || code >= TileType::HorizontalBridge.raw_value() {
            return Ok(());
        }
        if code >= TileType::Fire.raw_value() {
            self.statistics.fire_station_count = self.statistics.fire_station_count + 1;
            let draw = rng.get_random_16();
            proof {
                lemma_i16_low_bits(draw);
            }
            if draw & 0x03 == 0x00 {
                // 1 in 4 times
                let ghost before = sprites.sprites();
                self.do_fire(rng, map, sprites, position)?;
                proof {
                    let f = fire_result(
                        FireState {
                            cells: old(map).cells(),
                            rng: lcg_next(old(rng).state()),
                            growth: old(self).rate_of_growth.cells(),
                            explosions: Seq::empty(),
                        },
                        old(map).strategy(),
                        old(self).rate_of_growth.strategy(),
                        old(self).fire_station_map,
                        *position,
                    ).unwrap();
                    let n = explosions + f.explosions;
                    assert(n.subrange(0, explosions.len() as int) =~= explosions);
                    assert(n.subrange(explosions.len() as int, n.len() as int) =~= f.explosions);
                }
            }
            return Ok(());
        }
        if code < TileType::Radioactive.raw_value() {
            disasters.do_flood(rng, map, position)?;
        } else {
            Self::do_radioactive_tile(rng, map, position)?;
        }
        Ok(())
    }

    /// Scan the first `map_height` tiles of column `x` (see `scan_column`).
    #[verifier::spinoff_prover]
    #[verifier::rlimit(50)]
    fn scan_column_of(
        &mut self,
        rng: &mut MicropolisRandom,
        map: &mut TileMap,
        sprites: &mut ActiveSpritesList,
        disasters: &mut CityDisasters,
        x: usize,
        map_height: usize,
        Ghost(explosions): Ghost<Seq<MapPosition>>,
    ) -> (r: Result<(), String>)
        requires
            x <= 0x00F0_0000,
            map_height <= 0x00F0_0000,
            growth_bounded(old(self).rate_of_growth.cells()),
            !(scan_column(
                ScanOutcome::Running(
                    ScanState {
                        cells: old(map).cells(),
                        rng: old(rng).state(),
                        growth: old(self).rate_of_growth.cells(),
                        explosions,
                        fires: old(self).statistics.fire_station_count as int,
                    },
                ),
                old(map).strategy(),
                old(self).rate_of_growth.strategy(),
                old(self).fire_station_map,
                old(disasters).flooding() > 0,
                x as int,
                map_height as int,
            ) is Aborted),
        ensures
            match scan_column(
                ScanOutcome::Running(
                    ScanState {
                        cells: old(map).cells(),
                        rng: old(rng).state(),
                        growth: old(self).rate_of_growth.cells(),
                        explosions,
                        fires: old(self).statistics.fire_station_count as int,
                    },
                ),
                old(map).strategy(),
                old(self).rate_of_growth.strategy(),
                old(self).fire_station_map,
                old(disasters).flooding() > 0,
                x as int,
                map_height as int,
            ) {
                ScanOutcome::Running(n) => {
                    &&& r is Ok
                    &&& final(map).cells() == n.cells
                    &&& final(rng).state() == n.rng
                    &&& final(self).rate_of_growth.cells() == n.growth
                    &&& final(self).statistics.fire_station_count == n.fires
                    &&& n.explosions.len() >= explosions.len()
                    &&& n.explosions.subrange(0, explosions.len() as int) == explosions
                    &&& explosions_added(
                        old(sprites).sprites(),
                        final(sprites).sprites(),
                        n.explosions.subrange(explosions.len() as int, n.explosions.len() as int),
                    )
                },
                _ => r is Err,
            },
            growth_bounded(final(self).rate_of_growth.cells()),
            final(self).rate_of_growth.strategy() == old(self).rate_of_growth.strategy(),
            final(map).strategy() == old(map).strategy(),
            final(rng).creation_seed() == old(rng).creation_seed(),
            final(sprites).cycle() == old(sprites).cycle(),
            final(self).statistics == (SimulationStatistics {
                fire_station_count: final(self).statistics.fire_station_count,
                ..old(self).statistics
            }),
            final(self).fire_station_map == old(self).fire_station_map,
            final(self).parameters == old(self).parameters,
            *final(disasters) == *old(disasters),
            *final(self) == (Simulation { rate_of_growth: final(self).rate_of_growth, statistics: final(self).statistics, ..*old(self) }),
    {
        let ghost strategy = map.strategy();
        let ghost growth_strategy = self.rate_of_growth.strategy();
        let ghost stations = self.fire_station_map;
        let ghost flooding = disasters.flooding() > 0;
        let ghost o0 = ScanOutcome::Running(
            ScanState {
                cells: map.cells(),
                rng: rng.state(),
                growth: self.rate_of_growth.cells(),
                explosions,
                fires: self.statistics.fire_station_count as int,
            },
        );
        let ghost mut current: Seq<MapPosition> = explosions;
        proof {
            assert(sprites.sprites().subrange(0, sprites.sprites().len() as int) =~= sprites.sprites());
            assert(explosions.subrange(0, explosions.len() as int) =~= explosions);
            assert(explosions.subrange(explosions.len() as int, explosions.len() as int) =~= Seq::<MapPosition>::empty());
        }
        let mut y: usize = 0;
        while y < map_height
            invariant
                *self == (Simulation { rate_of_growth: self.rate_of_growth, statistics: self.statistics, ..*old(self) }),
                y <= map_height,
                x <= 0x00F0_0000,
                map_height <= 0x00F0_0000,
                strategy == old(map).strategy(),
                growth_strategy == old(self).rate_of_growth.strategy(),
                stations == old(self).fire_station_map,
                flooding == (old(disasters).flooding() > 0),
                o0 == ScanOutcome::Running(
                    ScanState {
                        cells: old(map).cells(),
                        rng: old(rng).state(),
                        growth: old(self).rate_of_growth.cells(),
                        explosions,
                        fires: old(self).statistics.fire_station_count as int,
                    },
                ),
                !(scan_column(o0, strategy, growth_strategy, stations, flooding, x as int, map_height as int) is Aborted),
                map.strategy() == strategy,
                self.rate_of_growth.strategy() == growth_strategy,
                self.fire_station_map == stations,
                *disasters == *old(disasters),
                scan_column(o0, strategy, growth_strategy, stations, flooding, x as int, y as int)
                    == ScanOutcome::Running(
                    ScanState {
                        cells: map.cells(),
                        rng: rng.state(),
                        growth: self.rate_of_growth.cells(),
                        explosions: current,
                        fires: self.statistics.fire_station_count as int,
                    },
                ),
                current.len() >= explosions.len(),
                current.subrange(0, explosions.len() as int) == explosions,
                explosions_added(
                    old(sprites).sprites(),
                    sprites.sprites(),
                    current.subrange(explosions.len() as int, current.len() as int),
                ),
                growth_bounded(self.rate_of_growth.cells()),
                rng.creation_seed() == old(rng).creation_seed(),
                sprites.cycle() == old(sprites).cycle(),
                self.statistics == (SimulationStatistics {
                    fire_station_count: self.statistics.fire_station_count,
                    ..old(self).statistics
                }),
                self.parameters == old(self).parameters,
            decreases map_height - y,
        {
            let position = MapPosition::new(x as i32, y as i32);
            let ghost here = ScanState {
                cells: map.cells(),
                rng: rng.state(),
                growth: self.rate_of_growth.cells(),
                explosions: current,
                fires: self.statistics.fire_station_count as int,
            };
            let ghost sprites_before = sprites.sprites();
            proof {
                assert(scan_column(o0, strategy, growth_strategy, stations, flooding, x as int, y + 1)
                    == scan_tile(here, strategy, growth_strategy, stations, flooding, position));
                if scan_tile(here, strategy, growth_strategy, stations, flooding, position) is Aborted {
                    lemma_scan_column_aborted(o0, strategy, growth_strategy, stations, flooding, x as int, y + 1, map_height as int);
                }
            }
            match self.scan_tile_at(rng, map, sprites, disasters, &position, Ghost(current)) {
                Ok(_) => {},
                Err(e) => {
                    proof {
                        assert(scan_column(o0, strategy, growth_strategy, stations, flooding, x as int, y + 1) is Failed);
                        lemma_scan_column_failed(o0, strategy, growth_strategy, stations, flooding, x as int, y + 1, map_height as int);
                    }
                    return Err(e);
                },
            }
            proof {
                if let ScanOutcome::Running(n) = scan_tile(here, strategy, growth_strategy, stations, flooding, position) {
                    let added = n.explosions.subrange(current.len() as int, n.explosions.len() as int);
                    let before_added = current.subrange(explosions.len() as int, current.len() as int);
                    lemma_explosions_chain(old(sprites).sprites(), sprites_before, sprites.sprites(), before_added, added);
                    assert(before_added + added =~= n.explosions.subrange(explosions.len() as int, n.explosions.len() as int));
                    assert(n.explosions.subrange(0, explosions.len() as int) =~= explosions) by {
                        assert forall|i: int| 0 <= i < explosions.len() implies n.explosions[i] == explosions[i] by {
                            assert(n.explosions[i] == n.explosions.subrange(0, current.len() as int)[i]);
                            assert(current[i] == current.subrange(0, explosions.len() as int)[i]);
                        }
                    }
                    current = n.explosions;
                }
            }
            y = y + 1;
        }
        Ok(())
    }

    /// Scan the columns `x1` (included) to `x2` (excluded) of the map (see
    /// `scan_columns`).
    #[verifier::spinoff_prover]
    #[verifier::rlimit(100)]
    fn scan_map_section(
        &mut self,
        rng: &mut MicropolisRandom,
        map: &mut TileMap,
        sprites: &mut ActiveSpritesList,
        disasters: &mut CityDisasters,
        x1: usize,
        x2: usize,
    ) -> (r: Result<(), String>)
        requires
            x2 <= 0x00F0_0000,
            old(map).height() <= 0x00F0_0000,
            growth_bounded(old(self).rate_of_growth.cells()),
            !(scan_columns(
                ScanOutcome::Running(
                    ScanState {
                        cells: old(map).cells(),
                        rng: old(rng).state(),
                        growth: old(self).rate_of_growth.cells(),
                        explosions: Seq::empty(),
                        fires: old(self).statistics.fire_station_count as int,
                    },
                ),
                old(map).strategy(),
                old(self).rate_of_growth.strategy(),
                old(self).fire_station_map,
                old(disasters).flooding() > 0,
                x1 as int,
                if x1 < x2 { x2 - x1 } else { 0 },
                old(map).height() as int,
            ) is Aborted),
        ensures
            match scan_columns(
                ScanOutcome::Running(
                    ScanState {
                        cells: old(map).cells(),
                        rng: old(rng).state(),
                        growth: old(self).rate_of_growth.cells(),
                        explosions: Seq::empty(),
                        fires: old(self).statistics.fire_station_count as int,
                    },
                ),
                old(map).strategy(),
                old(self).rate_of_growth.strategy(),
                old(self).fire_station_map,
                old(disasters).flooding() > 0,
                x1 as int,
                if x1 < x2 { x2 - x1 } else { 0 },
                old(map).height() as int,
            ) {
                ScanOutcome::Running(n) => {
                    &&& r is Ok
                    &&& final(map).cells() == n.cells
                    &&& final(rng).state() == n.rng
                    &&& final(self).rate_of_growth.cells() == n.growth
                    &&& final(self).statistics.fire_station_count == n.fires
                    &&& explosions_added(old(sprites).sprites(), final(sprites).sprites(), n.explosions)
                },
                _ => r is Err,
            },
            growth_bounded(final(self).rate_of_growth.cells()),
            final(self).rate_of_growth.strategy() == old(self).rate_of_growth.strategy(),
            final(map).strategy() == old(map).strategy(),
            final(rng).creation_seed() == old(rng).creation_seed(),
            final(sprites).cycle() == old(sprites).cycle(),
            final(self).statistics == (SimulationStatistics {
                fire_station_count: final(self).statistics.fire_station_count,
                ..old(self).statistics
            }),
            final(self).fire_station_map == old(self).fire_station_map,
            final(self).parameters == old(self).parameters,
            *final(disasters) == *old(disasters),
            *final(self) == (Simulation { rate_of_growth: final(self).rate_of_growth, statistics: final(self).statistics, ..*old(self) }),
    {
        let map_height = map.bounds().get_height();
        let ghost strategy = map.strategy();
        let ghost growth_strategy = self.rate_of_growth.strategy();
        let ghost stations = self.fire_station_map;
        let ghost flooding = disasters.flooding() > 0;
        let ghost o0 = ScanOutcome::Running(
            ScanState {
                cells: map.cells(),
                rng: rng.state(),
                growth: self.rate_of_growth.cells(),
                explosions: Seq::empty(),
                fires: self.statistics.fire_station_count as int,
            },
        );
        let ghost total: int = if x1 < x2 { x2 - x1 } else { 0 };
        let ghost mut explosions: Seq<MapPosition> = Seq::empty();
        proof {
            assert(sprites.sprites().subrange(0, sprites.sprites().len() as int) =~= sprites.sprites());
        }
        if x2 <= x1 {
            return Ok(());
        }
        let mut x: usize = x1;
        while x < x2
            invariant
                *self == (Simulation { rate_of_growth: self.rate_of_growth, statistics: self.statistics, ..*old(self) }),
                x1 <= x <= x2,
                x2 <= 0x00F0_0000,
                map_height == old(map).height(),
                map_height <= 0x00F0_0000,
                total == x2 - x1,
                strategy == old(map).strategy(),
                growth_strategy == old(self).rate_of_growth.strategy(),
                stations == old(self).fire_station_map,
                flooding == (old(disasters).flooding() > 0),
                o0 == ScanOutcome::Running(
                    ScanState {
                        cells: old(map).cells(),
                        rng: old(rng).state(),
                        growth: old(self).rate_of_growth.cells(),
                        explosions: Seq::empty(),
                        fires: old(self).statistics.fire_station_count as int,
                    },
                ),
                !(scan_columns(o0, strategy, growth_strategy, stations, flooding, x1 as int, total, map_height as int) is Aborted),
                map.strategy() == strategy,
                self.rate_of_growth.strategy() == growth_strategy,
                self.fire_station_map == stations,
                *disasters == *old(disasters),
                scan_columns(o0, strategy, growth_strategy, stations, flooding, x1 as int, x - x1, map_height as int)
                    == ScanOutcome::Running(
                    ScanState {
                        cells: map.cells(),
                        rng: rng.state(),
                        growth: self.rate_of_growth.cells(),
                        explosions,
                        fires: self.statistics.fire_station_count as int,
                    },
                ),
                explosions_added(old(sprites).sprites(), sprites.sprites(), explosions),
                growth_bounded(self.rate_of_growth.cells()),
                rng.creation_seed() == old(rng).creation_seed(),
                sprites.cycle() == old(sprites).cycle(),
                self.statistics == (SimulationStatistics {
                    fire_station_count: self.statistics.fire_station_count,
                    ..old(self).statistics
                }),
                self.parameters == old(self).parameters,
            decreases x2 - x,
        {
            let ghost k = (x - x1) as int;
            let ghost column_start = scan_columns(o0, strategy, growth_strategy, stations, flooding, x1 as int, k, map_height as int);
            let ghost sprites_before = sprites.sprites();
            proof {
                assert(scan_columns(o0, strategy, growth_strategy, stations, flooding, x1 as int, k + 1, map_height as int)
                    == scan_column(column_start, strategy, growth_strategy, stations, flooding, x as int, map_height as int));
                if scan_column(column_start, strategy, growth_strategy, stations, flooding, x as int, map_height as int) is Aborted {
                    lemma_scan_columns_stuck(o0, strategy, growth_strategy, stations, flooding, x1 as int, k + 1, total, map_height as int);
                }
            }
            match self.scan_column_of(rng, map, sprites, disasters, x, map_height, Ghost(explosions)) {
                Ok(_) => {},
                Err(e) => {
                    proof {
                        lemma_scan_columns_stuck(o0, strategy, growth_strategy, stations, flooding, x1 as int, k + 1, total, map_height as int);
                    }
                    return Err(e);
                },
            }
            proof {
                if let ScanOutcome::Running(n) = scan_column(column_start, strategy, growth_strategy, stations, flooding, x as int, map_height as int) {
                    let added = n.explosions.subrange(explosions.len() as int, n.explosions.len() as int);
                    lemma_explosions_chain(old(sprites).sprites(), sprites_before, sprites.sprites(), explosions, added);
                    assert(explosions + added =~= n.explosions);
                    explosions = n.explosions;
                }
            }
            x = x + 1;
        }
        Ok(())
    }
}


/// Population density scans run every that many cycles, by simulation speed.
pub open spec fn density_scan_period(speed_index: int) -> u16 {
    if speed_index == 0 {
        1
    } else if speed_index == 1 {
        9
    } else {
        19
    }
}

/// Can the population density scan run on the city with this simulator
/// (see `population_density_scan`)?
pub closed spec fn density_scan_fits(sim: Simulation, city: City) -> bool {
    let map = city.world();
    let scanner = sim.scanner;
    let density = city.city_population().density();
    let rates = sim.commercial_rate_map;
    let s1 = scanner.temp1().strategy();
    let s2 = scanner.temp2().strategy();
    let f = density_filled(map, scanner.temp1().cells(), s1);
    let c = density_smoothed(f.cells, s1, scanner.temp2().cells(), s2, scanner.dither()).1;
    &&& map.width() < 0x10_0000
    &&& map.height() < 0x10_0000
    &&& forall|x: int, y: int| 0 <= x < map.width() && 0 <= y < map.height() ==> #[trigger] center_readable(map, x, y)
    &&& density_smoothing_fits(f.cells, s1, scanner.temp2().cells(), s2, scanner.dither())
    &&& covers(grid_map(c, s2), density.width() as int, density.height() as int)
    &&& forall|x: int, y: int|
        0 <= x < density.width() && 0 <= y < density.height() ==> #[trigger] value_at(grid_map(c, s2), x, y) <= 127
    &&& density.width() < 0x4000_0000
    &&& density.height() < 0x4000_0000
    &&& 8 * rates.width() <= usize::MAX
    &&& 8 * rates.height() <= usize::MAX
    &&& forall|x: int, y: int|
        0 <= x < rates.width() && 0 <= y < rates.height() ==> distance_fits(sim.city_center, #[trigger] block8_position(x, y))
}

/// Power scans run every that many cycles, by simulation speed.
pub open spec fn power_scan_period(speed_index: int) -> u16 {
    if speed_index == 0 {
        2
    } else if speed_index == 1 {
        4
    } else {
        5
    }
}

/// Pollution, terrain and land value scans run every that many cycles, by
/// simulation speed.
pub open spec fn pollution_scan_period(speed_index: int) -> u16 {
    if speed_index == 0 {
        2
    } else if speed_index == 1 {
        7
    } else {
        17
    }
}

/// Index of a simulation speed (1 to 3 and above) in the speed tables.
pub open spec fn speed_index_of(speed: u8) -> int {
    if speed - 1 > 2 {
        2
    } else {
        speed - 1
    }
}

/// On a square map, the sections of phases 1 to 8 cover every column
/// exactly once: the first starts at column 0, each ends where the next
/// starts, and the last ends at the width.
pub proof fn law_sections_cover_columns(map: TileMap)
    requires
        map.width() == map.height(),
    ensures
        section_of(1, map).0 == 0,
        section_of(8, map).1 == map.width(),
        forall|p: int| 1 <= p < 8 ==> #[trigger] section_of(p, map).1 == section_of(p + 1, map).0,
        forall|p: int| 1 <= p <= 8 ==> #[trigger] section_of(p, map).0 <= section_of(p, map).1,
{
    let w = map.width() as int;
    assert forall|p: int| 1 <= p <= 8 implies #[trigger] section_of(p, map).0 <= section_of(p, map).1 by {
        assert((p - 1) * w <= p * w) by (nonlinear_arith)
            requires
                w >= 0,
        ;
        vstd::arithmetic::div_mod::lemma_div_is_ordered((p - 1) * w, p * w, 8);
    }
}

/// The first column of the map section that phase `p` (1 to 8) scans, and
/// the column where it stops (computed from the height, as the phase does).
pub open spec fn section_of(p: int, map: TileMap) -> (int, int) {
    ((p - 1) * map.width() / 8, p * map.height() / 8)
}

/// The scan of the section of phase `p` of the city.
pub closed spec fn section_scan(sim: Simulation, p: int, city: City) -> ScanOutcome {
    let (x1, x2) = section_of(p, city.world());
    scan_columns(
        ScanOutcome::Running(
            ScanState {
                cells: city.world().cells(),
                rng: city.generator().state(),
                growth: sim.rate_of_growth.cells(),
                explosions: Seq::empty(),
                fires: sim.statistics.fire_station_count as int,
            },
        ),
        city.world().strategy(),
        sim.rate_of_growth.strategy(),
        sim.fire_station_map,
        city.city_disasters().flooding() > 0,
        x1,
        if x1 < x2 { x2 - x1 } else { 0 },
        city.world().height() as int,
    )
}

impl Simulation {
    /// Can the simulator run its current phase on the city? Phases 1 to 8
    /// (scans of the map), 9 (census and taxes), 10 (decay of the growth and
    /// traffic), 11 (power) and 12 (pollution) are run here; phase 0 needs
    /// the valves and census clearing, phase 13 the crime scan, phase 14 the
    /// population density scan and phase 15 the fire analysis, which this
    /// simulator does not have. The speed of the city is at least 1.
    pub closed spec fn can_simulate(self, city: City) -> bool {
        let p = (self.phase_cycle & 15) as int;
        let map = city.world();
        &&& city.speed() >= 1
        &&& (1 <= p <= 12 || p == 14)
        &&& p == 14 ==> density_scan_fits(self, city)
        &&& 1 <= p <= 8 ==> {
            let (x1, x2) = section_of(p, map);
            &&& map.width() <= 0x00F0_0000
            &&& map.height() <= 0x00F0_0000
            &&& growth_bounded(self.rate_of_growth.cells())
            &&& !(section_scan(self, p, city) is Aborted)
        }
        &&& p == 9 ==> {
            &&& self.census.wf()
            &&& self.statistics.average_crime >= self.statistics.crime_ramp
            &&& self.statistics.average_pollution >= self.statistics.pollution_ramp
            &&& (city.city_population().zones().0 >> 8u16) + self.statistics.faith <= u16::MAX
        }
        &&& p == 10 ==> {
            &&& self.rate_of_growth.width() < 0x4000_0000
            &&& self.rate_of_growth.height() < 0x4000_0000
            &&& covers_positions(
                self.rate_of_growth.cells(),
                self.rate_of_growth.strategy(),
                1,
                self.rate_of_growth.width() as int,
                self.rate_of_growth.height() as int,
            )
            &&& map.width() < 0x4000_0000
            &&& map.height() < 0x4000_0000
            &&& city.city_traffic().density().strategy() == MapClusteringStrategy::BlockSize2
            &&& covers_positions(
                city.city_traffic().density().cells(),
                MapClusteringStrategy::BlockSize2,
                2,
                (map.width() as int + 1) / 2,
                (map.height() as int + 1) / 2,
            )
        }
        &&& p == 11 ==> {
            &&& city.city_power().wf()
            &&& forall|i: int|
                0 <= i < city.city_power().stack().len() ==> #[trigger] position_fits(city.city_power().stack()[i])
            &&& map.width() <= i32::MAX
            &&& map.height() <= i32::MAX
            &&& city.city_power().generators().0 * COAL_POWER_STRENGTH + city.city_power().generators().1
                * NUCLEAR_POWER_STRENGTH <= usize::MAX
        }
    }

    /// What running the current phase of the simulator does (see
    /// `can_simulate`): the phase moves on to the next one (when it did not
    /// fail), and
    /// - phases 1 to 8 scan their section of the map with the city's own
    ///   generator (see `section_scan`), its explosions joining the sprites;
    /// - phase 9 takes the monthly census every 4 time units, and every 48
    ///   the yearly census and the taxes (which clear the cash flow);
    /// - phase 10 lowers the rates of growth (except one cycle in 5) and
    ///   fades the traffic;
    /// - phase 11 scans the power, every few cycles depending on the speed;
    /// - phase 12 walks the land value map, changing nothing.
    pub closed spec fn simulated(
        self,
        after: Simulation,
        city: City,
        city_after: City,
        rng: MicropolisRandom,
        rng_after: MicropolisRandom,
        ok: bool,
    ) -> bool {
        let p = (self.phase_cycle & 15) as int;
        let map = city.world();
        let speed_index = speed_index_of(city.speed());
        &&& ok ==> after.phase_cycle == ((p + 1) % 16) as u8
        &&& rng_after == rng
        &&& city_after.speed() == city.speed()
        &&& city_after.simulation() == city.simulation()
        &&& city_after.clock() == city.clock()
        &&& p != 14 ==> city_after.city_population() == city.city_population()
        &&& after.parameters == self.parameters
        &&& after.fire_station_map == self.fire_station_map
        &&& after.simulation_cycle == self.simulation_cycle
        &&& after.city_time == self.city_time
        &&& after.map_serial == self.map_serial
        &&& after.pass_index == self.pass_index
        &&& 1 <= p <= 8 ==> {
            &&& match section_scan(self, p, city) {
                ScanOutcome::Running(n) => {
                    &&& ok
                    &&& city_after.world().cells() == n.cells
                    &&& city_after.generator().state() == n.rng
                    &&& after.rate_of_growth.cells() == n.growth
                    &&& after.statistics == (SimulationStatistics {
                        fire_station_count: n.fires as u16,
                        ..self.statistics
                    })
                    &&& explosions_added(city.sprites_list().sprites(), city_after.sprites_list().sprites(), n.explosions)
                },
                _ => !ok,
            }
            &&& city_after.world().strategy() == map.strategy()
            &&& city_after.generator().creation_seed() == city.generator().creation_seed()
            &&& city_after.sprites_list().cycle() == city.sprites_list().cycle()
            &&& city_after.city_disasters() == city.city_disasters()
            &&& city_after.city_traffic() == city.city_traffic()
            &&& city_after.city_power() == city.city_power()
            &&& city_after.cash() == city.cash()
            &&& after.census == self.census
        }
        &&& p == 9 ==> {
            let time = city.clock();
            let monthly = time % 4 == 0;
            let yearly = time % 48 == 0;
            &&& ok
            &&& monthly ==> exists|mid: CitySimulationCensus| #![trigger monthly_census_taken(self.census, mid, self.statistics, after.statistics, city.city_population(), city.cash())] {
                &&& monthly_census_taken(
                    self.census,
                    mid,
                    self.statistics,
                    after.statistics,
                    city.city_population(),
                    city.cash(),
                )
                &&& (yearly ==> yearly_census_taken(mid, after.census, city.city_population()))
                &&& (!yearly ==> after.census == mid)
            }
            &&& !monthly ==> after.statistics == self.statistics
            &&& !monthly && yearly ==> yearly_census_taken(self.census, after.census, city.city_population())
            &&& !monthly && !yearly ==> after.census == self.census
            &&& yearly ==> city_after.cash() == 0
            &&& !yearly ==> city_after.cash() == city.cash()
            &&& city_after.world() == map
            &&& city_after.generator() == city.generator()
            &&& city_after.sprites_list() == city.sprites_list()
            &&& city_after.city_disasters() == city.city_disasters()
            &&& city_after.city_traffic() == city.city_traffic()
            &&& city_after.city_power() == city.city_power()
            &&& after.rate_of_growth == self.rate_of_growth
        }
        &&& p == 10 ==> {
            &&& ok
            &&& self.simulation_cycle % 5 != 0 ==> after.rate_of_growth.cells() == update_sweep(
                self.rate_of_growth.cells(),
                self.rate_of_growth.strategy(),
                |v: i16| growth_decay(v),
                1,
                self.rate_of_growth.width() as int,
                self.rate_of_growth.height() as int,
            )
            &&& self.simulation_cycle % 5 == 0 ==> after.rate_of_growth.cells() == self.rate_of_growth.cells()
            &&& after.rate_of_growth.strategy() == self.rate_of_growth.strategy()
            &&& city_after.city_traffic().density().cells() == update_sweep(
                city.city_traffic().density().cells(),
                MapClusteringStrategy::BlockSize2,
                |z: u8| traffic_decay(z),
                2,
                (map.width() as int + 1) / 2,
                (map.height() as int + 1) / 2,
            )
            &&& city_after.city_traffic().density().strategy() == city.city_traffic().density().strategy()
            &&& city_after.city_traffic().pointer() == city.city_traffic().pointer()
            &&& city_after.city_traffic().stack() == city.city_traffic().stack()
            &&& city_after.world() == map
            &&& city_after.generator() == city.generator()
            &&& city_after.sprites_list() == city.sprites_list()
            &&& city_after.city_disasters() == city.city_disasters()
            &&& city_after.city_power() == city.city_power()
            &&& city_after.cash() == city.cash()
            &&& after.statistics == self.statistics
            &&& after.census == self.census
        }
        &&& p == 11 ==> {
            let scanned = self.simulation_cycle % power_scan_period(speed_index) == 0;
            &&& ok
            &&& scanned ==> {
                let r = power_scanned(
                    map,
                    city.city_power().stack(),
                    city.city_power().generators().0 * COAL_POWER_STRENGTH + city.city_power().generators().1
                        * NUCLEAR_POWER_STRENGTH,
                );
                &&& city_after.city_power().wf()
                &&& city_after.city_power().grid().strategy() == MapClusteringStrategy::BlockSize1
                &&& city_after.city_power().grid().cells() == r.cells
                &&& city_after.city_power().stack() == r.stack
                &&& city_after.city_power().generators() == city.city_power().generators()
                &&& city_after.city_power().zone_counts() == city.city_power().zone_counts()
                &&& after.new_power
            }
            &&& !scanned ==> city_after.city_power() == city.city_power() && after.new_power == self.new_power
            &&& city_after.world() == map
            &&& city_after.generator() == city.generator()
            &&& city_after.sprites_list() == city.sprites_list()
            &&& city_after.city_disasters() == city.city_disasters()
            &&& city_after.city_traffic() == city.city_traffic()
            &&& city_after.cash() == city.cash()
            &&& after.statistics == self.statistics
            &&& after.census == self.census
            &&& after.rate_of_growth == self.rate_of_growth
        }
        &&& p == 12 ==> {
            &&& ok
            &&& city_after.world() == map
            &&& city_after.generator() == city.generator()
            &&& city_after.sprites_list() == city.sprites_list()
            &&& city_after.city_disasters() == city.city_disasters()
            &&& city_after.city_traffic() == city.city_traffic()
            &&& city_after.city_power() == city.city_power()
            &&& city_after.cash() == city.cash()
            &&& after.statistics == self.statistics
            &&& after.census == self.census
            &&& after.rate_of_growth == self.rate_of_growth
        }
        &&& p == 14 ==> {
            let scanned = self.simulation_cycle % density_scan_period(speed_index) == 0;
            let scanner = self.scanner;
            let density = city.city_population().density();
            let s1 = scanner.temp1().strategy();
            let s2 = scanner.temp2().strategy();
            let f = density_filled(map, scanner.temp1().cells(), s1);
            let (b, c) = density_smoothed(f.cells, s1, scanner.temp2().cells(), s2, scanner.dither());
            &&& ok
            &&& scanned ==> {
                &&& after.city_center == mass_center(f, map.width() as int, map.height() as int)
                &&& after.scanner.temp1().cells() == b
                &&& after.scanner.temp2().cells() == c
                &&& after.scanner.temp1().strategy() == s1
                &&& after.scanner.temp2().strategy() == s2
                &&& after.scanner.temp3() == scanner.temp3()
                &&& after.scanner.dither() == scanner.dither()
                &&& city_after.city_population().density().cells() == sweep(
                    density.cells(),
                    density.strategy(),
                    doubled(grid_map(c, s2)),
                    density.width() as int,
                    density.height() as int,
                )
                &&& city_after.city_population().density().strategy() == density.strategy()
                &&& city_after.city_population().zones() == city.city_population().zones()
                &&& city_after.city_population().valves() == city.city_population().valves()
                &&& city_after.city_population().caps() == city.city_population().caps()
                &&& city_after.city_population().total() == city.city_population().total()
                &&& city_after.city_population().delta() == city.city_population().delta()
                &&& after.commercial_rate_map.cells() == sweep(
                    self.commercial_rate_map.cells(),
                    self.commercial_rate_map.strategy(),
                    commercial_rate(self.city_center),
                    self.commercial_rate_map.width() as int,
                    self.commercial_rate_map.height() as int,
                )
                &&& after.commercial_rate_map.strategy() == self.commercial_rate_map.strategy()
            }
            &&& !scanned ==> {
                &&& after.city_center == self.city_center
                &&& after.scanner == self.scanner
                &&& after.commercial_rate_map == self.commercial_rate_map
                &&& city_after.city_population() == city.city_population()
            }
            &&& city_after.world() == map
            &&& city_after.generator() == city.generator()
            &&& city_after.sprites_list() == city.sprites_list()
            &&& city_after.city_disasters() == city.city_disasters()
            &&& city_after.city_traffic() == city.city_traffic()
            &&& city_after.city_power() == city.city_power()
            &&& city_after.cash() == city.cash()
            &&& after.statistics == self.statistics
            &&& after.census == self.census
            &&& after.rate_of_growth == self.rate_of_growth
        }
    }

    /// Run the current phase of the simulator, then move on to the next
    /// phase (see `can_simulate` and `simulated`).
    #[verifier::spinoff_prover]
    #[verifier::rlimit(60)]
    fn simulate(&mut self, rng: &mut MicropolisRandom, city: &mut City) -> (r: Result<(), String>)
        requires
            old(self).can_simulate(*old(city)),
        ensures
            old(self).simulated(*final(self), *old(city), *final(city), *old(rng), *final(rng), r is Ok),
    {
        let map_size = city.get_map().bounds();
        let speed = city.get_simulation_speed();
        let speed_index = clamp(speed as i64 - 1, 0, 2) as usize;
        // The simulator has 16 different phases, which we cycle through
        // according to `phase_cycle`, which is incremented and wrapped at the
        // end of this switch.
        let phase = self.phase_cycle & 15;
        self.phase_cycle = phase;
        let ghost mut mid_census = self.census;
        if 1 <= phase && phase <= 8 {
            // Scan 1/8th of the map for each of these 8 phases
            let phase_cycle = phase as usize;
            proof {
                assert(1 <= (old(self).phase_cycle & 15) <= 8);
                assert(map_size.width <= 0x00F0_0000 && map_size.height <= 0x00F0_0000);
                assert((phase_cycle - 1) * map_size.width <= 8 * 0x00F0_0000) by (nonlinear_arith)
                    requires
                        1 <= phase_cycle <= 8,
                        map_size.width <= 0x00F0_0000,
                ;
                assert(phase_cycle * map_size.height <= 8 * 0x00F0_0000) by (nonlinear_arith)
                    requires
                        1 <= phase_cycle <= 8,
                        map_size.height <= 0x00F0_0000,
                ;
            }
            let x1 = (phase_cycle - 1) * map_size.get_width() / 8;
            let x2 = phase_cycle * map_size.get_height() / 8;
            let (city_rng, map, sprites, disasters) = city.scan_parts();
            self.scan_map_section(city_rng, map, sprites, disasters, x1, x2)?;
        } else if phase == 9 {
            let time = city.get_city_time();
            let (population, cash_flow) = city.census_parts();
            let ghost census_before = self.census;
            let ghost statistics_before = self.statistics;
            if time % CENSUS_MONTHLY_FREQUENCY == 0 {
                self.census.take_monthly_census(population, &mut self.statistics, *cash_flow);
            }
            let ghost mid = self.census;
            proof {
                mid_census = mid;
            }
            if time % CENSUS_YEARLY_FREQUENCY == 0 {
                self.census.take_yearly_census(population);
            }
            if time % TAX_FREQUENCY == 0 {
                self.taxes.collect_taxes(cash_flow, &self.statistics);
            }
            proof {
                if time % 4 == 0 {
                    assert({
                        &&& monthly_census_taken(
                            old(self).census,
                            mid,
                            old(self).statistics,
                            self.statistics,
                            old(city).city_population(),
                            old(city).cash(),
                        )
                        &&& (time % 48 == 0 ==> yearly_census_taken(mid, self.census, old(city).city_population()))
                        &&& (time % 48 != 0 ==> self.census == mid)
                    });
                    assert(exists|m: CitySimulationCensus| #![trigger monthly_census_taken(old(self).census, m, old(self).statistics, self.statistics, old(city).city_population(), old(city).cash())] {
                        &&& monthly_census_taken(
                            old(self).census,
                            m,
                            old(self).statistics,
                            self.statistics,
                            old(city).city_population(),
                            old(city).cash(),
                        )
                        &&& (time % 48 == 0 ==> yearly_census_taken(m, self.census, old(city).city_population()))
                        &&& (time % 48 != 0 ==> self.census == m)
                    });
                }
            }
        } else if phase == 10 {
            if self.simulation_cycle % 5 != 0 {
                self.decrease_rate_of_growth_map();
            }
            let (map, traffic) = city.traffic_parts();
            Self::decrease_traffic_map(map, traffic);
        } else if phase == 11 {
            let period: u16 = if speed_index == 0 {
                2
            } else if speed_index == 1 {
                4
            } else {
                5
            };
            if self.simulation_cycle % period == 0 {
                let (map, power) = city.power_parts();
                power.do_power_scan(map);
                self.new_power = true;
            }
        } else if phase == 12 {
            let period: u16 = if speed_index == 0 {
                2
            } else if speed_index == 1 {
                7
            } else {
                17
            };
            if self.simulation_cycle % period == 0 {
                CitySimulationScanner::pollution_terrain_land_value_scan(
                    rng,
                    &self.pollution_density,
                    &self.terrain_density,
                    &self.land_value_map,
                );
            }
        } else {
            let period: u16 = if speed_index == 0 {
                1
            } else if speed_index == 1 {
                9
            } else {
                19
            };
            if self.simulation_cycle % period == 0 {
                let (map, population) = city.population_parts();
                let density_map = population.get_density_map_mut();
                self.city_center = match self.scanner.population_density_scan(
                    map,
                    density_map,
                    &mut self.commercial_rate_map,
                    &self.city_center,
                ) {
                    Ok(center) => center,
                    Err(e) => {
                        return Err(e);
                    },
                };
            }
        }
        self.phase_cycle = (phase + 1) & 15;
        proof {
            if phase == 9 && old(city).clock() % 4 == 0 {
                assert(monthly_census_taken(
                    old(self).census,
                    mid_census,
                    old(self).statistics,
                    self.statistics,
                    old(city).city_population(),
                    old(city).cash(),
                ));
            }
            lemma_u8_low_bits((phase + 1) as u8);
        }
        Ok(())
    }

    /// Number of simulation steps at each screen update.
    pub closed spec fn steps_per_update(self) -> u16 {
        self.speed.sim_steps_per_update
    }

    /// Cycle of the speed counter after one more tick (wrapping at 1024).
    pub closed spec fn next_speed_cycle(self) -> u16 {
        if self.speed_cycle + 1 >= 1024 {
            0
        } else {
            (self.speed_cycle + 1) as u16
        }
    }

    /// The simulator with its speed counter moved on by one tick.
    pub closed spec fn ticked(self) -> Simulation {
        Simulation { speed_cycle: self.next_speed_cycle(), ..self }
    }

    /// Does the simulator run a phase at this tick: at one tick in 5 at one
    /// step per update, one in 3 at two, and at every tick faster?
    pub open spec fn runs_at_tick(self) -> bool {
        let steps = self.steps_per_update();
        let cycle = self.next_speed_cycle();
        steps != 0 && !(steps == 1 && cycle % 5 != 0) && !(steps == 2 && cycle % 3 != 0)
    }

    /// Will the simulator run a phase at the next tick (see `runs_at_tick`)?
    pub fn runs_at_next_tick(&self) -> (r: bool)
        ensures
            r == self.runs_at_tick(),
    {
        let steps = self.speed.get_sim_steps_per_update();
        let cycle: u16 = if self.speed_cycle >= 1023 {
            0
        } else {
            self.speed_cycle + 1
        };
        steps != 0 && !(steps == 1 && cycle % 5 != 0) && !(steps == 2 && cycle % 3 != 0)
    }

    /// The current phase of the simulator (0 to 15).
    pub closed spec fn current_phase(self) -> int {
        (self.phase_cycle & 15) as int
    }

    /// Each phase that runs without failing moves the simulator on to the
    /// next phase, from 15 back to 0.
    pub proof fn law_phase_advances(
        self,
        after: Simulation,
        city: City,
        city_after: City,
        rng: MicropolisRandom,
        rng_after: MicropolisRandom,
    )
        requires
            self.simulated(after, city, city_after, rng, rng_after, true),
        ensures
            after.current_phase() == (self.current_phase() + 1) % 16,
            0 <= after.current_phase() < 16,
    {
        let c = self.phase_cycle;
        let p = (c & 15) as int;
        let q = after.phase_cycle;
        assert(q == ((p + 1) % 16) as u8);
        assert(q < 16u8 ==> q & 15u8 == q) by (bit_vector);
        assert(c & 15u8 <= 15u8) by (bit_vector);
    }

    /// Advance the city simulation by one frame tick: with a speed that
    /// simulates, the speed cycle moves on, and when the simulator runs at
    /// this tick (see `runs_at_tick`) it runs its current phase (see
    /// `simulated`).
    pub fn step(&mut self, rng: &mut MicropolisRandom, city: &mut City) -> (r: Result<(), String>)
        requires
            old(self).runs_at_tick() ==> old(self).ticked().can_simulate(*old(city)),
        ensures
            old(self).steps_per_update() == 0 ==> r is Ok && *final(self) == *old(self) && *final(city)
                == *old(city) && *final(rng) == *old(rng),
            old(self).steps_per_update() != 0 && !old(self).runs_at_tick() ==> r is Ok && *final(self)
                == old(self).ticked() && *final(city) == *old(city) && *final(rng) == *old(rng),
            old(self).runs_at_tick() ==> old(self).ticked().simulated(
                *final(self),
                *old(city),
                *final(city),
                *old(rng),
                *final(rng),
                r is Ok,
            ),
    {
        let sim_steps_per_update = self.speed.get_sim_steps_per_update();
        if sim_steps_per_update == 0 {
            return Ok(());
        }
        if self.speed_cycle >= 1023 {
            self.speed_cycle = 0;
        } else {
            self.speed_cycle = self.speed_cycle + 1;
        }
        if sim_steps_per_update == 1 && self.speed_cycle % 5 != 0 {
            return Ok(());
        }
        if sim_steps_per_update == 2 && self.speed_cycle % 3 != 0 {
            return Ok(());
        }
        self.simulate(rng, city)
    }
}

} // verus!
