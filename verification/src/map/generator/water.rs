use vstd::prelude::*;

use crate::map::position::{fits_i32, MapPosition, MapPositionOffset};
use crate::map::tiles::{type_bits, Tile, TILE_LOW_MASK};
use crate::map::tiles_type::{TileType, WOODS_HIGH, WOODS_LOW};
use crate::map::{grid_value_at, same_shape, write_cell, MapClusteringStrategy, TileMap};
use crate::utils::random::{draw_bits, lcg_next, random16_at, trunc_rem, MicropolisRandom};

use super::constants::{
    blob_river_big, blob_river_big_at, blob_river_small, blob_river_small_at, river_edges, smooth_dx,
    smooth_dy, smooth_river_edges_table, smooth_tiles_dx, smooth_tiles_dy,
};
use super::utils::{grid_tile_at, numbered_direction, put_on_grid, put_tile_on_terrain, random_river_direction};
use crate::map::position::abs_int;

verus! {

/// The grid after putting down the first `n` tiles of a square blob of
/// `side` tiles at `base`, column by column; tiles outside the map are
/// skipped.
pub open spec fn blob_plopped(
    cells: Seq<Seq<Tile>>,
    strategy: MapClusteringStrategy,
    base: MapPosition,
    blob: Seq<Seq<TileType>>,
    side: int,
    n: int,
) -> Seq<Seq<Tile>>
    decreases n,
{
    if n <= 0 {
        cells
    } else {
        let c = blob_plopped(cells, strategy, base, blob, side, n - 1);
        let x = (n - 1) / side;
        let y = (n - 1) % side;
        let p = MapPosition { x: (base.x + x) as i32, y: (base.y + y) as i32 };
        let b = strategy.block_of(p);
        if !(b.x >= 0 && b.y >= 0 && b.x < c.len() as i32 && c.len() > 0 && b.y < c[0].len() as i32) {
            c
        } else {
            put_on_grid(c, strategy, blob[y][x], p).unwrap()
        }
    }
}

/// Put down a blob of `side` by `side` tiles (see `blob_plopped`).
fn plop_blob(terrain: &mut TileMap, base: &MapPosition, big: bool)
    requires
        fits_i32(base.x + 9),
        fits_i32(base.y + 9),
    ensures
        final(terrain).strategy() == old(terrain).strategy(),
        final(terrain).cells() == blob_plopped(
            old(terrain).cells(),
            old(terrain).strategy(),
            *base,
            if big {
                blob_river_big()
            } else {
                blob_river_small()
            },
            if big {
                9
            } else {
                6
            },
            if big {
                81
            } else {
                36
            },
        ),
{
    let side: usize = if big { 9 } else { 6 };
    let ghost blob = if big { blob_river_big() } else { blob_river_small() };
    let ghost start = terrain.cells();
    let mut x: usize = 0;
    while x < side
        invariant
            side == (if big { 9usize } else { 6usize }),
            blob == (if big { blob_river_big() } else { blob_river_small() }),
            fits_i32(base.x + 9),
            fits_i32(base.y + 9),
            x <= side,
            terrain.strategy() == old(terrain).strategy(),
            start == old(terrain).cells(),
            terrain.cells() == blob_plopped(start, terrain.strategy(), *base, blob, side as int, (x * side) as int),
        decreases side - x,
    {
        let mut y: usize = 0;
        while y < side
            invariant
                side == (if big { 9usize } else { 6usize }),
                blob == (if big { blob_river_big() } else { blob_river_small() }),
                fits_i32(base.x + 9),
                fits_i32(base.y + 9),
                x < side,
                y <= side,
                terrain.strategy() == old(terrain).strategy(),
                start == old(terrain).cells(),
                terrain.cells() == blob_plopped(start, terrain.strategy(), *base, blob, side as int, (x * side + y) as int),
            decreases side - y,
        {
            let position = MapPosition::new(base.x + x as i32, base.y + y as i32);
            let ghost k = (x * side + y) as int;
            assert(k / (side as int) == x && k % (side as int) == y) by (nonlinear_arith)
                requires
                    k == x * side + y,
                    y < side,
                    side > 0,
            ;
            if terrain.in_bounds(&position) {
                let tile_type = if big {
                    blob_river_big_at(y, x)
                } else {
                    blob_river_small_at(y, x)
                };
                assert(tile_type != TileType::Invalid);
                let _ = put_tile_on_terrain(terrain, tile_type, &position);
            }
            y = y + 1;
        }
        assert(x * side + side == (x + 1) * side) by (nonlinear_arith);
        x = x + 1;
    }
}

/// Put down a big diamond-like shaped river, where `base` is the top-left position of the blob.
pub fn plop_big_river(terrain: &mut TileMap, base: &MapPosition)
    requires
        fits_i32(base.x + 9),
        fits_i32(base.y + 9),
    ensures
        final(terrain).strategy() == old(terrain).strategy(),
        final(terrain).cells() == blob_plopped(
            old(terrain).cells(),
            old(terrain).strategy(),
            *base,
            blob_river_big(),
            9,
            81,
        ),
{
    plop_blob(terrain, base, true)
}

/// Put down a small diamond-like shaped river, where `base` is the top-left position of the blob.
pub fn plop_small_river(terrain: &mut TileMap, base: &MapPosition)
    requires
        fits_i32(base.x + 9),
        fits_i32(base.y + 9),
    ensures
        final(terrain).strategy() == old(terrain).strategy(),
        final(terrain).cells() == blob_plopped(
            old(terrain).cells(),
            old(terrain).strategy(),
            *base,
            blob_river_small(),
            6,
            36,
        ),
{
    plop_blob(terrain, base, false)
}

/// Putting tiles on a grid keeps its shape.
pub proof fn lemma_blob_plopped_shape(
    cells: Seq<Seq<Tile>>,
    strategy: MapClusteringStrategy,
    base: MapPosition,
    blob: Seq<Seq<TileType>>,
    side: int,
    n: int,
)
    requires
        side > 0,
        n <= side * side,
        forall|i: int, j: int| 0 <= i < side && 0 <= j < side ==> #[trigger] blob[i][j] != TileType::Invalid,
    ensures
        same_shape(blob_plopped(cells, strategy, base, blob, side, n), cells),
    decreases n,
{
    if n > 0 {
        lemma_blob_plopped_shape(cells, strategy, base, blob, side, n - 1);
        let x = (n - 1) / side;
        let y = (n - 1) % side;
        assert(0 <= x < side && 0 <= y < side) by (nonlinear_arith)
            requires
                side > 0,
                0 <= n - 1 < side * side,
                x == (n - 1) / side,
                y == (n - 1) % side,
        ;
        assert(blob[y][x] != TileType::Invalid);
    }
}

/// Would `in_bounds` accept the position on a map of `width` columns and
/// `height` rows of the strategy? (See `WorldMap::spec_in_bounds`.)
pub open spec fn in_area(width: nat, height: nat, strategy: MapClusteringStrategy, p: MapPosition) -> bool {
    let b = strategy.block_of(p);
    &&& b.x >= 0
    &&& b.y >= 0
    &&& b.x < width as i32
    &&& width > 0
    &&& b.y < height as i32
}

/// The grid after a big river blob with its top-left at `base`.
pub open spec fn big_plopped(cells: Seq<Seq<Tile>>, strategy: MapClusteringStrategy, base: MapPosition) -> Seq<
    Seq<Tile>,
> {
    blob_plopped(cells, strategy, base, blob_river_big(), 9, 81)
}

/// The grid after a small river blob with its top-left at `base`.
pub open spec fn small_plopped(cells: Seq<Seq<Tile>>, strategy: MapClusteringStrategy, base: MapPosition) -> Seq<
    Seq<Tile>,
> {
    blob_plopped(cells, strategy, base, blob_river_small(), 6, 36)
}

/// Where a river walk is: the tiles, the generator state, its position and
/// local direction, and whether it has stopped.
pub struct RiverState {
    pub cells: Seq<Seq<Tile>>,
    pub rng: u64,
    pub position: MapPosition,
    pub direction: MapPositionOffset,
    pub stopped: bool,
}

/// Rates of river direction changes for a curve level (see `river_rates`).
pub open spec fn river_rate_values(level_river_curves: i16) -> (int, int) {
    if level_river_curves < 0 {
        (100, 200)
    } else {
        (10 + level_river_curves, 100 + level_river_curves)
    }
}

/// One step of a river walk on a map of the given size: it stops near the
/// 32-bit limits or when the blob's center leaves the map; otherwise it puts
/// down a blob (big or small), then one draw in `rates.0 + 1` under 10 turns
/// it back to the global direction, or else two draws over 90 (out of
/// `rates.1 + 1`) turn it by one eighth clockwise and by seven eighths;
/// it then moves along its new direction (or along `along`, when given).
pub open spec fn river_step(
    s: RiverState,
    width: nat,
    height: nat,
    strategy: MapClusteringStrategy,
    big: bool,
    rates: (int, int),
    global: MapPositionOffset,
    along: Option<MapPositionOffset>,
) -> RiverState {
    let p = s.position;
    let margin: int = if big { 4 } else { 3 };
    if s.stopped {
        s
    } else if p.x > i32::MAX - 9 || p.y > i32::MAX - 9 || p.x < i32::MIN + 9 || p.y < i32::MIN + 9 {
        RiverState { stopped: true, ..s }
    } else if !in_area(width, height, strategy, MapPosition { x: (p.x + margin) as i32, y: (p.y + margin) as i32 }) {
        RiverState { stopped: true, ..s }
    } else {
        let cells = if big {
            big_plopped(s.cells, strategy, p)
        } else {
            small_plopped(s.cells, strategy, p)
        };
        let s1 = lcg_next(s.rng);
        let (direction, state) = if trunc_rem(draw_bits(s1), rates.0 + 1) < 10 {
            (global, s1)
        } else {
            let s2 = lcg_next(s1);
            let d1 = if trunc_rem(draw_bits(s2), rates.1 + 1) > 90 {
                s.direction.rotated(1)
            } else {
                s.direction
            };
            let s3 = lcg_next(s2);
            let d2 = if trunc_rem(draw_bits(s3), rates.1 + 1) > 90 {
                d1.rotated(7)
            } else {
                d1
            };
            (d2, s3)
        };
        let mover = match along {
            Some(d) => d,
            None => direction,
        };
        RiverState {
            cells,
            rng: state,
            position: MapPosition { x: (p.x + mover.delta().0) as i32, y: (p.y + mover.delta().1) as i32 },
            direction,
            stopped: false,
        }
    }
}

/// The first `n` steps of a river walk.
pub open spec fn river_walk(
    s: RiverState,
    width: nat,
    height: nat,
    strategy: MapClusteringStrategy,
    big: bool,
    rates: (int, int),
    global: MapPositionOffset,
    along: Option<MapPositionOffset>,
    n: nat,
) -> RiverState
    decreases n,
{
    if n == 0 {
        s
    } else {
        river_step(
            river_walk(s, width, height, strategy, big, rates, global, along, (n - 1) as nat),
            width,
            height,
            strategy,
            big,
            rates,
            global,
            along,
        )
    }
}

/// A stopped walk stays as it is.
proof fn lemma_river_stopped(
    s: RiverState,
    width: nat,
    height: nat,
    strategy: MapClusteringStrategy,
    big: bool,
    rates: (int, int),
    global: MapPositionOffset,
    along: Option<MapPositionOffset>,
    k: nat,
    n: nat,
)
    requires
        k <= n,
        river_walk(s, width, height, strategy, big, rates, global, along, k).stopped,
    ensures
        river_walk(s, width, height, strategy, big, rates, global, along, n) == river_walk(
            s,
            width,
            height,
            strategy,
            big,
            rates,
            global,
            along,
            k,
        ),
    decreases n - k,
{
    if k < n {
        lemma_river_stopped(s, width, height, strategy, big, rates, global, along, k, (n - 1) as nat);
    }
}

/// Step limit of a river walk.
pub const RIVER_STEPS_LIMIT: u32 = 1000000;

/// Rates of river direction changes for a curve level.
fn river_rates(level_river_curves: i16) -> (r: (i16, i16))
    requires
        level_river_curves <= 32000,
    ensures
        level_river_curves < 0 ==> r == (100i16, 200i16),
        level_river_curves >= 0 ==> r.0 == 10 + level_river_curves && r.1 == 100 + level_river_curves,
        (r.0 as int, r.1 as int) == river_rate_values(level_river_curves),
{
    if level_river_curves < 0 {
        (100, 200)
    } else {
        (10 + level_river_curves, 100 + level_river_curves)
    }
}

/// One step of a river walk (see `river_step`): the next position and
/// direction, and whether the walk goes on.
#[verifier::spinoff_prover]
fn river_step_at(
    rng: &mut MicropolisRandom,
    rates: (i16, i16),
    terrain: &mut TileMap,
    position: MapPosition,
    direction: MapPositionOffset,
    global_direction: &MapPositionOffset,
    local_direction: &MapPositionOffset,
    big: bool,
) -> (r: (MapPosition, MapPositionOffset, bool))
    requires
        rates.0 >= 10 && rates.1 >= 100,
        *global_direction != MapPositionOffset::NoDirection,
        *local_direction != MapPositionOffset::NoDirection,
        direction != MapPositionOffset::NoDirection,
    ensures
        river_step(
            RiverState {
                cells: old(terrain).cells(),
                rng: old(rng).state(),
                position,
                direction,
                stopped: false,
            },
            old(terrain).width(),
            old(terrain).height(),
            old(terrain).strategy(),
            big,
            (rates.0 as int, rates.1 as int),
            *global_direction,
            if big { None } else { Some(*local_direction) },
        ) == (RiverState {
            cells: final(terrain).cells(),
            rng: final(rng).state(),
            position: r.0,
            direction: r.1,
            stopped: !r.2,
        }),
        r.1 != MapPositionOffset::NoDirection,
        final(rng).creation_seed() == old(rng).creation_seed(),
        final(terrain).strategy() == old(terrain).strategy(),
        same_shape(final(terrain).cells(), old(terrain).cells()),
{
    let (rate1, rate2) = rates;
    if position.x > i32::MAX - 9 || position.y > i32::MAX - 9 || position.x < i32::MIN + 9
        || position.y < i32::MIN + 9 {
        return (position, direction, false);
    }
    let margin: i32 = if big {
        4
    } else {
        3
    };
    if !terrain.in_bounds(&MapPosition { x: position.x + margin, y: position.y + margin }) {
        return (position, direction, false);
    }
    let ghost before = terrain.cells();
    if big {
        plop_big_river(terrain, &position);
        proof {
            lemma_blob_plopped_shape(before, terrain.strategy(), position, blob_river_big(), 9, 81);
        }
    } else {
        plop_small_river(terrain, &position);
        proof {
            lemma_blob_plopped_shape(before, terrain.strategy(), position, blob_river_small(), 6, 36);
        }
    }
    let mut last_local_direction = direction;
    if rng.get_random(rate1) < 10 {
        last_local_direction = *global_direction;
    } else {
        if rng.get_random(rate2) > 90 {
            last_local_direction = last_local_direction.rotated_45();
        }
        if rng.get_random(rate2) > 90 {
            last_local_direction = last_local_direction.rotated_45_times(7);
        }
    }
    let mover = if big {
        last_local_direction
    } else {
        *local_direction
    };
    (mover.apply(&position), last_local_direction, true)
}

/// Walk a river from `start` (see `river_walk`), putting down big blobs and
/// moving along its own direction, or small blobs moving along `local`.
/// Returns the last local direction.
fn walk_river(
    rng: &mut MicropolisRandom,
    rates: (i16, i16),
    terrain: &mut TileMap,
    start: &MapPosition,
    global_direction: &MapPositionOffset,
    local_direction: &MapPositionOffset,
    big: bool,
) -> (r: MapPositionOffset)
    requires
        rates.0 >= 10 && rates.1 >= 100,
        *global_direction != MapPositionOffset::NoDirection,
        *local_direction != MapPositionOffset::NoDirection,
    ensures
        ({
            let w = river_walk(
                RiverState {
                    cells: old(terrain).cells(),
                    rng: old(rng).state(),
                    position: *start,
                    direction: *local_direction,
                    stopped: false,
                },
                old(terrain).width(),
                old(terrain).height(),
                old(terrain).strategy(),
                big,
                (rates.0 as int, rates.1 as int),
                *global_direction,
                if big { None } else { Some(*local_direction) },
                RIVER_STEPS_LIMIT as nat,
            );
            &&& final(terrain).cells() == w.cells
            &&& final(rng).state() == w.rng
            &&& r == w.direction
        }),
        r != MapPositionOffset::NoDirection,
        final(rng).creation_seed() == old(rng).creation_seed(),
        final(terrain).strategy() == old(terrain).strategy(),
        same_shape(final(terrain).cells(), old(terrain).cells()),
{
    let (rate1, rate2) = rates;
    let ghost width = terrain.width();
    let ghost height = terrain.height();
    let ghost strategy = terrain.strategy();
    let ghost along = if big { None } else { Some(*local_direction) };
    let ghost init = RiverState {
        cells: terrain.cells(),
        rng: rng.state(),
        position: *start,
        direction: *local_direction,
        stopped: false,
    };
    let mut position = *start;
    let mut last_local_direction = *local_direction;
    let mut steps: u32 = 0;
    let mut going = true;
    while steps < RIVER_STEPS_LIMIT && going
        invariant
            steps <= RIVER_STEPS_LIMIT,
            rate1 >= 10 && rate2 >= 100,
            rates == (rate1, rate2),
            *global_direction != MapPositionOffset::NoDirection,
            *local_direction != MapPositionOffset::NoDirection,
            last_local_direction != MapPositionOffset::NoDirection,
            width == old(terrain).width(),
            height == old(terrain).height(),
            strategy == old(terrain).strategy(),
            along == (if big { None } else { Some(*local_direction) }),
            init == (RiverState {
                cells: old(terrain).cells(),
                rng: old(rng).state(),
                position: *start,
                direction: *local_direction,
                stopped: false,
            }),
            river_walk(init, width, height, strategy, big, (rate1 as int, rate2 as int), *global_direction, along, steps as nat)
                == (RiverState {
                cells: terrain.cells(),
                rng: rng.state(),
                position,
                direction: last_local_direction,
                stopped: !going,
            }),
            rng.creation_seed() == old(rng).creation_seed(),
            terrain.strategy() == old(terrain).strategy(),
            same_shape(terrain.cells(), old(terrain).cells()),
        decreases RIVER_STEPS_LIMIT - steps,
    {
        let (next_position, next_direction, still_going) = river_step_at(
            rng,
            rates,
            terrain,
            position,
            last_local_direction,
            global_direction,
            local_direction,
            big,
        );
        proof {
            if terrain.cells().len() > 0 {
                assert(terrain.cells()[0].len() == old(terrain).cells()[0].len());
            }
        }
        position = next_position;
        last_local_direction = next_direction;
        going = still_going;
        steps = steps + 1;
    }
    proof {
        if !going {
            lemma_river_stopped(init, width, height, strategy, big, (rate1 as int, rate2 as int), *global_direction, along, steps as nat, RIVER_STEPS_LIMIT as nat);
        }
    }
    last_local_direction
}

/// Make a big river.
///
/// Parameters:
/// - `global_direction` is the global direction of the river
/// - `local_direction` is the local direction of the terrain
///
/// Returns the last local river direction. The walk (see `river_walk`, with
/// big blobs, moving along its own direction) stops after
/// `RIVER_STEPS_LIMIT` steps, or where it would leave the map or the 32-bit
/// positions.
fn make_big_river(
    rng: &mut MicropolisRandom,
    level_river_curves: i16,
    terrain: &mut TileMap,
    start: &MapPosition,
    global_direction: &MapPositionOffset,
    local_direction: &MapPositionOffset,
) -> (r: MapPositionOffset)
    requires
        level_river_curves <= 32000,
        *global_direction != MapPositionOffset::NoDirection,
        *local_direction != MapPositionOffset::NoDirection,
    ensures
        ({
            let w = river_walk(
                RiverState {
                    cells: old(terrain).cells(),
                    rng: old(rng).state(),
                    position: *start,
                    direction: *local_direction,
                    stopped: false,
                },
                old(terrain).width(),
                old(terrain).height(),
                old(terrain).strategy(),
                true,
                river_rate_values(level_river_curves),
                *global_direction,
                None,
                RIVER_STEPS_LIMIT as nat,
            );
            &&& final(terrain).cells() == w.cells
            &&& final(rng).state() == w.rng
            &&& r == w.direction
        }),
        r != MapPositionOffset::NoDirection,
        final(rng).creation_seed() == old(rng).creation_seed(),
        final(terrain).strategy() == old(terrain).strategy(),
        same_shape(final(terrain).cells(), old(terrain).cells()),
{
    let rates = river_rates(level_river_curves);
    walk_river(rng, rates, terrain, start, global_direction, local_direction, true)
}

/// Make a small river, moving along `local_direction` (see `river_walk`,
/// with small blobs).
///
/// The walk stops after `RIVER_STEPS_LIMIT` steps, or where it would leave
/// the map or the 32-bit positions.
fn make_small_river(
    rng: &mut MicropolisRandom,
    level_river_curves: i16,
    terrain: &mut TileMap,
    start: &MapPosition,
    global_direction: &MapPositionOffset,
    local_direction: &MapPositionOffset,
) -> (r: MapPositionOffset)
    requires
        level_river_curves <= 32000,
        *global_direction != MapPositionOffset::NoDirection,
        *local_direction != MapPositionOffset::NoDirection,
    ensures
        ({
            let w = river_walk(
                RiverState {
                    cells: old(terrain).cells(),
                    rng: old(rng).state(),
                    position: *start,
                    direction: *local_direction,
                    stopped: false,
                },
                old(terrain).width(),
                old(terrain).height(),
                old(terrain).strategy(),
                false,
                river_rate_values(level_river_curves),
                *global_direction,
                Some(*local_direction),
                RIVER_STEPS_LIMIT as nat,
            );
            &&& final(terrain).cells() == w.cells
            &&& final(rng).state() == w.rng
            &&& r == w.direction
        }),
        r != MapPositionOffset::NoDirection,
        final(rng).creation_seed() == old(rng).creation_seed(),
        final(terrain).strategy() == old(terrain).strategy(),
        same_shape(final(terrain).cells(), old(terrain).cells()),
{
    let rates = river_rates(level_river_curves);
    walk_river(rng, rates, terrain, start, global_direction, local_direction, false)
}

/// The rivers made from `start`: a big river along a random cardinal
/// direction, a big river along the opposite one, and a small river along
/// the last local direction of the second with another random global
/// direction; the tiles and the generator state reached.
pub open spec fn rivers_made(
    cells: Seq<Seq<Tile>>,
    width: nat,
    height: nat,
    strategy: MapClusteringStrategy,
    state: u64,
    level_river_curves: i16,
    start: MapPosition,
) -> (Seq<Seq<Tile>>, u64) {
    let rates = river_rate_values(level_river_curves);
    let s1 = lcg_next(state);
    let g1 = numbered_direction(1 + 2 * abs_int(trunc_rem(draw_bits(s1), 4)));
    let w1 = river_walk(
        RiverState { cells, rng: s1, position: start, direction: g1, stopped: false },
        width,
        height,
        strategy,
        true,
        rates,
        g1,
        None,
        RIVER_STEPS_LIMIT as nat,
    );
    let g2 = g1.rotated(4);
    let w2 = river_walk(
        RiverState { cells: w1.cells, rng: w1.rng, position: start, direction: g2, stopped: false },
        width,
        height,
        strategy,
        true,
        rates,
        g2,
        None,
        RIVER_STEPS_LIMIT as nat,
    );
    let s3 = lcg_next(w2.rng);
    let g3 = numbered_direction(1 + 2 * abs_int(trunc_rem(draw_bits(s3), 4)));
    let w3 = river_walk(
        RiverState { cells: w2.cells, rng: s3, position: start, direction: w2.direction, stopped: false },
        width,
        height,
        strategy,
        false,
        rates,
        g3,
        Some(w2.direction),
        RIVER_STEPS_LIMIT as nat,
    );
    (w3.cells, w3.rng)
}

/// Make two big rivers from the start position, in opposite directions, and
/// a small one (see `rivers_made`).
pub fn make_rivers(
    rng: &mut MicropolisRandom,
    level_river_curves: i16,
    terrain: &mut TileMap,
    start: &MapPosition,
)
    requires
        level_river_curves <= 32000,
    ensures
        (final(terrain).cells(), final(rng).state()) == rivers_made(
            old(terrain).cells(),
            old(terrain).width(),
            old(terrain).height(),
            old(terrain).strategy(),
            old(rng).state(),
            level_river_curves,
            *start,
        ),
        final(rng).creation_seed() == old(rng).creation_seed(),
        final(terrain).strategy() == old(terrain).strategy(),
        same_shape(final(terrain).cells(), old(terrain).cells()),
{
    let ghost width = terrain.width();
    let ghost height = terrain.height();
    let mut global_direction = random_river_direction(rng);
    make_big_river(rng, level_river_curves, terrain, start, &global_direction, &global_direction);
    proof {
        if terrain.cells().len() > 0 {
            assert(terrain.cells()[0].len() == old(terrain).cells()[0].len());
        }
    }
    global_direction = global_direction.rotated_180();
    let local_direction = make_big_river(
        rng,
        level_river_curves,
        terrain,
        start,
        &global_direction,
        &global_direction,
    );
    proof {
        if terrain.cells().len() > 0 {
            assert(terrain.cells()[0].len() == old(terrain).cells()[0].len());
        }
    }
    global_direction = random_river_direction(rng);
    make_small_river(rng, level_river_curves, terrain, start, &global_direction, &local_direction);
}

/// The first `n` blobs of a lake around `at`: each at a random offset (two
/// draws, from -6 to 6), small three times in four, else big (third draw);
/// the tiles and the generator state reached.
pub open spec fn lake_plops(
    cells: Seq<Seq<Tile>>,
    strategy: MapClusteringStrategy,
    state: u64,
    at: MapPosition,
    n: nat,
) -> (Seq<Seq<Tile>>, u64)
    decreases n,
{
    if n == 0 {
        (cells, state)
    } else {
        let (c, s) = lake_plops(cells, strategy, state, at, (n - 1) as nat);
        lake_plop(c, strategy, s, at)
    }
}

/// One blob of a lake around `at`: its top-left is drawn from -6 to 6 tiles
/// away on each axis, and it is small unless a draw from -4 to 4 is 0.
pub open spec fn lake_plop(cells: Seq<Seq<Tile>>, strategy: MapClusteringStrategy, state: u64, at: MapPosition) -> (
    Seq<Seq<Tile>>,
    u64,
) {
    let s1 = lcg_next(state);
    let s2 = lcg_next(s1);
    let s3 = lcg_next(s2);
    let p = MapPosition {
        x: (at.x + trunc_rem(draw_bits(s1), 13) - 6) as i32,
        y: (at.y + trunc_rem(draw_bits(s2), 13) - 6) as i32,
    };
    if trunc_rem(draw_bits(s3), 5) != 0 {
        (small_plopped(cells, strategy, p), s3)
    } else {
        (big_plopped(cells, strategy, p), s3)
    }
}

/// Put down one blob of a lake (see `lake_plop`).
#[verifier::spinoff_prover]
fn lake_plop_at(rng: &mut MicropolisRandom, terrain: &mut TileMap, at: MapPosition)
    requires
        -100000 <= at.x <= 100000,
        -100000 <= at.y <= 100000,
    ensures
        (final(terrain).cells(), final(rng).state()) == lake_plop(
            old(terrain).cells(),
            old(terrain).strategy(),
            old(rng).state(),
            at,
        ),
        final(rng).creation_seed() == old(rng).creation_seed(),
        final(terrain).strategy() == old(terrain).strategy(),
        same_shape(final(terrain).cells(), old(terrain).cells()),
{
    let dx = (rng.get_random(12) - 6) as i32;
    let dy = (rng.get_random(12) - 6) as i32;
    let plop_position = at + MapPosition::from((dx, dy));
    let ghost before = terrain.cells();
    if rng.get_random(4) != 0 {
        plop_small_river(terrain, &plop_position);
        proof {
            lemma_blob_plopped_shape(before, terrain.strategy(), plop_position, blob_river_small(), 6, 36);
        }
    } else {
        plop_big_river(terrain, &plop_position);
        proof {
            lemma_blob_plopped_shape(before, terrain.strategy(), plop_position, blob_river_big(), 9, 81);
        }
    }
}

/// A lake around `at`: 2 plus a draw from -12 to 12 blobs (see `lake_plops`).
pub open spec fn single_lake(cells: Seq<Seq<Tile>>, strategy: MapClusteringStrategy, state: u64, at: MapPosition) -> (
    Seq<Seq<Tile>>,
    u64,
) {
    let s0 = lcg_next(state);
    let n = 2 + trunc_rem(draw_bits(s0), 13);
    lake_plops(cells, strategy, s0, at, if n > 0 { n as nat } else { 0 })
}

/// Generate a single lake around the given rough position (see `single_lake`).
fn make_single_lake(rng: &mut MicropolisRandom, terrain: &mut TileMap, at: MapPosition)
    requires
        -100000 <= at.x <= 100000,
        -100000 <= at.y <= 100000,
    ensures
        (final(terrain).cells(), final(rng).state()) == single_lake(
            old(terrain).cells(),
            old(terrain).strategy(),
            old(rng).state(),
            at,
        ),
        final(rng).creation_seed() == old(rng).creation_seed(),
        final(terrain).strategy() == old(terrain).strategy(),
        same_shape(final(terrain).cells(), old(terrain).cells()),
{
    let mut num_plops = 2 + rng.get_random(12);
    let ghost s0 = rng.state();
    let ghost total: nat = if num_plops > 0 { num_plops as nat } else { 0 };
    let ghost strategy = terrain.strategy();
    while num_plops > 0
        invariant
            -100000 <= at.x <= 100000,
            -100000 <= at.y <= 100000,
            s0 == lcg_next(old(rng).state()),
            total == (if 2 + trunc_rem(draw_bits(s0), 13) > 0 { (2 + trunc_rem(draw_bits(s0), 13)) as nat } else { 0 }),
            strategy == old(terrain).strategy(),
            num_plops <= total,
            (terrain.cells(), rng.state()) == lake_plops(
                old(terrain).cells(),
                strategy,
                s0,
                at,
                (total - (if num_plops > 0 { num_plops as int } else { 0 })) as nat,
            ),
            rng.creation_seed() == old(rng).creation_seed(),
            terrain.strategy() == old(terrain).strategy(),
            same_shape(terrain.cells(), old(terrain).cells()),
        decreases num_plops,
    {
        lake_plop_at(rng, terrain, at);
        num_plops = num_plops - 1;
    }
}

/// The first `n` lakes, each around a random position (two draws) 10 tiles
/// inside a map of `w16` columns and `h16` rows (see `single_lake`).
pub open spec fn lakes_made(
    cells: Seq<Seq<Tile>>,
    strategy: MapClusteringStrategy,
    state: u64,
    w16: int,
    h16: int,
    n: nat,
) -> (Seq<Seq<Tile>>, u64)
    decreases n,
{
    if n == 0 {
        (cells, state)
    } else {
        let (c, s) = lakes_made(cells, strategy, state, w16, h16, (n - 1) as nat);
        let s1 = lcg_next(s);
        let s2 = lcg_next(s1);
        let at = MapPosition {
            x: (10 + trunc_rem(draw_bits(s1), w16 - 20)) as i32,
            y: (10 + trunc_rem(draw_bits(s2), h16 - 19)) as i32,
        };
        single_lake(c, strategy, s2, at)
    }
}

/// The lakes made for a level: half of it, or a draw up to 10 by default
/// (see `lakes_made`), on a map whose dimensions read as 16-bit numbers
/// are `w16` and `h16`.
pub open spec fn lakes_for_level(
    cells: Seq<Seq<Tile>>,
    strategy: MapClusteringStrategy,
    state: u64,
    level_lakes: i16,
    w16: int,
    h16: int,
) -> (Seq<Seq<Tile>>, u64) {
    let (count, s) = if level_lakes < 0 {
        let s0 = lcg_next(state);
        (trunc_rem(draw_bits(s0), 11), s0)
    } else {
        (level_lakes / 2, state)
    };
    lakes_made(cells, strategy, s, w16, h16, if count > 0 { count as nat } else { 0 })
}

/// Generate a random number of lakes, depending on `level_lakes`: half of
/// it, or a draw up to 10 by default (see `lakes_for_level`).
pub fn make_lakes(rng: &mut MicropolisRandom, level_lakes: i16, map: &mut TileMap)
    requires
        old(map).width() as i16 >= -32700 && old(map).width() as i16 != 20,
        old(map).height() as i16 >= -32700 && old(map).height() as i16 != 19,
    ensures
        (final(map).cells(), final(rng).state()) == lakes_for_level(
            old(map).cells(),
            old(map).strategy(),
            old(rng).state(),
            level_lakes,
            old(map).width() as i16 as int,
            old(map).height() as i16 as int,
        ),
        final(rng).creation_seed() == old(rng).creation_seed(),
        final(map).strategy() == old(map).strategy(),
        same_shape(final(map).cells(), old(map).cells()),
{
    let mut remaining_lakes: i16 = if level_lakes < 0 {
        rng.get_random(10)
    } else {
        level_lakes / 2
    };
    let ghost s0 = rng.state();
    let ghost total: nat = if remaining_lakes > 0 { remaining_lakes as nat } else { 0 };
    let map_size = map.bounds();
    while remaining_lakes > 0
        invariant
            map_size.width == old(map).width(),
            map_size.height == old(map).height(),
            map_size.width as i16 >= -32700 && map_size.width as i16 != 20,
            map_size.height as i16 >= -32700 && map_size.height as i16 != 19,
            remaining_lakes <= total,
            (map.cells(), rng.state()) == lakes_made(
                old(map).cells(),
                old(map).strategy(),
                s0,
                old(map).width() as i16 as int,
                old(map).height() as i16 as int,
                (total - (if remaining_lakes > 0 { remaining_lakes as int } else { 0 })) as nat,
            ),
            rng.creation_seed() == old(rng).creation_seed(),
            map.strategy() == old(map).strategy(),
            same_shape(map.cells(), old(map).cells()),
        decreases remaining_lakes,
    {
        let x = 10 + rng.get_random(map_size.width as i16 - 21);
        let y = 10 + rng.get_random(map_size.height as i16 - 20);
        make_single_lake(rng, map, MapPosition::new(x as i32, y as i32));
        remaining_lakes = remaining_lakes - 1;
    }
}

/// Every column of the grid is at least as long as the first.
pub open spec fn columns_full(cells: Seq<Seq<Tile>>) -> bool {
    forall|i: int| 0 <= i < cells.len() ==> #[trigger] cells[i].len() >= cells[0].len()
}

/// Is the `i`-th smoothing neighbour of `p` a tile that is neither dirt
/// nor a tree?
pub open spec fn edge_neighbor(cells: Seq<Seq<Tile>>, strategy: MapClusteringStrategy, p: MapPosition, i: int) -> bool {
    let q = MapPosition { x: (p.x + smooth_dx()[i]) as i32, y: (p.y + smooth_dy()[i]) as i32 };
    grid_value_at(cells, strategy, q) matches Some(t) && type_bits(t.raw()) != 0 && !(WOODS_LOW
        <= type_bits(t.raw()) <= WOODS_HIGH)
}

/// Pattern of the first `n` smoothing neighbours of `p`, the first one
/// the highest bit.
pub open spec fn edge_bits(cells: Seq<Seq<Tile>>, strategy: MapClusteringStrategy, p: MapPosition, n: int) -> int
    decreases n,
{
    if n <= 0 {
        0
    } else {
        2 * edge_bits(cells, strategy, p, n - 1) + if edge_neighbor(cells, strategy, p, n - 1) {
            1int
        } else {
            0
        }
    }
}

/// Smoothing of the river edge at `(x, y)`: a river edge tile becomes the
/// edge tile of its neighbour pattern, or (unless that is a river) one
/// draw in two the next variant; other tiles stay.
pub open spec fn river_edge_step(cells: Seq<Seq<Tile>>, strategy: MapClusteringStrategy, state: u64, x: int, y: int) -> (
    Seq<Seq<Tile>>,
    u64,
) {
    let p = MapPosition { x: x as i32, y: y as i32 };
    if cells[x][y].kind() != Some(TileType::RiverEdge) {
        (cells, state)
    } else if grid_value_at(cells, strategy, p) is None {
        (cells, state)
    } else {
        let e = river_edges()[edge_bits(cells, strategy, p, 4)];
        if e as int != TileType::River.code() {
            let s1 = lcg_next(state);
            let e2 = if trunc_rem(draw_bits(s1), 2) != 0 {
                (e + 1) as u16
            } else {
                e
            };
            (write_cell(cells, strategy, p, Tile::of_raw(e2)), s1)
        } else {
            (write_cell(cells, strategy, p, Tile::of_raw(e)), state)
        }
    }
}

/// River edges smoothed along the first `n` positions of column `x`.
pub open spec fn river_column(cells: Seq<Seq<Tile>>, strategy: MapClusteringStrategy, state: u64, x: int, n: int) -> (
    Seq<Seq<Tile>>,
    u64,
)
    decreases n,
{
    if n <= 0 {
        (cells, state)
    } else {
        let (c, s) = river_column(cells, strategy, state, x, n - 1);
        river_edge_step(c, strategy, s, x, n - 1)
    }
}

/// River edges smoothed along the first `n` columns, each of `h` positions.
pub open spec fn river_columns(cells: Seq<Seq<Tile>>, strategy: MapClusteringStrategy, state: u64, n: int, h: int) -> (
    Seq<Seq<Tile>>,
    u64,
)
    decreases n,
{
    if n <= 0 {
        (cells, state)
    } else {
        let (c, s) = river_columns(cells, strategy, state, n - 1, h);
        river_column(c, strategy, s, n - 1, h)
    }
}

/// The tiles and generator state after smoothing the river edges of a grid
/// whose columns are all as long as the first.
pub open spec fn rivers_smoothed(cells: Seq<Seq<Tile>>, strategy: MapClusteringStrategy, state: u64) -> (
    Seq<Seq<Tile>>,
    u64,
) {
    river_columns(cells, strategy, state, cells.len() as int, if cells.len() > 0 { cells[0].len() as int } else { 0 })
}

/// Pattern of the four smoothing neighbours of the position (see `edge_bits`).
fn river_edge_pattern(terrain: &TileMap, position: &MapPosition) -> (r: usize)
    requires
        0 <= position.x < 0x4000_0000,
        0 <= position.y < 0x4000_0000,
    ensures
        r as int == edge_bits(terrain.cells(), terrain.strategy(), *position, 4),
        r < 16,
{
    let dirt_type_raw = TileType::Dirt.raw_value();
    let mut bit_index: usize = 0;
    let mut i: usize = 0;
    while i < 4
        invariant
            i <= 4,
            dirt_type_raw == 0,
            bit_index as int == edge_bits(terrain.cells(), terrain.strategy(), *position, i as int),
            bit_index < (if i == 0 { 1int } else if i == 1 { 2 } else if i == 2 { 4 } else if i == 3 { 8 } else { 16 }),
            0 <= position.x < 0x4000_0000,
            0 <= position.y < 0x4000_0000,
        decreases 4 - i,
    {
        bit_index = bit_index * 2;
        let temp_position = MapPosition::new(position.x + smooth_tiles_dx(i), position.y + smooth_tiles_dy(i));
        proof {
            terrain.lemma_tile_at_cells(temp_position);
        }
        if terrain.in_bounds(&temp_position) {
            match terrain.get_tile_at(&temp_position) {
                Some(temp_tile) => {
                    let temp_tile_type_raw = temp_tile.get_type_raw() & TILE_LOW_MASK;
                    proof {
                        let v = type_bits(temp_tile.raw());
                        assert(v & 0x03ffu16 == v) by (bit_vector)
                            requires
                                v <= 0x03ff,
                        ;
                    }
                    if temp_tile_type_raw != dirt_type_raw && !(WOODS_LOW <= temp_tile_type_raw
                        && temp_tile_type_raw <= WOODS_HIGH) {
                        bit_index = bit_index + 1;
                    }
                },
                None => {},
            }
        }
        i = i + 1;
    }
    bit_index
}

/// Smooth the river edge at `(x, y)` (see `river_edge_step`).
#[verifier::spinoff_prover]
fn smooth_river_at(rng: &mut MicropolisRandom, terrain: &mut TileMap, x: usize, y: usize)
    requires
        x < old(terrain).cells().len(),
        y < old(terrain).cells()[x as int].len(),
        x < 0x4000_0000,
        y < 0x4000_0000,
    ensures
        (final(terrain).cells(), final(rng).state()) == river_edge_step(
            old(terrain).cells(),
            old(terrain).strategy(),
            old(rng).state(),
            x as int,
            y as int,
        ),
        final(rng).creation_seed() == old(rng).creation_seed(),
        final(terrain).strategy() == old(terrain).strategy(),
        same_shape(final(terrain).cells(), old(terrain).cells()),
{
    proof {
        terrain.lemma_cells_of_grid();
    }
    let river_type_raw = TileType::River.raw_value();
    if terrain.tiles()[x][y].get_type() != &Some(TileType::RiverEdge) {
        return;
    }
    let position = MapPosition::new(x as i32, y as i32);
    let bit_index = river_edge_pattern(terrain, &position);
    assert(bit_index & 0x000F == bit_index) by (bit_vector)
        requires
            bit_index < 16,
    ;
    proof {
        terrain.lemma_tile_at_cells(position);
    }
    match terrain.get_tile_at(&position) {
        Some(t) => {
            let mut tile = *t;
            let mut tile_raw = smooth_river_edges_table(bit_index & 0x000F);
            if tile_raw != river_type_raw && rng.get_random(1) != 0 {
                tile_raw = tile_raw + 1;
            }
            tile.set_raw(tile_raw);
            proof {
                Tile::lemma_of_raw(tile);
                crate::map::lemma_write_cell_shape(terrain.cells(), terrain.strategy(), position, tile);
            }
            terrain.set_tile_at(&position, tile);
        },
        None => {},
    }
}

/// Turn river edges into the edge tiles that match their non-dirt, non-tree
/// neighbours (randomly one of two variants); see `rivers_smoothed`. A
/// column shorter than the first is refused, once the columns before it
/// are smoothed.
pub fn smooth_rivers(rng: &mut MicropolisRandom, terrain: &mut TileMap) -> (r: Result<(), String>)
    requires
        old(terrain).width() < 0x4000_0000,
        old(terrain).height() < 0x4000_0000,
    ensures
        r is Ok <==> columns_full(old(terrain).cells()),
        r is Ok ==> (final(terrain).cells(), final(rng).state()) == rivers_smoothed(
            old(terrain).cells(),
            old(terrain).strategy(),
            old(rng).state(),
        ),
        final(rng).creation_seed() == old(rng).creation_seed(),
        final(terrain).strategy() == old(terrain).strategy(),
        same_shape(final(terrain).cells(), old(terrain).cells()),
{
    let map_size = terrain.bounds();
    let ghost start = terrain.cells();
    let ghost strategy = terrain.strategy();
    let ghost s0 = rng.state();
    let ghost h: int = map_size.height as int;
    let mut x: usize = 0;
    while x < map_size.width
        invariant
            map_size.width == start.len(),
            map_size.height == (if start.len() > 0 { start[0].len() } else { 0 }),
            h == map_size.height,
            map_size.width < 0x4000_0000,
            map_size.height < 0x4000_0000,
            start == old(terrain).cells(),
            strategy == old(terrain).strategy(),
            s0 == old(rng).state(),
            x <= map_size.width,
            forall|i: int| 0 <= i < x ==> #[trigger] start[i].len() >= start[0].len(),
            (terrain.cells(), rng.state()) == river_columns(start, strategy, s0, x as int, h),
            rng.creation_seed() == old(rng).creation_seed(),
            terrain.strategy() == old(terrain).strategy(),
            same_shape(terrain.cells(), start),
        decreases map_size.width - x,
    {
        let ghost column_start = river_columns(start, strategy, s0, x as int, h);
        let mut y: usize = 0;
        while y < map_size.height
            invariant
                map_size.width == start.len(),
                map_size.height == (if start.len() > 0 { start[0].len() } else { 0 }),
                h == map_size.height,
                map_size.width < 0x4000_0000,
                map_size.height < 0x4000_0000,
                start == old(terrain).cells(),
                strategy == old(terrain).strategy(),
                s0 == old(rng).state(),
                x < map_size.width,
                y <= map_size.height,
                y <= start[x as int].len(),
                forall|i: int| 0 <= i < x ==> #[trigger] start[i].len() >= start[0].len(),
                column_start == river_columns(start, strategy, s0, x as int, h),
                (terrain.cells(), rng.state()) == river_column(column_start.0, strategy, column_start.1, x as int, y as int),
                rng.creation_seed() == old(rng).creation_seed(),
                terrain.strategy() == old(terrain).strategy(),
                same_shape(terrain.cells(), start),
            decreases map_size.height - y,
        {
            proof {
                terrain.lemma_cells_of_grid();
            }
            let column_length = terrain.tiles()[x].len();
            assert(column_length == terrain.cells()[x as int].len());
            assert(column_length == start[x as int].len());
            if y >= column_length {
                assert(!columns_full(start)) by {
                    assert(start[x as int].len() < start[0].len());
                }
                return Err(String::from_str("MapGenerator.smooth_rivers map Y overflow"));
            }
            smooth_river_at(rng, terrain, x, y);
            y = y + 1;
        }
        proof {
            assert(start[x as int].len() >= start[0].len());
        }
        x = x + 1;
    }
    proof {
        assert(columns_full(start));
    }
    Ok(())
}

} // verus!
