use vstd::prelude::*;

use crate::map::connect::{bit_if, low_in};
use crate::map::position::{fits_i32, MapPosition, MapPositionOffset};
use crate::map::tiles::{Tile, TILE_BLBNBIT_MASK, TILE_BURN_BULL_BIT};
use crate::map::tiles_type::{TileType, WOODS_HIGH, WOODS_LOW};
use crate::map::tools::{entries_map, list_set, ToolEffects};
use crate::map::tools::effects::woods_raw;
use crate::map::{
    grid_value_at, lemma_write_cell_shape, lemma_write_changes_shape, same_shape, write_cell, write_changes,
    MapClusteringStrategy, TileMap,
};
use crate::map::position::abs_int;
use crate::utils::random::{draw_bits, lcg_next, random16_at, trunc_rem};
use super::water::in_area;
use crate::utils::random::MicropolisRandom;

use super::constants::{forest_edges, smooth_dx, smooth_dy, smooth_forest_edges_table, smooth_tiles_dx, smooth_tiles_dy};
use super::utils::{numbered_direction, random_direction};

verus! {

/// Are these type bits those of a tree?
pub open spec fn is_tree_bits(v: u16) -> bool {
    WOODS_LOW <= v <= WOODS_HIGH
}

/// The `z`-th smoothing neighbour of the position.
pub open spec fn smooth_neighbor(p: MapPosition, z: int) -> MapPosition {
    MapPosition { x: (p.x + smooth_dx()[z]) as i32, y: (p.y + smooth_dy()[z]) as i32 }
}

/// Is the `z`-th smoothing neighbour inside the map and a tree?
pub open spec fn tree_neighbor(
    changes: Map<MapPosition, Tile>,
    map: TileMap,
    p: MapPosition,
    z: int,
) -> bool {
    let q = smooth_neighbor(p, z);
    map.spec_in_bounds(q) && match low_in(changes, map, q) {
        Some(u) => is_tree_bits(u),
        None => false,
    }
}

/// Pattern of tree neighbours: west 8, south 4, east 2, north 1.
pub open spec fn tree_pattern(changes: Map<MapPosition, Tile>, map: TileMap, p: MapPosition) -> int {
    bit_if(tree_neighbor(changes, map, p, 0), 8) + bit_if(tree_neighbor(changes, map, p, 1), 4)
        + bit_if(tree_neighbor(changes, map, p, 2), 2) + bit_if(tree_neighbor(changes, map, p, 3), 1)
}

/// Raw value of a smoothed forest edge: burnable and bulldozable; edges on
/// odd diagonals use the variant 8 tiles before.
pub open spec fn smoothed_tree_raw(edge: u16, p: MapPosition) -> u16 {
    (0x3000 + if edge != TileType::Woods.code() && ((p.x + p.y) as i32) & 1i32 != 0i32 {
        edge - 8
    } else {
        edge as int
    }) as u16
}

/// The tile written when smoothing the forest at `p`, if any: nothing unless
/// `p` holds a tree; a forest edge chosen by the pattern of tree neighbours,
/// or dirt where no edge fits (unless the tree is to be preserved).
pub open spec fn smoothed_tile(
    changes: Map<MapPosition, Tile>,
    map: TileMap,
    p: MapPosition,
    preserve: bool,
) -> Option<Tile> {
    match low_in(changes, map, p) {
        None => None,
        Some(v) => if !is_tree_bits(v) {
            None
        } else {
            let edge = forest_edges()[tree_pattern(changes, map, p)];
            if edge == 0 {
                if preserve {
                    None
                } else {
                    Some(Tile::of_raw(0))
                }
            } else {
                Some(Tile::of_raw(smoothed_tree_raw(edge, p)))
            }
        },
    }
}

/// The modifications after smoothing the forest at `p`.
pub open spec fn trees_smoothed(
    changes: Map<MapPosition, Tile>,
    map: TileMap,
    p: MapPosition,
    preserve: bool,
) -> Map<MapPosition, Tile> {
    match smoothed_tile(changes, map, p, preserve) {
        None => changes,
        Some(t) => changes.insert(p, t),
    }
}

/// The list of modifications after smoothing the forest at `p`.
pub open spec fn trees_smoothed_list(
    s: Seq<(MapPosition, Tile)>,
    map: TileMap,
    p: MapPosition,
    preserve: bool,
) -> Seq<(MapPosition, Tile)> {
    match smoothed_tile(entries_map(s), map, p, preserve) {
        None => s,
        Some(t) => list_set(s, p, t),
    }
}

/// Positions around `p` used when smoothing are 32-bit positions.
pub open spec fn smoothing_fits(p: MapPosition) -> bool {
    fits_i32(p.x - 1) && fits_i32(p.x + 1) && fits_i32(p.y - 1) && fits_i32(p.y + 1) && fits_i32(
        p.x + p.y,
    )
}

/// Is the `z`-th smoothing neighbour inside the map and a tree?
fn is_tree_neighbor(terrain: &TileMap, position: &MapPosition, effects: &ToolEffects, z: usize) -> (r:
    bool)
    requires
        z < 4,
        smoothing_fits(*position),
    ensures
        r == tree_neighbor(effects.changes(), *terrain, *position, z as int),
{
    let temp_position = MapPosition::new(
        position.x + smooth_tiles_dx(z),
        position.y + smooth_tiles_dy(z),
    );
    if !terrain.in_bounds(&temp_position) {
        return false;
    }
    match effects.get_map_tile_at(terrain, &temp_position) {
        Some(tile) => {
            proof {
                let v = effects.value_at(*terrain, temp_position).unwrap().raw();
                assert(v & 0x03ffu16 <= 0x03ff) by (bit_vector);
                let raw = tile.raw();
                assert(raw & 0x03ffu16 == raw) by (bit_vector)
                    requires
                        raw <= 0x03ff,
                ;
            }
            tile.is_tree()
        },
        None => false,
    }
}

/// Smooth the forest edge at the given position.
pub fn smooth_trees_at(
    terrain: &TileMap,
    position: &MapPosition,
    effects: ToolEffects,
    preserve: bool,
) -> (r: Result<ToolEffects, String>)
    requires
        smoothing_fits(*position),
    ensures
        r matches Ok(e) && e.changes() == trees_smoothed(effects.changes(), *terrain, *position, preserve)
            && e.is_free() == effects.is_free() && e.total_cost() == effects.total_cost()
            && e.change_list() == trees_smoothed_list(effects.change_list(), *terrain, *position, preserve),
{
    proof {
        effects.lemma_changes_listed();
    }
    match effects.get_map_tile_at(terrain, position) {
        Some(tile) => {
            proof {
                let v = effects.value_at(*terrain, *position).unwrap().raw();
                assert(v & 0x03ffu16 <= 0x03ff) by (bit_vector);
                let raw = tile.raw();
                assert(raw & 0x03ffu16 == raw) by (bit_vector)
                    requires
                        raw <= 0x03ff,
                ;
            }
            if !tile.is_tree() {
                return Ok(effects);
            }
        },
        None => {
            return Ok(effects);
        },
    }
    let mut bit_index: u16 = 0;
    let mut z: usize = 0;
    while z < 4
        invariant
            z <= 4,
            smoothing_fits(*position),
            bit_index < 16,
            bit_index as int == (if z >= 1 {
                bit_if(tree_neighbor(effects.changes(), *terrain, *position, 0), 1) * if z == 1 { 1int } else if z == 2 { 2 } else if z == 3 { 4 } else { 8 }
            } else {
                0
            }) + (if z >= 2 {
                bit_if(tree_neighbor(effects.changes(), *terrain, *position, 1), 1) * if z == 2 { 1int } else if z == 3 { 2 } else { 4 }
            } else {
                0
            }) + (if z >= 3 {
                bit_if(tree_neighbor(effects.changes(), *terrain, *position, 2), 1) * if z == 3 { 1int } else { 2 }
            } else {
                0
            }) + (if z >= 4 {
                bit_if(tree_neighbor(effects.changes(), *terrain, *position, 3), 1)
            } else {
                0
            }),
            bit_index < (if z == 0 { 1int } else if z == 1 { 2 } else if z == 2 { 4 } else if z == 3 { 8 } else { 16 }),
        decreases 4 - z,
    {
        assert(bit_index << 1u16 == bit_index * 2) by (bit_vector)
            requires
                bit_index < 16,
        ;
        bit_index = bit_index << 1;
        if is_tree_neighbor(terrain, position, &effects, z) {
            bit_index = bit_index + 1;
        }
        z = z + 1;
    }
    assert(bit_index & 0x0F == bit_index) by (bit_vector)
        requires
            bit_index < 16,
    ;
    let woods_type_raw = TileType::Woods.raw_value();
    let table_index = (bit_index & 0x0F) as usize;
    let temp = smooth_forest_edges_table(table_index);
    if temp == 0 {
        if preserve {
            Ok(effects)
        } else {
            let tile = match Tile::from_raw(temp) {
                Ok(t) => t,
                Err(e) => {
                    return Err(e);
                },
            };
            proof {
                Tile::lemma_of_raw(tile);
            }
            Ok(effects.add_modification(position, tile))
        }
    } else {
        let odd = (position.x + position.y) & 0x01 != 0x00;
        let edge = if temp != woods_type_raw && odd {
            temp - 8
        } else {
            temp
        };
        proof {
            assert(TILE_BURN_BULL_BIT | edge == 0x3000 + edge) by (bit_vector)
                requires
                    edge <= 37,
                    TILE_BURN_BULL_BIT == 0x3000u16,
            ;
        }
        let tile = match Tile::from_raw(TILE_BURN_BULL_BIT | edge) {
            Ok(t) => t,
            Err(e) => {
                return Err(e);
            },
        };
        proof {
            Tile::lemma_of_raw(tile);
        }
        Ok(effects.add_modification(position, tile))
    }
}

/// Where a tree splash is: the tiles, the generator state, its position, and
/// whether it has stopped.
pub struct TreeWalk {
    pub cells: Seq<Seq<Tile>>,
    pub rng: u64,
    pub position: MapPosition,
    pub stopped: bool,
}

/// One step of a tree splash on a map of the given size: it draws a random
/// direction, stops at the 32-bit limits or where the moved position leaves
/// the map, and otherwise turns dirt at the moved position into woods.
pub open spec fn tree_step(s: TreeWalk, width: nat, height: nat, strategy: MapClusteringStrategy) -> TreeWalk {
    let p = s.position;
    if s.stopped {
        s
    } else {
        let s1 = lcg_next(s.rng);
        let d = numbered_direction(1 + abs_int(trunc_rem(draw_bits(s1), 8)));
        if p.x == i32::MIN || p.x == i32::MAX || p.y == i32::MIN || p.y == i32::MAX {
            TreeWalk { rng: s1, stopped: true, ..s }
        } else {
            let q = MapPosition { x: (p.x + d.delta().0) as i32, y: (p.y + d.delta().1) as i32 };
            if !in_area(width, height, strategy, q) {
                TreeWalk { rng: s1, position: q, stopped: true, ..s }
            } else {
                let cells = match grid_value_at(s.cells, strategy, q) {
                    Some(t) => if t.kind() == Some(TileType::Dirt) {
                        write_cell(s.cells, strategy, q, Tile::of_raw(woods_raw()))
                    } else {
                        s.cells
                    },
                    None => s.cells,
                };
                TreeWalk { cells, rng: s1, position: q, stopped: false }
            }
        }
    }
}

/// The first `n` steps of a tree splash.
pub open spec fn tree_walk(s: TreeWalk, width: nat, height: nat, strategy: MapClusteringStrategy, n: int) -> TreeWalk
    decreases n,
{
    if n <= 0 {
        s
    } else {
        tree_step(tree_walk(s, width, height, strategy, n - 1), width, height, strategy)
    }
}

/// A stopped splash stays as it is.
proof fn lemma_tree_walk_stopped(s: TreeWalk, width: nat, height: nat, strategy: MapClusteringStrategy, k: int, n: int)
    requires
        0 <= k <= n,
        tree_walk(s, width, height, strategy, k).stopped,
    ensures
        tree_walk(s, width, height, strategy, n) == tree_walk(s, width, height, strategy, k),
    decreases n - k,
{
    if k < n {
        lemma_tree_walk_stopped(s, width, height, strategy, k, n - 1);
    }
}

/// Number of steps of a splash, from a draw in the generator state `state`.
pub open spec fn splash_length(level_trees: i16, state: u64) -> int {
    if level_trees < 0 {
        50 + trunc_rem(draw_bits(state), 151)
    } else {
        50 + trunc_rem(draw_bits(state), 100 + 2 * level_trees + 1)
    }
}

/// The tiles and generator state after a tree splash from `at`: the number
/// of steps is drawn first, then the walk goes (see `tree_step`).
pub open spec fn splashed(
    cells: Seq<Seq<Tile>>,
    width: nat,
    height: nat,
    strategy: MapClusteringStrategy,
    state: u64,
    level_trees: i16,
    at: MapPosition,
) -> (Seq<Seq<Tile>>, u64) {
    let s1 = lcg_next(state);
    let w = tree_walk(
        TreeWalk { cells, rng: s1, position: at, stopped: false },
        width,
        height,
        strategy,
        splash_length(level_trees, s1),
    );
    (w.cells, w.rng)
}

/// One step of a tree splash (see `tree_step`): the next position, and
/// whether the splash goes on.
#[verifier::spinoff_prover]
fn tree_step_at(rng: &mut MicropolisRandom, terrain: &mut TileMap, position: MapPosition) -> (r: (
    MapPosition,
    bool,
))
    ensures
        tree_step(
            TreeWalk { cells: old(terrain).cells(), rng: old(rng).state(), position, stopped: false },
            old(terrain).width(),
            old(terrain).height(),
            old(terrain).strategy(),
        ) == (TreeWalk { cells: final(terrain).cells(), rng: final(rng).state(), position: r.0, stopped: !r.1 }),
        final(rng).creation_seed() == old(rng).creation_seed(),
        final(terrain).strategy() == old(terrain).strategy(),
        same_shape(final(terrain).cells(), old(terrain).cells()),
{
    let woods_type_raw = TileType::Woods.raw_value();
    let direction = random_direction(rng);
    if position.x == i32::MIN || position.x == i32::MAX || position.y == i32::MIN || position.y
        == i32::MAX {
        return (position, false);
    }
    let tree_position = direction.apply(&position);
    if !terrain.in_bounds(&tree_position) {
        return (tree_position, false);
    }
    proof {
        terrain.lemma_tile_at_cells(tree_position);
    }
    match terrain.get_tile_at(&tree_position) {
        Some(t) => {
            let mut tile = *t;
            if tile.get_type() == &Some(TileType::Dirt) {
                let raw = woods_type_raw | TILE_BLBNBIT_MASK;
                proof {
                    assert(woods_type_raw | 0x3000u16 == woods_type_raw + 0x3000) by (bit_vector)
                        requires
                            woods_type_raw < 0x1000,
                    ;
                }
                tile.set_raw(raw);
                proof {
                    Tile::lemma_of_raw(tile);
                    lemma_write_cell_shape(terrain.cells(), terrain.strategy(), tree_position, tile);
                }
                terrain.set_tile_at(&tree_position, tile);
            }
        },
        None => {},
    }
    (tree_position, true)
}

/// Splash a bunch of trees near the given position (see `splashed`).
///
/// The amount of trees generated depends on `level_trees`.
/// Note: trees are not smoothed.
///
/// Trees are generated even if `level_trees` is 0. The walk stops where it
/// would leave the map or the 32-bit positions.
fn splash_trees(rng: &mut MicropolisRandom, level_trees: i16, terrain: &mut TileMap, at: &MapPosition)
    requires
        level_trees <= 16000,
    ensures
        (final(terrain).cells(), final(rng).state()) == splashed(
            old(terrain).cells(),
            old(terrain).width(),
            old(terrain).height(),
            old(terrain).strategy(),
            old(rng).state(),
            level_trees,
            *at,
        ),
        final(rng).creation_seed() == old(rng).creation_seed(),
        final(terrain).strategy() == old(terrain).strategy(),
        same_shape(final(terrain).cells(), old(terrain).cells()),
{
    let trees_count: i16 = if level_trees < 0 {
        50 + rng.get_random(150)
    } else {
        50 + rng.get_random(100 + level_trees * 2)
    };
    let ghost width = terrain.width();
    let ghost height = terrain.height();
    let ghost strategy = terrain.strategy();
    let ghost init = TreeWalk { cells: terrain.cells(), rng: rng.state(), position: *at, stopped: false };
    let mut tree_position = *at;
    let mut steps: i16 = 0;
    let mut going = true;
    while steps < trees_count && going
        invariant
            0 <= steps,
            trees_count <= 0 ==> steps == 0,
            trees_count > 0 ==> steps <= trees_count,
            !going ==> 0 < steps <= trees_count,
            trees_count as int == splash_length(level_trees, init.rng),
            init.position == *at,
            init.rng == lcg_next(old(rng).state()),
            !init.stopped,
            width == old(terrain).width(),
            height == old(terrain).height(),
            strategy == old(terrain).strategy(),
            init.cells == old(terrain).cells(),
            tree_walk(init, width, height, strategy, steps as int) == (TreeWalk {
                cells: terrain.cells(),
                rng: rng.state(),
                position: tree_position,
                stopped: !going,
            }),
            rng.creation_seed() == old(rng).creation_seed(),
            terrain.strategy() == old(terrain).strategy(),
            same_shape(terrain.cells(), old(terrain).cells()),
        decreases trees_count - steps,
    {
        let (next_position, still_going) = tree_step_at(rng, terrain, tree_position);
        proof {
            if terrain.cells().len() > 0 {
                assert(terrain.cells()[0].len() == old(terrain).cells()[0].len());
            }
        }
        tree_position = next_position;
        going = still_going;
        steps = steps + 1;
    }
    proof {
        if !going {
            lemma_tree_walk_stopped(init, width, height, strategy, steps as int, trees_count as int);
        } else if trees_count <= 0 {
            assert(tree_walk(init, width, height, strategy, trees_count as int) == init);
            assert(tree_walk(init, width, height, strategy, 0) == init);
        }
        assert(init == (TreeWalk { cells: old(terrain).cells(), rng: lcg_next(old(rng).state()), position: *at, stopped: false }));
    }
}

/// The list of modifications after smoothing (without preserving trees) the
/// first `n` positions of column `x`, top down.
pub open spec fn column_smoothed(s: Seq<(MapPosition, Tile)>, map: TileMap, x: int, n: int) -> Seq<
    (MapPosition, Tile),
>
    decreases n,
{
    if n <= 0 {
        s
    } else {
        trees_smoothed_list(
            column_smoothed(s, map, x, n - 1),
            map,
            MapPosition { x: x as i32, y: (n - 1) as i32 },
            false,
        )
    }
}

/// The list of modifications after smoothing the first `n` columns of the map.
pub open spec fn columns_smoothed(map: TileMap, n: int) -> Seq<(MapPosition, Tile)>
    decreases n,
{
    if n <= 0 {
        Seq::empty()
    } else {
        column_smoothed(columns_smoothed(map, n - 1), map, n - 1, map.height() as int)
    }
}

/// A map with the given cells and clustering strategy.
pub open spec fn map_of_cells(cells: Seq<Seq<Tile>>, strategy: MapClusteringStrategy) -> TileMap {
    choose|m: TileMap| m.cells() == cells && m.strategy() == strategy
}

/// The cells after smoothing the forest edges of the whole map: every
/// position is smoothed in turn, column by column, each seeing the
/// modifications before it, and the modifications are then written.
pub open spec fn forest_smoothed_cells(cells: Seq<Seq<Tile>>, strategy: MapClusteringStrategy) -> Seq<
    Seq<Tile>,
> {
    let m = map_of_cells(cells, strategy);
    write_changes(cells, strategy, columns_smoothed(m, m.width() as int))
}

/// Smoothing depends on the map's cells and clustering strategy alone.
proof fn lemma_columns_smoothed_cells(a: TileMap, b: TileMap, n: int)
    requires
        a.cells() == b.cells(),
        a.strategy() == b.strategy(),
    ensures
        columns_smoothed(a, n) == columns_smoothed(b, n),
    decreases n,
{
    if n > 0 {
        lemma_columns_smoothed_cells(a, b, n - 1);
        lemma_column_smoothed_cells(a, b, columns_smoothed(a, n - 1), n - 1, a.height() as int);
    }
}

proof fn lemma_column_smoothed_cells(a: TileMap, b: TileMap, s: Seq<(MapPosition, Tile)>, x: int, n: int)
    requires
        a.cells() == b.cells(),
        a.strategy() == b.strategy(),
    ensures
        column_smoothed(s, a, x, n) == column_smoothed(s, b, x, n),
    decreases n,
{
    if n > 0 {
        lemma_column_smoothed_cells(a, b, s, x, n - 1);
        let c = column_smoothed(s, a, x, n - 1);
        let p = MapPosition { x: x as i32, y: (n - 1) as i32 };
        let ch = entries_map(c);
        assert(tree_pattern(ch, a, p) == tree_pattern(ch, b, p));
        assert(smoothed_tile(ch, a, p, false) == smoothed_tile(ch, b, p, false));
    }
}

/// Smooth the forest edges of the whole terrain (see `forest_smoothed_cells`).
fn smooth_trees(terrain: &mut TileMap) -> (r: Result<(), String>)
    requires
        old(terrain).width() < 0x4000_0000,
        old(terrain).height() < 0x4000_0000,
    ensures
        r is Ok,
        final(terrain).strategy() == old(terrain).strategy(),
        final(terrain).cells() == forest_smoothed_cells(old(terrain).cells(), old(terrain).strategy()),
        same_shape(final(terrain).cells(), old(terrain).cells()),
{
    let mut effects = ToolEffects::new(true);
    let map_size = terrain.bounds();
    let ghost map = *terrain;
    let mut x: usize = 0;
    while x < map_size.width
        invariant
            map_size.width == map.width(),
            map_size.height == map.height(),
            map == *terrain,
            map_size.width < 0x4000_0000,
            map_size.height < 0x4000_0000,
            x <= map_size.width,
            effects.change_list() == columns_smoothed(map, x as int),
        decreases map_size.width - x,
    {
        let mut y: usize = 0;
        while y < map_size.height
            invariant
                map_size.width == map.width(),
                map_size.height == map.height(),
                map == *terrain,
                map_size.width < 0x4000_0000,
                map_size.height < 0x4000_0000,
                x < map_size.width,
                y <= map_size.height,
                effects.change_list() == column_smoothed(columns_smoothed(map, x as int), map, x as int, y as int),
            decreases map_size.height - y,
        {
            let position = MapPosition::new(x as i32, y as i32);
            effects = match smooth_trees_at(terrain, &position, effects, false) {
                Ok(e) => e,
                Err(e) => {
                    return Err(e);
                },
            };
            y = y + 1;
        }
        x = x + 1;
    }
    let ghost changes = effects.change_list();
    let _ = effects.modify_world(terrain);
    proof {
        lemma_write_changes_shape(old(terrain).cells(), old(terrain).strategy(), changes);
        let m = map_of_cells(map.cells(), map.strategy());
        assert(m.cells() == map.cells() && m.strategy() == map.strategy());
        lemma_columns_smoothed_cells(m, map, m.width() as int);
    }
    Ok(())
}

/// Number of tree splashes for a level of trees, and the generator state
/// after it is drawn.
pub open spec fn forest_amount(level_trees: i16, state: u64) -> (int, u64) {
    if level_trees < 0 {
        (50 + trunc_rem(draw_bits(lcg_next(state)), 101), lcg_next(state))
    } else {
        (3 + level_trees, state)
    }
}

/// The tiles and generator state after `n` tree splashes, each at a random
/// position (x drawn below the width, then y below the height).
pub open spec fn forest_splashes(
    cells: Seq<Seq<Tile>>,
    width: nat,
    height: nat,
    strategy: MapClusteringStrategy,
    state: u64,
    level_trees: i16,
    n: int,
) -> (Seq<Seq<Tile>>, u64)
    decreases n,
{
    if n <= 0 {
        (cells, state)
    } else {
        let prev = forest_splashes(cells, width, height, strategy, state, level_trees, n - 1);
        let s1 = lcg_next(prev.1);
        let x = trunc_rem(draw_bits(s1), (width as i16) as int);
        let s2 = lcg_next(s1);
        let y = trunc_rem(draw_bits(s2), (height as i16) as int);
        splashed(prev.0, width, height, strategy, s2, level_trees, MapPosition { x: x as i32, y: y as i32 })
    }
}

/// The tiles and generator state after planting forests: the splashes, then
/// two smoothings of the whole map.
pub open spec fn forests_made(
    cells: Seq<Seq<Tile>>,
    width: nat,
    height: nat,
    strategy: MapClusteringStrategy,
    state: u64,
    level_trees: i16,
) -> (Seq<Seq<Tile>>, u64) {
    let (amount, s0) = forest_amount(level_trees, state);
    let (splashes, s1) = forest_splashes(cells, width, height, strategy, s0, level_trees, amount);
    (forest_smoothed_cells(forest_smoothed_cells(splashes, strategy), strategy), s1)
}

/// Plant forests on the terrain: splash trees at random positions, then
/// smooth the forest edges (twice); see `forests_made`.
pub fn make_forests(rng: &mut MicropolisRandom, level_trees: i16, terrain: &mut TileMap) -> (r:
    Result<(), String>)
    requires
        level_trees <= 16000,
        old(terrain).width() < 0x4000_0000,
        old(terrain).height() < 0x4000_0000,
        old(terrain).width() as i16 != 0 && old(terrain).width() as i16 != i16::MIN,
        old(terrain).height() as i16 != 0 && old(terrain).height() as i16 != i16::MIN,
    ensures
        r is Ok,
        (final(terrain).cells(), final(rng).state()) == forests_made(
            old(terrain).cells(),
            old(terrain).width(),
            old(terrain).height(),
            old(terrain).strategy(),
            old(rng).state(),
            level_trees,
        ),
        final(rng).creation_seed() == old(rng).creation_seed(),
        final(terrain).strategy() == old(terrain).strategy(),
        same_shape(final(terrain).cells(), old(terrain).cells()),
{
    let amount: i16 = if level_trees < 0 {
        50 + rng.get_random(100)
    } else {
        3 + level_trees
    };
    let ghost s0 = rng.state();
    let ghost width = terrain.width();
    let ghost height = terrain.height();
    let ghost strategy = terrain.strategy();
    let map_size = terrain.bounds();
    let mut i: i16 = 0;
    while i < amount
        invariant
            level_trees <= 16000,
            0 <= i,
            amount > 0 ==> i <= amount,
            amount <= 0 ==> i == 0,
            (amount as int, s0) == forest_amount(level_trees, old(rng).state()),
            width == old(terrain).width(),
            height == old(terrain).height(),
            strategy == old(terrain).strategy(),
            map_size.width == old(terrain).width(),
            map_size.height == old(terrain).height(),
            map_size.width as i16 != 0 && map_size.width as i16 != i16::MIN,
            map_size.height as i16 != 0 && map_size.height as i16 != i16::MIN,
            (terrain.cells(), rng.state()) == forest_splashes(
                old(terrain).cells(),
                width,
                height,
                strategy,
                s0,
                level_trees,
                i as int,
            ),
            rng.creation_seed() == old(rng).creation_seed(),
            terrain.strategy() == old(terrain).strategy(),
            same_shape(terrain.cells(), old(terrain).cells()),
        decreases amount - i,
    {
        let x = rng.get_random(map_size.width as i16 - 1);
        let y = rng.get_random(map_size.height as i16 - 1);
        proof {
            if terrain.cells().len() > 0 {
                assert(terrain.cells()[0].len() == old(terrain).cells()[0].len());
            }
        }
        splash_trees(rng, level_trees, terrain, &MapPosition::from((x, y)));
        proof {
            if terrain.cells().len() > 0 {
                assert(terrain.cells()[0].len() == old(terrain).cells()[0].len());
            }
        }
        i = i + 1;
    }
    proof {
        if amount <= 0 {
            assert(forest_splashes(old(terrain).cells(), width, height, strategy, s0, level_trees, amount as int)
                == forest_splashes(old(terrain).cells(), width, height, strategy, s0, level_trees, 0));
        }
        if terrain.cells().len() > 0 {
            assert(terrain.cells()[0].len() == old(terrain).cells()[0].len());
        }
    }
    match smooth_trees(terrain) {
        Ok(()) => {},
        Err(e) => {
            return Err(e);
        },
    }
    proof {
        if terrain.cells().len() > 0 {
            assert(terrain.cells()[0].len() == old(terrain).cells()[0].len());
        }
    }
    smooth_trees(terrain)
}

} // verus!
