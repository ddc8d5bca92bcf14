use vstd::prelude::*;

use crate::map::position::{abs_int, direction_of_code, MapPosition, MapPositionOffset};
use crate::map::tiles::{Tile, TILE_STATUS_MASK};
use crate::map::tiles_type::TileType;
use crate::map::{cell_exists, write_cell, MapClusteringStrategy, TileMap};
use crate::utils::random::{draw_bits, lcg_next, random16_at, trunc_rem, MicropolisRandom};

verus! {

/// Tile at the position of a grid of cells, as `get_tile_at` reads it.
pub open spec fn grid_tile_at(
    cells: Seq<Seq<Tile>>,
    strategy: MapClusteringStrategy,
    p: MapPosition,
) -> Option<Tile> {
    let b = strategy.block_of(p);
    if b.x >= 0 && b.y >= 0 && b.x < cells.len() as i32 && cells.len() > 0 && b.y
        < cells[0].len() as i32 && cell_exists(cells, strategy, p) {
        Some(cells[b.x as int][b.y as int])
    } else {
        None
    }
}

/// The tile with the type bits replaced by those of `tile_type`, keeping the status bits.
pub open spec fn retyped(t: Tile, tile_type: TileType) -> Tile {
    choose|u: Tile|
        u.raw() == (t.raw() & TILE_STATUS_MASK) | (tile_type.code() as u16) && u.kind() == Some(
            tile_type,
        )
}

/// The grid after putting a tile of the given type at the position, if
/// possible: dirt puts nothing, river stays unless a channel is put, and
/// channels stay; `None` when the type is invalid.
pub open spec fn put_on_grid(
    cells: Seq<Seq<Tile>>,
    strategy: MapClusteringStrategy,
    tile_type: TileType,
    p: MapPosition,
) -> Option<Seq<Seq<Tile>>> {
    if tile_type == TileType::Dirt {
        Some(cells)
    } else {
        match grid_tile_at(cells, strategy, p) {
            None => Some(cells),
            Some(t) => if (t.kind() == Some(TileType::River) && tile_type != TileType::Channel)
                || t.kind() == Some(TileType::Channel) {
                Some(cells)
            } else if tile_type == TileType::Invalid {
                None
            } else {
                Some(write_cell(cells, strategy, p, retyped(t, tile_type)))
            },
        }
    }
}

/// Direction numbered 1 (north) to 8 (north-west), turning clockwise.
pub open spec fn numbered_direction(n: int) -> MapPositionOffset {
    direction_of_code(n)
}

/// Draw a random direction among the eight; a negative draw counts by its size.
pub fn random_direction(rng: &mut MicropolisRandom) -> (r: MapPositionOffset)
    ensures
        final(rng).state() == lcg_next(old(rng).state()),
        final(rng).creation_seed() == old(rng).creation_seed(),
        r == numbered_direction(1 + abs_int(trunc_rem(draw_bits(final(rng).state()), 8))),
        r != MapPositionOffset::NoDirection,
{
    let draw = rng.get_random(7);
    let n: i16 = if draw < 0 {
        -draw
    } else {
        draw
    };
    match 1 + n {
        1 => MapPositionOffset::North,
        2 => MapPositionOffset::NorthEast,
        3 => MapPositionOffset::East,
        4 => MapPositionOffset::SouthEast,
        5 => MapPositionOffset::South,
        6 => MapPositionOffset::SouthWest,
        7 => MapPositionOffset::West,
        _ => MapPositionOffset::NorthWest,
    }
}

/// Draw a random river direction among north, east, south and west; a
/// negative draw counts by its size.
pub fn random_river_direction(rng: &mut MicropolisRandom) -> (r: MapPositionOffset)
    ensures
        final(rng).state() == lcg_next(old(rng).state()),
        final(rng).creation_seed() == old(rng).creation_seed(),
        r == numbered_direction(1 + 2 * abs_int(trunc_rem(draw_bits(final(rng).state()), 4))),
        r == MapPositionOffset::North || r == MapPositionOffset::East || r
            == MapPositionOffset::South || r == MapPositionOffset::West,
{
    let draw = rng.get_random(3);
    let n: i16 = if draw < 0 {
        -draw
    } else {
        draw
    };
    match 1 + 2 * n {
        1 => MapPositionOffset::North,
        3 => MapPositionOffset::East,
        5 => MapPositionOffset::South,
        _ => MapPositionOffset::West,
    }
}

/// Put the given tile type on the map terrain, **if possible**.
pub fn put_tile_on_terrain(terrain: &mut TileMap, new_tile_type: TileType, at: &MapPosition) -> (r:
    Result<(), String>)
    ensures
        final(terrain).strategy() == old(terrain).strategy(),
        match put_on_grid(old(terrain).cells(), old(terrain).strategy(), new_tile_type, *at) {
            None => r is Err && final(terrain).cells() == old(terrain).cells(),
            Some(c) => r is Ok && final(terrain).cells() == c,
        },
{
    if new_tile_type == TileType::Dirt {
        return Ok(());
    }
    let mut tile = match terrain.get_tile_at(at) {
        Some(t) => *t,
        None => {
            return Ok(());
        },
    };
    let keep = match tile.get_type() {
        Some(TileType::River) => new_tile_type != TileType::Channel,
        Some(TileType::Channel) => true,
        _ => false,
    };
    if keep {
        return Ok(());
    }
    let ghost before = tile;
    match tile.set_type(new_tile_type) {
        Ok(()) => {},
        Err(e) => {
            return Err(e);
        },
    }
    proof {
        let c = retyped(before, new_tile_type);
        assert(c.raw() == tile.raw() && c.kind() == tile.kind());
        Tile::lemma_ext_equal(c, tile);
    }
    terrain.set_tile_at(at, tile);
    Ok(())
}

} // verus!
