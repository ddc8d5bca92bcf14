use vstd::prelude::*;

use crate::map::position::{fits_i32, MapPosition};
use crate::map::tiles::{type_bits, TILE_LOW_MASK};
use crate::map::tiles_type::TileType;
use crate::map::TileMap;

verus! {

/// Is there a single tile house at the position?
pub open spec fn house_at(map: TileMap, p: MapPosition) -> bool {
    match map.tile_at(p) {
        Some(t) => TileType::House.code() <= type_bits(t.raw()) <= TileType::Hhthr.code(),
        None => false,
    }
}

/// Number of single tile houses among the `n` positions from `(x, y)` down.
pub open spec fn column_houses(map: TileMap, x: int, y: int, n: int) -> int
    decreases n,
{
    if n <= 0 {
        0
    } else {
        column_houses(map, x, y, n - 1) + if house_at(map, MapPosition { x: x as i32, y: (y + n - 1) as i32 }) {
            1int
        } else {
            0
        }
    }
}

/// Number of single tile houses in the `n` columns of three positions from
/// `(x, y)` rightwards.
pub open spec fn block_houses(map: TileMap, x: int, y: int, n: int) -> int
    decreases n,
{
    if n <= 0 {
        0
    } else {
        block_houses(map, x, y, n - 1) + column_houses(map, x + n - 1, y, 3)
    }
}

/// Number of single tile houses in the 3x3 zone centered on the position.
pub open spec fn free_population(map: TileMap, at: MapPosition) -> int {
    block_houses(map, at.x - 1, at.y - 1, 3)
}

proof fn lemma_column_houses_bound(map: TileMap, x: int, y: int, n: int)
    requires
        n >= 0,
    ensures
        0 <= column_houses(map, x, y, n) <= n,
    decreases n,
{
    if n > 0 {
        lemma_column_houses_bound(map, x, y, n - 1);
    }
}

proof fn lemma_block_houses_bound(map: TileMap, x: int, y: int, n: int)
    requires
        n >= 0,
    ensures
        0 <= block_houses(map, x, y, n) <= 3 * n,
    decreases n,
{
    if n > 0 {
        lemma_block_houses_bound(map, x, y, n - 1);
        lemma_column_houses_bound(map, x + n - 1, y, 3);
    }
}

/// Count the number of single tile houses in a residential zone: the houses
/// of the 3x3 zone centered on the position.
pub fn count_free_population(map: &TileMap, at: &MapPosition) -> (r: u16)
    requires
        fits_i32(at.x - 1),
        fits_i32(at.y - 1),
        fits_i32(at.x + 1),
        fits_i32(at.y + 1),
    ensures
        r == free_population(*map, *at),
        r <= 9,
{
    let mut count: u16 = 0;
    let house_type_min = TileType::House.raw_value();
    let house_type_max = TileType::Hhthr.raw_value();
    let mut i: i32 = 0;
    while i < 3
        invariant
            0 <= i <= 3,
            fits_i32(at.x - 1),
            fits_i32(at.y - 1),
            fits_i32(at.x + 1),
            fits_i32(at.y + 1),
            house_type_min == TileType::House.code(),
            house_type_max == TileType::Hhthr.code(),
            count == block_houses(*map, at.x - 1, at.y - 1, i as int),
            count <= 3 * i,
        decreases 3 - i,
    {
        let x: i32 = at.get_x() - 1 + i;
        let mut j: i32 = 0;
        let ghost start = count;
        while j < 3
            invariant
                0 <= i < 3,
                0 <= j <= 3,
                x == at.x - 1 + i,
                fits_i32(at.y - 1),
                fits_i32(at.y + 1),
                house_type_min == TileType::House.code(),
                house_type_max == TileType::Hhthr.code(),
                start == block_houses(*map, at.x - 1, at.y - 1, i as int),
                start <= 3 * i,
                count == start + column_houses(*map, x as int, at.y - 1, j as int),
                count <= start + j,
            decreases 3 - j,
        {
            let y: i32 = at.get_y() - 1 + j;
            let position = MapPosition::new(x, y);
            match map.get_tile_at(&position) {
                Some(tile) => {
                    let tile_value = tile.get_raw() & TILE_LOW_MASK;
                    if tile_value >= house_type_min && tile_value <= house_type_max {
                        count = count + 1;
                    }
                },
                None => {},
            }
            j = j + 1;
        }
        i = i + 1;
    }
    count
}

/// Returns the population of a residential zone center tile of type:
/// (ResidentialZoneBase, ResidentialZoneBase+9, ..., HOSPITAL - 9).
///
/// Parameter: `tile` center tile of a residential zone.
/// Returns: Population of the residential zone (16, 24, 32, 40, 16, ..., 40).
pub fn get_residential_zone_population(tile_value: u16) -> (r: u16)
    requires
        tile_value >= TileType::ResidentialZoneBase.code(),
    ensures
        r == ((tile_value - TileType::ResidentialZoneBase.code()) / 9) % 4 * 8 + 16,
{
    let zone_base_raw = TileType::ResidentialZoneBase.raw_value();
    let cz_den = ((tile_value - zone_base_raw) / 9) % 4;
    cz_den * 8 + 16
}

/// Returns the population of a commercial zone center tile.
pub fn get_commercial_zone_population(tile_value: u16) -> (r: u16)
    requires
        tile_value == TileType::CommercialClr.code() || tile_value
            >= TileType::CommercialZoneBase.code(),
    ensures
        r == if tile_value == TileType::CommercialClr.code() {
            0
        } else {
            ((tile_value - TileType::CommercialZoneBase.code()) / 9) % 5 + 1
        },
{
    if tile_value == TileType::CommercialClr.raw_value() {
        0
    } else {
        let cz_den = ((tile_value - TileType::CommercialZoneBase.raw_value()) / 9) % 5 + 1;
        cz_den
    }
}

/// Returns the population of an industrial zone center tile.
pub fn get_industrial_zone_population(tile_value: u16) -> (r: u16)
    requires
        tile_value == TileType::IndustrialClr.code() || tile_value
            >= TileType::IndustrialZoneBase.code(),
    ensures
        r == if tile_value == TileType::IndustrialClr.code() {
            0
        } else {
            ((tile_value - TileType::IndustrialZoneBase.code()) / 9) % 4 + 1
        },
{
    if tile_value == TileType::IndustrialClr.raw_value() {
        0
    } else {
        let cz_den = (((tile_value - TileType::IndustrialZoneBase.raw_value()) / 9) % 4) + 1;
        cz_den
    }
}

} // verus!
