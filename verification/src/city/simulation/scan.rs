use vstd::prelude::*;
use crate::utils::bits::lemma_u8_low_bits;

use crate::map::position::fits_i32;
use crate::map::tiles::{type_bits, TILE_LOW_MASK, TILE_ZONE_BIT};
use crate::map::tiles_type::TileType;
use crate::map::{
    sweep, sweep_column, uniform_cells, write_cell, MapClusteringStrategy, MapPosition, TileMap,
    WorldMap,
};
use crate::utils::random::MicropolisRandom;

use super::zones::{
    count_free_population, free_population, get_commercial_zone_population,
    get_industrial_zone_population, get_residential_zone_population,
};

verus! {

/// Value of a map at `(x, y)`, 0 where the map has none.
pub open spec fn value_at(m: WorldMap<u8>, x: int, y: int) -> int {
    match m.tile_at(MapPosition { x: x as i32, y: y as i32 }) {
        Some(v) => v as int,
        None => 0,
    }
}

/// Every position of the first `w` columns and `h` rows has a value.
pub open spec fn covers(m: WorldMap<u8>, w: int, h: int) -> bool {
    forall|x: int, y: int|
        0 <= x < w && 0 <= y < h ==> #[trigger] m.tile_at(MapPosition { x: x as i32, y: y as i32 })
            is Some
}

/// Value at `(x, y)` plus those of its neighbours inside the `w` by `h` area.
pub open spec fn neighborhood_sum(m: WorldMap<u8>, x: int, y: int, w: int, h: int) -> int {
    (if x > 0 {
        value_at(m, x - 1, y)
    } else {
        0
    }) + (if x < w - 1 {
        value_at(m, x + 1, y)
    } else {
        0
    }) + (if y > 0 {
        value_at(m, x, y - 1)
    } else {
        0
    }) + (if y < h - 1 {
        value_at(m, x, y + 1)
    } else {
        0
    }) + value_at(m, x, y)
}

/// Smoothed value at each position (without dithering): a quarter of the
/// neighbourhood sum.
pub open spec fn smoothed_value(m: WorldMap<u8>, w: int, h: int) -> spec_fn(int, int) -> u8 {
    |x: int, y: int| (neighborhood_sum(m, x, y, w, h) / 4) as u8
}

/// Value at `(x, y)` plus those of its four neighbours, a neighbour outside
/// the `w` by `h` area being replaced by the position itself.
pub open spec fn clamped_sum(m: WorldMap<u8>, x: int, y: int, w: int, h: int) -> int {
    value_at(
        m,
        if x == 0 {
            x
        } else {
            x - 1
        },
        y,
    ) + value_at(
        m,
        if x == w - 1 {
            x
        } else {
            x + 1
        },
        y,
    ) + value_at(
        m,
        x,
        if y == 0 {
            0
        } else {
            y - 1
        },
    ) + value_at(
        m,
        x,
        if y == h - 1 {
            y
        } else {
            y + 1
        },
    ) + value_at(m, x, y)
}

/// Dithered smoothing of the first `n` positions of column `x`: the cells
/// reached, the carried remainder, and whether every running sum fit in a byte.
pub open spec fn dither_column(
    src: WorldMap<u8>,
    w: int,
    h: int,
    cells: Seq<Seq<u8>>,
    strategy: MapClusteringStrategy,
    z: int,
    x: int,
    n: int,
) -> (Seq<Seq<u8>>, int, bool)
    decreases n,
{
    if n <= 0 {
        (cells, z, true)
    } else {
        let (c, z1, ok) = dither_column(src, w, h, cells, strategy, z, x, n - 1);
        let t = z1 + clamped_sum(src, x, n - 1, w, h);
        (
            write_cell(c, strategy, MapPosition { x: x as i32, y: (n - 1) as i32 }, (t / 4) as u8),
            t % 4,
            ok && t <= 255,
        )
    }
}

/// Number of positions of column `x` that the dithered smoothing visits: the
/// whole column for even columns, only the top for odd ones.
pub open spec fn dither_visits(x: int, h: int) -> int {
    if x % 2 == 0 {
        h
    } else if h > 0 {
        1
    } else {
        0
    }
}

/// Dithered smoothing of the first `count` columns.
pub open spec fn dithered(
    src: WorldMap<u8>,
    w: int,
    h: int,
    cells: Seq<Seq<u8>>,
    strategy: MapClusteringStrategy,
    count: int,
) -> (Seq<Seq<u8>>, int, bool)
    decreases count,
{
    if count <= 0 {
        (cells, 0, true)
    } else {
        let (c, z, ok) = dithered(src, w, h, cells, strategy, count - 1);
        let (c2, z2, ok2) = dither_column(
            src,
            w,
            h,
            c,
            strategy,
            z,
            count - 1,
            dither_visits(count - 1, h),
        );
        (c2, z2, ok && ok2)
    }
}

/// Can `smooth_dither_map` smooth the source without a byte overflowing?
pub open spec fn smoothing_fits(src: WorldMap<u8>, dest: WorldMap<u8>, dither: bool) -> bool {
    let w = src.width() as int;
    let h = src.height() as int;
    &&& w < 0x4000_0000 && h < 0x4000_0000
    &&& covers(src, w, h)
    &&& dither ==> dithered(src, w, h, dest.cells(), dest.strategy(), w).2
    &&& !dither ==> forall|x: int, y: int|
        0 <= x < w && 0 <= y < h ==> #[trigger] neighborhood_sum(src, x, y, w, h) <= 255
}

/// Cells of the destination after `smooth_dither_map`.
pub open spec fn smoothing_result(src: WorldMap<u8>, dest: WorldMap<u8>, dither: bool) -> Seq<
    Seq<u8>,
> {
    let w = src.width() as int;
    let h = src.height() as int;
    if dither {
        dithered(src, w, h, dest.cells(), dest.strategy(), w).0
    } else {
        sweep(dest.cells(), dest.strategy(), smoothed_value(src, w, h), w, h)
    }
}

/// Absolute value.
pub open spec fn abs_of(v: int) -> int {
    if v < 0 {
        -v
    } else {
        v
    }
}

/// Manhattan distance between the city center and a position, at most 64.
pub open spec fn center_distance(center: MapPosition, p: MapPosition) -> int {
    let d = abs_of(p.x - center.x) + abs_of(p.y - center.y);
    if d < 64 {
        d
    } else {
        64
    }
}

/// Can the distance be computed on 32-bit integers?
pub open spec fn distance_fits(center: MapPosition, p: MapPosition) -> bool {
    &&& fits_i32(p.x - center.x) && fits_i32(center.x - p.x)
    &&& fits_i32(p.y - center.y) && fits_i32(center.y - p.y)
    &&& fits_i32(abs_of(p.x - center.x) + abs_of(p.y - center.y))
}

/// World position of the block `(x, y)` of a map of blocks of 8 tiles.
pub open spec fn block8_position(x: int, y: int) -> MapPosition {
    MapPosition { x: (8 * x) as i32, y: (8 * y) as i32 }
}

/// Commercial rate of a block: 64 near the city center, down to -64 far away.
pub open spec fn commercial_rate(center: MapPosition) -> spec_fn(int, int) -> i16 {
    |x: int, y: int| (64 - 4 * (center_distance(center, block8_position(x, y)) / 2)) as i16
}

/// Can a tile of this type be the center of a zone whose population is read?
pub open spec fn density_center_valid(v: int) -> bool {
    ||| v == TileType::FreeZoneCenter.code()
    ||| TileType::ResidentialZoneBase.code() <= v < TileType::CommercialBase.code()
    ||| v == TileType::CommercialClr.code()
    ||| TileType::CommercialZoneBase.code() <= v < TileType::IndustrialBase.code()
    ||| v == TileType::IndustrialClr.code()
    ||| TileType::IndustrialZoneBase.code() <= v
}

/// Population density of a zone center tile of type `v` at `p`.
pub open spec fn zone_density(map: TileMap, p: MapPosition, v: int) -> int {
    if v == TileType::FreeZoneCenter.code() {
        free_population(map, p)
    } else if v < TileType::CommercialBase.code() {
        ((v - TileType::ResidentialZoneBase.code()) / 9) % 4 * 8 + 16
    } else if v < TileType::IndustrialBase.code() {
        8 * (if v == TileType::CommercialClr.code() {
            0
        } else {
            ((v - TileType::CommercialZoneBase.code()) / 9) % 5 + 1
        })
    } else if v < TileType::PortBase.code() {
        8 * (if v == TileType::IndustrialClr.code() {
            0
        } else {
            ((v - TileType::IndustrialZoneBase.code()) / 9) % 4 + 1
        })
    } else {
        0
    }
}

/// A map with the given cells and clustering strategy.
pub open spec fn grid_map(cells: Seq<Seq<u8>>, strategy: MapClusteringStrategy) -> WorldMap<u8> {
    choose|m: WorldMap<u8>| m.cells() == cells && m.strategy() == strategy
}

/// The smoothing of a map depends on its cells and clustering strategy
/// alone, as does the one of its destination.
proof fn lemma_smoothing_same_maps(a: WorldMap<u8>, b: WorldMap<u8>, c: WorldMap<u8>, d: WorldMap<u8>, dither: bool)
    requires
        a.cells() == b.cells() && a.strategy() == b.strategy(),
        c.cells() == d.cells() && c.strategy() == d.strategy(),
    ensures
        smoothing_result(a, c, dither) == smoothing_result(b, d, dither),
        smoothing_fits(a, c, dither) == smoothing_fits(b, d, dither),
{
    let w = a.width() as int;
    let h = a.height() as int;
    assert forall|x: int, y: int| value_at(a, x, y) == value_at(b, x, y) by {}
    assert(smoothed_value(a, w, h) =~= smoothed_value(b, w, h));
    lemma_dithered_same_maps(a, b, w, h, c.cells(), c.strategy(), w);
    assert forall|x: int, y: int| #[trigger] neighborhood_sum(a, x, y, w, h) == neighborhood_sum(b, x, y, w, h) by {}
    if !dither {
        if forall|x: int, y: int| 0 <= x < w && 0 <= y < h ==> #[trigger] neighborhood_sum(a, x, y, w, h) <= 255 {
            assert forall|x: int, y: int| 0 <= x < w && 0 <= y < h implies #[trigger] neighborhood_sum(b, x, y, w, h) <= 255 by {
                assert(neighborhood_sum(a, x, y, w, h) <= 255);
            }
        }
        if forall|x: int, y: int| 0 <= x < w && 0 <= y < h ==> #[trigger] neighborhood_sum(b, x, y, w, h) <= 255 {
            assert forall|x: int, y: int| 0 <= x < w && 0 <= y < h implies #[trigger] neighborhood_sum(a, x, y, w, h) <= 255 by {
                assert(neighborhood_sum(b, x, y, w, h) <= 255);
            }
        }
    }
    if covers(a, w, h) {
        assert forall|x: int, y: int|
            0 <= x < w && 0 <= y < h implies #[trigger] b.tile_at(MapPosition { x: x as i32, y: y as i32 }) is Some by {
            assert(a.tile_at(MapPosition { x: x as i32, y: y as i32 }) is Some);
        }
    }
    if covers(b, w, h) {
        assert forall|x: int, y: int|
            0 <= x < w && 0 <= y < h implies #[trigger] a.tile_at(MapPosition { x: x as i32, y: y as i32 }) is Some by {
            assert(b.tile_at(MapPosition { x: x as i32, y: y as i32 }) is Some);
        }
    }
}

proof fn lemma_dithered_same_maps(
    a: WorldMap<u8>,
    b: WorldMap<u8>,
    w: int,
    h: int,
    cells: Seq<Seq<u8>>,
    strategy: MapClusteringStrategy,
    count: int,
)
    requires
        a.cells() == b.cells() && a.strategy() == b.strategy(),
    ensures
        dithered(a, w, h, cells, strategy, count) == dithered(b, w, h, cells, strategy, count),
    decreases count,
{
    if count > 0 {
        lemma_dithered_same_maps(a, b, w, h, cells, strategy, count - 1);
        let (c, z, ok) = dithered(a, w, h, cells, strategy, count - 1);
        lemma_dither_column_same_maps(a, b, w, h, c, strategy, z, count - 1, dither_visits(count - 1, h));
    }
}

proof fn lemma_dither_column_same_maps(
    a: WorldMap<u8>,
    b: WorldMap<u8>,
    w: int,
    h: int,
    cells: Seq<Seq<u8>>,
    strategy: MapClusteringStrategy,
    z: int,
    x: int,
    n: int,
)
    requires
        a.cells() == b.cells() && a.strategy() == b.strategy(),
    ensures
        dither_column(a, w, h, cells, strategy, z, x, n) == dither_column(b, w, h, cells, strategy, z, x, n),
    decreases n,
{
    if n > 0 {
        lemma_dither_column_same_maps(a, b, w, h, cells, strategy, z, x, n - 1);
        assert(clamped_sum(a, x, n - 1, w, h) == clamped_sum(b, x, n - 1, w, h));
    }
}

/// The cells, all set to 0.
pub open spec fn cleared(cells: Seq<Seq<u8>>) -> Seq<Seq<u8>> {
    Seq::new(cells.len(), |i: int| Seq::new(cells[i].len(), |j: int| 0u8))
}

/// Where the filling of the population densities is: the density cells, and
/// the sums of the columns, of the rows and of the zone centres met.
pub struct DensityFill {
    pub cells: Seq<Seq<u8>>,
    pub x_total: int,
    pub y_total: int,
    pub count: int,
}

/// Is there a zone centre at the position?
pub open spec fn is_zone_center(map: TileMap, p: MapPosition) -> bool {
    map.tile_at(p) matches Some(t) && t.raw() & TILE_ZONE_BIT != 0
}

/// Position `(x, y)`.
pub open spec fn at_xy(x: int, y: int) -> MapPosition {
    MapPosition { x: x as i32, y: y as i32 }
}

/// A zone centre at `(x, y)`, if any, has a population that can be read.
pub open spec fn center_readable(map: TileMap, x: int, y: int) -> bool {
    is_zone_center(map, at_xy(x, y)) ==> density_center_valid(type_bits(map.tile_at(at_xy(x, y)).unwrap().raw()) as int)
}

/// The filling at `(x, y)`: a zone centre writes eight times its population
/// density (at most 254) and is counted.
pub open spec fn density_step(map: TileMap, strategy: MapClusteringStrategy, f: DensityFill, x: int, y: int) -> DensityFill {
    let p = at_xy(x, y);
    if is_zone_center(map, p) {
        let v = 8 * zone_density(map, p, type_bits(map.tile_at(p).unwrap().raw()) as int);
        DensityFill {
            cells: write_cell(f.cells, strategy, p, (if v < 254 { v } else { 254 }) as u8),
            x_total: f.x_total + x,
            y_total: f.y_total + y,
            count: f.count + 1,
        }
    } else {
        f
    }
}

/// The filling along the first `n` positions of column `x`.
pub open spec fn density_column(map: TileMap, strategy: MapClusteringStrategy, f: DensityFill, x: int, n: int) -> DensityFill
    decreases n,
{
    if n <= 0 {
        f
    } else {
        density_step(map, strategy, density_column(map, strategy, f, x, n - 1), x, n - 1)
    }
}

/// The filling along the first `n` columns, each of `h` positions.
pub open spec fn density_columns(map: TileMap, strategy: MapClusteringStrategy, f: DensityFill, n: int, h: int) -> DensityFill
    decreases n,
{
    if n <= 0 {
        f
    } else {
        density_column(map, strategy, density_columns(map, strategy, f, n - 1, h), n - 1, h)
    }
}

/// The filling of the whole map from cleared cells.
pub open spec fn density_filled(map: TileMap, cells: Seq<Seq<u8>>, strategy: MapClusteringStrategy) -> DensityFill {
    density_columns(
        map,
        strategy,
        DensityFill { cells: cleared(cells), x_total: 0, y_total: 0, count: 0 },
        map.width() as int,
        map.height() as int,
    )
}

/// The three smoothings of the population densities (first map to second,
/// back, and again): the cells of the first and the second map after them.
pub open spec fn density_smoothed(
    t1: Seq<Seq<u8>>,
    s1: MapClusteringStrategy,
    t2: Seq<Seq<u8>>,
    s2: MapClusteringStrategy,
    dither: i32,
) -> (Seq<Seq<u8>>, Seq<Seq<u8>>) {
    let a = smoothing_result(grid_map(t1, s1), grid_map(t2, s2), dither & 0x02 != 0);
    let b = smoothing_result(grid_map(a, s2), grid_map(t1, s1), dither & 0x04 != 0);
    let c = smoothing_result(grid_map(b, s1), grid_map(a, s2), dither & 0x02 != 0);
    (b, c)
}

/// The three smoothings of the population densities keep their sums in bytes.
pub open spec fn density_smoothing_fits(
    t1: Seq<Seq<u8>>,
    s1: MapClusteringStrategy,
    t2: Seq<Seq<u8>>,
    s2: MapClusteringStrategy,
    dither: i32,
) -> bool {
    let a = smoothing_result(grid_map(t1, s1), grid_map(t2, s2), dither & 0x02 != 0);
    let b = smoothing_result(grid_map(a, s2), grid_map(t1, s1), dither & 0x04 != 0);
    &&& smoothing_fits(grid_map(t1, s1), grid_map(t2, s2), dither & 0x02 != 0)
    &&& smoothing_fits(grid_map(a, s2), grid_map(t1, s1), dither & 0x04 != 0)
    &&& smoothing_fits(grid_map(b, s1), grid_map(a, s2), dither & 0x02 != 0)
}

/// Twice the smoothed density at each position.
pub open spec fn doubled(m: WorldMap<u8>) -> spec_fn(int, int) -> u8 {
    |x: int, y: int| (2 * value_at(m, x, y)) as u8
}

/// The new city centre: the mean position of the zone centres, or the
/// middle of the map when there is none.
pub open spec fn mass_center(f: DensityFill, w: int, h: int) -> MapPosition {
    if f.count > 0 {
        MapPosition { x: (f.x_total / f.count) as i32, y: (f.y_total / f.count) as i32 }
    } else {
        MapPosition { x: (w / 2) as i32, y: (h / 2) as i32 }
    }
}

/// The map with a map's cells and clustering strategy has them.
proof fn lemma_grid_map(m: WorldMap<u8>)
    ensures
        grid_map(m.cells(), m.strategy()).cells() == m.cells(),
        grid_map(m.cells(), m.strategy()).strategy() == m.strategy(),
{
    assert(m.cells() == m.cells() && m.strategy() == m.strategy());
}

pub struct CitySimulationScanner {
    /// Temporary map 1.
    ///
    /// Used to smooth population density, pollution.
    temp_map_1: WorldMap<u8>,
    /// Temporary map 2.
    ///
    /// Used to smooth population density, pollution.
    temp_map_2: WorldMap<u8>,
    /// Temporary map 3.
    ///
    /// Used to smooth development density, for `terrain_density_map`.
    temp_map_3: WorldMap<u8>,
    /// Integer with bits 0..2 that controls smoothing.
    don_dither: i32,
}

/// Value at `(x, y)`, which the caller knows to be there.
fn read_at(m: &WorldMap<u8>, x: i32, y: i32) -> (r: u8)
    requires
        m.tile_at(MapPosition { x, y }) is Some,
    ensures
        r == value_at(*m, x as int, y as int),
{
    match m.get_tile_at(&MapPosition::new(x, y)) {
        Some(v) => *v,
        None => vstd::pervasive::unreached(),
    }
}

impl CitySimulationScanner {
    pub closed spec fn temp1(&self) -> WorldMap<u8> {
        self.temp_map_1
    }

    pub closed spec fn temp2(&self) -> WorldMap<u8> {
        self.temp_map_2
    }

    pub closed spec fn temp3(&self) -> WorldMap<u8> {
        self.temp_map_3
    }

    pub closed spec fn dither(&self) -> i32 {
        self.don_dither
    }

    pub fn new(map: &TileMap) -> (r: Self)
        ensures
            r.temp1().cells() == uniform_cells(
                (map.width() / 2) as nat,
                (map.height() / 2) as nat,
                0u8,
            ),
            r.temp2().cells() == r.temp1().cells(),
            r.temp3().cells() == r.temp1().cells(),
            r.temp1().strategy() == MapClusteringStrategy::BlockSize2,
            r.temp2().strategy() == MapClusteringStrategy::BlockSize2,
            r.temp3().strategy() == MapClusteringStrategy::BlockSize2,
            r.dither() == 0,
    {
        let dimensions = map.bounds();
        let width = dimensions.get_width() / 2;
        let height = dimensions.get_height() / 2;
        Self {
            temp_map_1: WorldMap::filled(width, height, 0x00, MapClusteringStrategy::BlockSize2),
            temp_map_2: WorldMap::filled(width, height, 0x00, MapClusteringStrategy::BlockSize2),
            temp_map_3: WorldMap::filled(width, height, 0x00, MapClusteringStrategy::BlockSize2),
            don_dither: 0,
        }
    }

    /// Get the population density of a zone center.
    fn get_population_density_at(map: &TileMap, position: &MapPosition, tile_raw: u16) -> (r: u16)
        requires
            density_center_valid(tile_raw as int),
            fits_i32(position.x - 1) && fits_i32(position.y - 1),
            fits_i32(position.x + 1) && fits_i32(position.y + 1),
        ensures
            r == zone_density(*map, *position, tile_raw as int),
            r <= 40,
    {
        if tile_raw == TileType::FreeZoneCenter.raw_value() {
            count_free_population(map, position)
        } else if tile_raw < TileType::CommercialBase.raw_value() {
            get_residential_zone_population(tile_raw)
        } else if tile_raw < TileType::IndustrialBase.raw_value() {
            get_commercial_zone_population(tile_raw) * 8
        } else if tile_raw < TileType::PortBase.raw_value() {
            get_industrial_zone_population(tile_raw) * 8
        } else {
            0
        }
    }

    /// Fill the first temporary map with eight times the population density
    /// of each zone centre (see `density_columns`); the sums of the columns,
    /// of the rows and of the zone centres met.
    fn fill_densities(&mut self, map: &TileMap) -> (r: (u64, u64, u64))
        requires
            map.width() < 0x10_0000,
            map.height() < 0x10_0000,
            forall|x: int, y: int| 0 <= x < map.width() && 0 <= y < map.height() ==> #[trigger] center_readable(*map, x, y),
        ensures
            ({
                let f = density_columns(
                    *map,
                    old(self).temp1().strategy(),
                    DensityFill { cells: old(self).temp1().cells(), x_total: 0, y_total: 0, count: 0 },
                    map.width() as int,
                    map.height() as int,
                );
                &&& final(self).temp1().cells() == f.cells
                &&& r.0 as int == f.x_total
                &&& r.1 as int == f.y_total
                &&& r.2 as int == f.count
            }),
            final(self).temp1().strategy() == old(self).temp1().strategy(),
            final(self).temp2() == old(self).temp2(),
            final(self).temp3() == old(self).temp3(),
            final(self).dither() == old(self).dither(),
    {
        let bounds = map.bounds();
        let w = bounds.get_width();
        let h = bounds.get_height();
        let ghost strategy = self.temp_map_1.strategy();
        let ghost f0 = DensityFill { cells: self.temp_map_1.cells(), x_total: 0, y_total: 0, count: 0 };
        let mut x_total: u64 = 0;
        let mut y_total: u64 = 0;
        let mut z_total: u64 = 0;
        let mut x: usize = 0;
        while x < w
            invariant
                x <= w,
                w == map.width(),
                h == map.height(),
                w < 0x10_0000,
                h < 0x10_0000,
                forall|x: int, y: int| 0 <= x < map.width() && 0 <= y < map.height() ==> #[trigger] center_readable(*map, x, y),
                strategy == old(self).temp1().strategy(),
                f0 == (DensityFill { cells: old(self).temp1().cells(), x_total: 0, y_total: 0, count: 0 }),
                self.temp_map_1.strategy() == strategy,
                self.temp_map_2 == old(self).temp2(),
                self.temp_map_3 == old(self).temp3(),
                self.don_dither == old(self).dither(),
                ({
                    let f = density_columns(*map, strategy, f0, x as int, h as int);
                    &&& self.temp_map_1.cells() == f.cells
                    &&& x_total as int == f.x_total
                    &&& y_total as int == f.y_total
                    &&& z_total as int == f.count
                }),
                z_total <= x * 0x10_0000,
                x_total <= z_total * 0x10_0000,
                y_total <= z_total * 0x10_0000,
            decreases w - x,
        {
            let ghost column_start = density_columns(*map, strategy, f0, x as int, h as int);
            let ghost z_start = z_total;
            let mut y: usize = 0;
            while y < h
                invariant
                    x < w,
                    y <= h,
                    w == map.width(),
                    h == map.height(),
                    w < 0x10_0000,
                    h < 0x10_0000,
                    forall|x: int, y: int| 0 <= x < map.width() && 0 <= y < map.height() ==> #[trigger] center_readable(*map, x, y),
                    strategy == old(self).temp1().strategy(),
                    self.temp_map_1.strategy() == strategy,
                    self.temp_map_2 == old(self).temp2(),
                    self.temp_map_3 == old(self).temp3(),
                    self.don_dither == old(self).dither(),
                    column_start == density_columns(*map, strategy, f0, x as int, h as int),
                    ({
                        let f = density_column(*map, strategy, column_start, x as int, y as int);
                        &&& self.temp_map_1.cells() == f.cells
                        &&& x_total as int == f.x_total
                        &&& y_total as int == f.y_total
                        &&& z_total as int == f.count
                    }),
                    z_start <= x * 0x10_0000,
                    z_total <= z_start + y,
                    x_total <= z_total * 0x10_0000,
                    y_total <= z_total * 0x10_0000,
                decreases h - y,
            {
                let position = MapPosition::new(x as i32, y as i32);
                proof {
                    assert(position == at_xy(x as int, y as int));
                    assert(center_readable(*map, x as int, y as int));
                }
                match map.get_tile_at(&position) {
                    Some(tile) => {
                        if tile.get_raw() & TILE_ZONE_BIT != 0x00 {
                            let tile_value = tile.get_raw() & TILE_LOW_MASK;
                            let density = Self::get_population_density_at(map, &position, tile_value);
                            let population: u16 = if 8 * density < 254 {
                                8 * density
                            } else {
                                254
                            };
                            self.temp_map_1.set_tile_at(&position, population as u8);
                            proof {
                                assert(z_total <= 0x100_0000_0000 + 0x10_0000);
                                assert(z_total * 0x10_0000 <= (0x100_0000_0000 + 0x10_0000) * 0x10_0000) by (nonlinear_arith)
                                    requires
                                        z_total <= 0x100_0000_0000 + 0x10_0000,
                                ;
                            }
                            x_total = x_total + x as u64;
                            y_total = y_total + y as u64;
                            z_total = z_total + 1;
                        }
                    },
                    None => {},
                }
                y = y + 1;
            }
            x = x + 1;
        }
        (x_total, y_total, z_total)
    }

    /// Copy twice the values of the source into the destination, over the
    /// destination's dimensions.
    fn copy_doubled(source: &WorldMap<u8>, destination: &mut WorldMap<u8>)
        requires
            old(destination).width() < 0x4000_0000,
            old(destination).height() < 0x4000_0000,
            covers(*source, old(destination).width() as int, old(destination).height() as int),
            forall|x: int, y: int|
                0 <= x < old(destination).width() && 0 <= y < old(destination).height() ==> #[trigger] value_at(
                    *source,
                    x,
                    y,
                ) <= 127,
        ensures
            final(destination).cells() == sweep(
                old(destination).cells(),
                old(destination).strategy(),
                doubled(*source),
                old(destination).width() as int,
                old(destination).height() as int,
            ),
            final(destination).strategy() == old(destination).strategy(),
    {
        let bounds = destination.bounds();
        let w = bounds.get_width();
        let h = bounds.get_height();
        let ghost f = doubled(*source);
        let ghost start = destination.cells();
        let ghost strategy = destination.strategy();
        let mut x: usize = 0;
        while x < w
            invariant
                x <= w,
                w == old(destination).width(),
                h == old(destination).height(),
                w < 0x4000_0000,
                h < 0x4000_0000,
                covers(*source, w as int, h as int),
                forall|x: int, y: int| 0 <= x < w && 0 <= y < h ==> #[trigger] value_at(*source, x, y) <= 127,
                start == old(destination).cells(),
                strategy == old(destination).strategy(),
                f == doubled(*source),
                destination.strategy() == strategy,
                destination.cells() == sweep(start, strategy, f, x as int, h as int),
            decreases w - x,
        {
            let mut y: usize = 0;
            while y < h
                invariant
                    x < w,
                    y <= h,
                    w == old(destination).width(),
                    h == old(destination).height(),
                    w < 0x4000_0000,
                    h < 0x4000_0000,
                    covers(*source, w as int, h as int),
                    forall|x: int, y: int| 0 <= x < w && 0 <= y < h ==> #[trigger] value_at(*source, x, y) <= 127,
                    start == old(destination).cells(),
                    strategy == old(destination).strategy(),
                    f == doubled(*source),
                    destination.strategy() == strategy,
                    destination.cells() == sweep_column(sweep(start, strategy, f, x as int, h as int), strategy, f, x as int, y as int),
                decreases h - y,
            {
                proof {
                    assert(source.tile_at(MapPosition { x: x as i32, y: y as i32 }) is Some);
                    assert(value_at(*source, x as int, y as int) <= 127);
                }
                let value = read_at(source, x as i32, y as i32);
                destination.set_tile_at(&MapPosition::new(x as i32, y as i32), value * 2);
                y = y + 1;
            }
            x = x + 1;
        }
    }

    /// Performs the population density scan, and returns the new Center of
    /// Mass for the City: the densities of the zone centres are filled in,
    /// smoothed three times, and copied doubled to the population density
    /// map; the commercial rates are computed from the current centre.
    pub fn population_density_scan(
        &mut self,
        map: &TileMap,
        population_density_map: &mut WorldMap<u8>,
        commercial_rate_map: &mut WorldMap<i16>,
        current_city_center: &MapPosition,
    ) -> (r: Result<MapPosition, String>)
        requires
            map.width() < 0x10_0000,
            map.height() < 0x10_0000,
            forall|x: int, y: int| 0 <= x < map.width() && 0 <= y < map.height() ==> #[trigger] center_readable(*map, x, y),
            ({
                let s1 = old(self).temp1().strategy();
                let s2 = old(self).temp2().strategy();
                let f = density_filled(*map, old(self).temp1().cells(), s1);
                let c = density_smoothed(f.cells, s1, old(self).temp2().cells(), s2, old(self).dither()).1;
                &&& density_smoothing_fits(f.cells, s1, old(self).temp2().cells(), s2, old(self).dither())
                &&& covers(grid_map(c, s2), old(population_density_map).width() as int, old(population_density_map).height() as int)
                &&& forall|x: int, y: int|
                    0 <= x < old(population_density_map).width() && 0 <= y < old(population_density_map).height()
                        ==> #[trigger] value_at(grid_map(c, s2), x, y) <= 127
            }),
            old(population_density_map).width() < 0x4000_0000,
            old(population_density_map).height() < 0x4000_0000,
            8 * old(commercial_rate_map).width() <= usize::MAX,
            8 * old(commercial_rate_map).height() <= usize::MAX,
            forall|x: int, y: int|
                0 <= x < old(commercial_rate_map).width() && 0 <= y < old(commercial_rate_map).height()
                    ==> distance_fits(*current_city_center, #[trigger] block8_position(x, y)),
        ensures
            ({
                let s1 = old(self).temp1().strategy();
                let s2 = old(self).temp2().strategy();
                let f = density_filled(*map, old(self).temp1().cells(), s1);
                let (b, c) = density_smoothed(f.cells, s1, old(self).temp2().cells(), s2, old(self).dither());
                &&& r == Ok::<MapPosition, String>(mass_center(f, map.width() as int, map.height() as int))
                &&& final(self).temp1().cells() == b
                &&& final(self).temp2().cells() == c
                &&& final(population_density_map).cells() == sweep(
                    old(population_density_map).cells(),
                    old(population_density_map).strategy(),
                    doubled(grid_map(c, s2)),
                    old(population_density_map).width() as int,
                    old(population_density_map).height() as int,
                )
            }),
            final(self).temp1().strategy() == old(self).temp1().strategy(),
            final(self).temp2().strategy() == old(self).temp2().strategy(),
            final(self).temp3() == old(self).temp3(),
            final(self).dither() == old(self).dither(),
            final(population_density_map).strategy() == old(population_density_map).strategy(),
            final(commercial_rate_map).cells() == sweep(
                old(commercial_rate_map).cells(),
                old(commercial_rate_map).strategy(),
                commercial_rate(*current_city_center),
                old(commercial_rate_map).width() as int,
                old(commercial_rate_map).height() as int,
            ),
            final(commercial_rate_map).strategy() == old(commercial_rate_map).strategy(),
    {
        let ghost s1 = self.temp_map_1.strategy();
        let ghost s2 = self.temp_map_2.strategy();
        let ghost t2 = self.temp_map_2.cells();
        let ghost cells1 = self.temp_map_1.cells();
        self.temp_map_1.clear(0x00);
        assert(self.temp_map_1.cells() =~= cleared(cells1));
        let (x_total, y_total, z_total) = self.fill_densities(map);
        let ghost f = density_filled(*map, cells1, s1);
        let ghost dither = self.don_dither;
        let ghost (b, c) = density_smoothed(f.cells, s1, t2, s2, dither);
        let ghost a = smoothing_result(grid_map(f.cells, s1), grid_map(t2, s2), dither & 0x02 != 0);
        proof {
            lemma_grid_map(self.temp1());
            lemma_grid_map(self.temp2());
            lemma_smoothing_same_maps(self.temp1(), grid_map(f.cells, s1), self.temp2(), grid_map(t2, s2), dither & 0x02 != 0);
        }
        self.do_smooth_1();  // temp_map_1 -> temp_map_2
        proof {
            lemma_grid_map(self.temp2());
            lemma_smoothing_same_maps(self.temp2(), grid_map(a, s2), self.temp1(), grid_map(f.cells, s1), dither & 0x04 != 0);
        }
        self.do_smooth_2();  // temp_map_2 -> temp_map_1
        proof {
            lemma_grid_map(self.temp1());
            lemma_smoothing_same_maps(self.temp1(), grid_map(b, s1), self.temp2(), grid_map(a, s2), dither & 0x02 != 0);
        }
        self.do_smooth_1();  // temp_map_1 -> temp_map_2
        proof {
            lemma_grid_map(self.temp2());
            let g = grid_map(c, s2);
            assert forall|x: int, y: int| #[trigger] value_at(self.temp2(), x, y) == value_at(g, x, y) by {}
            assert forall|x: int, y: int| #[trigger] self.temp2().tile_at(MapPosition { x: x as i32, y: y as i32 }) == g.tile_at(MapPosition { x: x as i32, y: y as i32 }) by {}
            assert(doubled(self.temp2()) =~= doubled(g));
        }
        // copy temp_map_2 to the population density map, doubled
        Self::copy_doubled(&self.temp_map_2, population_density_map);
        Self::compute_commercial_rate_map(commercial_rate_map, current_city_center);
        // compute the new city center
        let bounds = map.bounds();
        let new_city_center = if z_total > 0 {
            // find Center of Mass for City
            MapPosition::new((x_total / z_total) as i32, (y_total / z_total) as i32)
        } else {
            // if population = 0, the center of the map is the city center
            MapPosition::new((bounds.get_width() / 2) as i32, (bounds.get_height() / 2) as i32)
        };
        Ok(new_city_center)
    }

    /// Scan of pollution, terrain and land value: walks the land value map
    /// (its world positions being twice its own), without changing anything yet.
    pub fn pollution_terrain_land_value_scan(
        rng: &mut MicropolisRandom,
        pollution_density: &WorldMap<u8>,
        terrain_density: &WorldMap<u8>,
        land_value_map: &WorldMap<u8>,
    )
        ensures
            *final(rng) == *old(rng),
    {
        let bounds = land_value_map.bounds();
        let mut x: usize = 0;
        while x < bounds.get_width()
            invariant
                x <= bounds.width,
            decreases bounds.width - x,
        {
            let mut y: usize = 0;
            while y < bounds.get_height()
                invariant
                    y <= bounds.height,
                decreases bounds.height - y,
            {
                let _position: MapPosition = MapPosition::new(x as i32, y as i32);
                y = y + 1;
            }
            x = x + 1;
        }
    }

    /// Compute the distance to the city center for the entire map.
    fn compute_commercial_rate_map(
        commercial_rate_map: &mut WorldMap<i16>,
        current_city_center: &MapPosition,
    )
        requires
            8 * old(commercial_rate_map).width() <= usize::MAX,
            8 * old(commercial_rate_map).height() <= usize::MAX,
            forall|x: int, y: int|
                0 <= x < old(commercial_rate_map).width() && 0 <= y < old(
                    commercial_rate_map,
                ).height() ==> distance_fits(*current_city_center, #[trigger] block8_position(x, y)),
        ensures
            final(commercial_rate_map).cells() == sweep(
                old(commercial_rate_map).cells(),
                old(commercial_rate_map).strategy(),
                commercial_rate(*current_city_center),
                old(commercial_rate_map).width() as int,
                old(commercial_rate_map).height() as int,
            ),
            final(commercial_rate_map).strategy() == old(commercial_rate_map).strategy(),
    {
        let bounds = commercial_rate_map.bounds();
        let w = bounds.get_width();
        let h = bounds.get_height();
        let ghost f = commercial_rate(*current_city_center);
        let ghost start = commercial_rate_map.cells();
        let ghost strategy = commercial_rate_map.strategy();
        let mut x: usize = 0;
        while x < w
            invariant
                x <= w,
                w == old(commercial_rate_map).width(),
                h == old(commercial_rate_map).height(),
                8 * w <= usize::MAX && 8 * h <= usize::MAX,
                start == old(commercial_rate_map).cells(),
                strategy == old(commercial_rate_map).strategy(),
                f == commercial_rate(*current_city_center),
                forall|x: int, y: int|
                    0 <= x < w && 0 <= y < h ==> distance_fits(
                        *current_city_center,
                        #[trigger] block8_position(x, y),
                    ),
                commercial_rate_map.strategy() == strategy,
                commercial_rate_map.cells() == sweep(start, strategy, f, x as int, h as int),
            decreases w - x,
        {
            let mut y: usize = 0;
            while y < h
                invariant
                    x < w,
                    y <= h,
                    w == old(commercial_rate_map).width(),
                    h == old(commercial_rate_map).height(),
                    8 * w <= usize::MAX && 8 * h <= usize::MAX,
                    start == old(commercial_rate_map).cells(),
                    strategy == old(commercial_rate_map).strategy(),
                    f == commercial_rate(*current_city_center),
                    forall|x: int, y: int|
                        0 <= x < w && 0 <= y < h ==> distance_fits(
                            *current_city_center,
                            #[trigger] block8_position(x, y),
                        ),
                    commercial_rate_map.strategy() == strategy,
                    commercial_rate_map.cells() == sweep_column(
                        sweep(start, strategy, f, x as int, h as int),
                        strategy,
                        f,
                        x as int,
                        y as int,
                    ),
                decreases h - y,
            {
                proof {
                    assert(distance_fits(*current_city_center, block8_position(x as int, y as int)));
                }
                let block_position: MapPosition = MapPosition::new(#[verifier::truncate] ((x * 8) as i32), #[verifier::truncate] ((y * 8) as i32));
                let mut z = (Self::get_distance_from_city_center(
                    current_city_center,
                    &block_position,
                ) / 2) as i16;  // 0..32
                z = z * 4;  // 0..128
                z = 64 - z;  // -64..64
                commercial_rate_map.set_tile_at(&MapPosition::new(x as i32, y as i32), z);
                y = y + 1;
            }
            x = x + 1;
        }
    }

    /// Compute the Manhattan distance between the center of the city and the
    /// given world position (at most 64).
    fn get_distance_from_city_center(city_center: &MapPosition, position: &MapPosition) -> (r: i32)
        requires
            distance_fits(*city_center, *position),
        ensures
            r == center_distance(*city_center, *position),
    {
        let dx = position.get_x() - city_center.get_x();
        let dy = position.get_y() - city_center.get_y();
        let distance_x = if dx < 0 {
            -dx
        } else {
            dx
        };
        let distance_y = if dy < 0 {
            -dy
        } else {
            dy
        };
        let d = distance_x + distance_y;
        if d < 64 {
            d
        } else {
            64
        }
    }

    /// Perform smoothing with or without dithering.
    fn smooth_dither_map(source_map: &WorldMap<u8>, destination_map: &mut WorldMap<u8>, dither_flag: bool)
        requires
            smoothing_fits(*source_map, *old(destination_map), dither_flag),
        ensures
            final(destination_map).cells() == smoothing_result(
                *source_map,
                *old(destination_map),
                dither_flag,
            ),
            final(destination_map).strategy() == old(destination_map).strategy(),
    {
        if dither_flag {
            Self::smooth_dithered(source_map, destination_map);
        } else {
            Self::smooth_plain(source_map, destination_map);
        }
    }

    /// Smoothing without dithering: each value becomes a quarter of the sum
    /// of its own value and its neighbours' ones.
    fn smooth_plain(source_map: &WorldMap<u8>, destination_map: &mut WorldMap<u8>)
        requires
            smoothing_fits(*source_map, *old(destination_map), false),
        ensures
            final(destination_map).cells() == smoothing_result(
                *source_map,
                *old(destination_map),
                false,
            ),
            final(destination_map).strategy() == old(destination_map).strategy(),
    {
        let source_bounds = source_map.bounds();
        let w = source_bounds.get_width();
        let h = source_bounds.get_height();
        let ghost f = smoothed_value(*source_map, w as int, h as int);
        let ghost start = destination_map.cells();
        let ghost strategy = destination_map.strategy();
        let mut x: usize = 0;
        while x < w
            invariant
                x <= w,
                w == source_map.width(),
                h == source_map.height(),
                smoothing_fits(*source_map, *old(destination_map), false),
                start == old(destination_map).cells(),
                strategy == old(destination_map).strategy(),
                f == smoothed_value(*source_map, w as int, h as int),
                destination_map.strategy() == strategy,
                destination_map.cells() == sweep(start, strategy, f, x as int, h as int),
            decreases w - x,
        {
            let mut y: usize = 0;
            while y < h
                invariant
                    x < w,
                    y <= h,
                    w == source_map.width(),
                    h == source_map.height(),
                    smoothing_fits(*source_map, *old(destination_map), false),
                    start == old(destination_map).cells(),
                    strategy == old(destination_map).strategy(),
                    f == smoothed_value(*source_map, w as int, h as int),
                    destination_map.strategy() == strategy,
                    destination_map.cells() == sweep_column(
                        sweep(start, strategy, f, x as int, h as int),
                        strategy,
                        f,
                        x as int,
                        y as int,
                    ),
                decreases h - y,
            {
                let xi = x as i32;
                let yi = y as i32;
                proof {
                    assert(neighborhood_sum(*source_map, x as int, y as int, w as int, h as int)
                        <= 255);
                    assert(source_map.tile_at(MapPosition { x: xi, y: yi }) is Some);
                }
                let mut z: u8 = 0;
                if x > 0 {
                    assert(source_map.tile_at(MapPosition { x: (xi - 1) as i32, y: yi }) is Some);
                    z = z + read_at(source_map, xi - 1, yi);
                }
                if x < w - 1 {
                    assert(source_map.tile_at(MapPosition { x: (xi + 1) as i32, y: yi }) is Some);
                    z = z + read_at(source_map, xi + 1, yi);
                }
                if y > 0 {
                    assert(source_map.tile_at(MapPosition { x: xi, y: (yi - 1) as i32 }) is Some);
                    z = z + read_at(source_map, xi, yi - 1);
                }
                if y < h - 1 {
                    assert(source_map.tile_at(MapPosition { x: xi, y: (yi + 1) as i32 }) is Some);
                    z = z + read_at(source_map, xi, yi + 1);
                }
                let total = z + read_at(source_map, xi, yi);
                z = total >> 2;
                proof {
                    lemma_u8_low_bits(total);
                }
                destination_map.set_tile_at(&MapPosition::new(xi, yi), z);
                y = y + 1;
            }
            x = x + 1;
        }
    }

    /// Smoothing with dithering: the columns are walked alternately down (the
    /// whole column) and up (which stops at once), carrying the remainder of
    /// each division by four to the next value.
    fn smooth_dithered(source_map: &WorldMap<u8>, destination_map: &mut WorldMap<u8>)
        requires
            smoothing_fits(*source_map, *old(destination_map), true),
        ensures
            final(destination_map).cells() == smoothing_result(
                *source_map,
                *old(destination_map),
                true,
            ),
            final(destination_map).strategy() == old(destination_map).strategy(),
    {
        let source_bounds = source_map.bounds();
        let width = source_bounds.get_width() as i32;
        let height = source_bounds.get_height() as i32;
        let ghost w = width as int;
        let ghost h = height as int;
        let ghost start = destination_map.cells();
        let ghost strategy = destination_map.strategy();
        let mut z: u8 = 0;
        let mut direction: i32 = 1;
        let mut x: i32 = 0;
        while x < width
            invariant
                0 <= x <= width,
                w == source_map.width() && h == source_map.height(),
                w == width && h == height,
                smoothing_fits(*source_map, *old(destination_map), true),
                start == old(destination_map).cells(),
                strategy == old(destination_map).strategy(),
                destination_map.strategy() == strategy,
                direction == (if x % 2 == 0 { 1i32 } else { -1i32 }),
                ({
                    let (c, zz, ok) = dithered(*source_map, w, h, start, strategy, x as int);
                    &&& destination_map.cells() == c
                    &&& z == zz
                    &&& ok
                }),
            decreases width - x,
        {
            let mut y: i32 = 0;
            let ghost visits = dither_visits(x as int, h);
            proof {
                lemma_dithered_prefix(*source_map, w, h, start, strategy, x as int + 1, w);
            }
            while y != height && y != -1
                invariant
                    0 <= x < width,
                    w == source_map.width() && h == source_map.height(),
                    w == width && h == height,
                    covers(*source_map, w, h),
                    direction == (if x % 2 == 0 { 1i32 } else { -1i32 }),
                    visits == dither_visits(x as int, h),
                    (direction == 1 ==> 0 <= y <= height),
                    (direction == -1 ==> (y == 0 || (y == -1 && height > 0))),
                    destination_map.strategy() == strategy,
                    ({
                        let done = if direction == 1 {
                            y as int
                        } else if y == 0 {
                            0
                        } else {
                            1
                        };
                        let (c0, z0, ok0) = dithered(*source_map, w, h, start, strategy, x as int);
                        let (c, zz, ok) = dither_column(
                            *source_map,
                            w,
                            h,
                            c0,
                            strategy,
                            z0,
                            x as int,
                            done,
                        );
                        &&& destination_map.cells() == c
                        &&& z == zz
                        &&& ok0 && ok
                        &&& 0 <= done <= visits
                        &&& (ok0 && dither_column(
                            *source_map,
                            w,
                            h,
                            c0,
                            strategy,
                            z0,
                            x as int,
                            visits,
                        ).2)
                    }),
                decreases (if direction == 1 { height - y } else { y + 1 }),
            {
                let ghost done: int = if direction == 1 {
                    y as int
                } else {
                    0
                };
                proof {
                    let (c0, z0, ok0) = dithered(*source_map, w, h, start, strategy, x as int);
                    lemma_dither_column_prefix(*source_map, w, h, c0, strategy, z0, x as int, done + 1, visits);
                }
                let left = if x == 0 {
                    x
                } else {
                    x - 1
                };
                let right = if x == width - 1 {
                    x
                } else {
                    x + 1
                };
                let up = if y == 0 {
                    0
                } else {
                    y - 1
                };
                let down = if y == height - 1 {
                    y
                } else {
                    y + 1
                };
                assert(source_map.tile_at(MapPosition { x: left, y }) is Some);
                assert(source_map.tile_at(MapPosition { x: right, y }) is Some);
                assert(source_map.tile_at(MapPosition { x, y: up }) is Some);
                assert(source_map.tile_at(MapPosition { x, y: down }) is Some);
                assert(source_map.tile_at(MapPosition { x, y }) is Some);
                z = z + (read_at(source_map, left, y) + read_at(source_map, right, y) + read_at(
                    source_map,
                    x,
                    up,
                ) + read_at(source_map, x, down) + read_at(source_map, x, y));
                let value = (z / 4) as u8;
                destination_map.set_tile_at(&MapPosition::new(x, y), value);
                proof {
                    lemma_u8_low_bits(z);
                }
                z = z & 0x03;
                y = y + direction;
            }
            direction = -direction;
            x = x + 1;
        }
    }

    /// Smooth `temp_map_1` to `temp_map_2`.
    fn do_smooth_1(&mut self)
        requires
            smoothing_fits(old(self).temp1(), old(self).temp2(), old(self).dither() & 0x02 != 0),
        ensures
            final(self).temp2().cells() == smoothing_result(
                old(self).temp1(),
                old(self).temp2(),
                old(self).dither() & 0x02 != 0,
            ),
            final(self).temp2().strategy() == old(self).temp2().strategy(),
            final(self).temp1() == old(self).temp1(),
            final(self).temp3() == old(self).temp3(),
            final(self).dither() == old(self).dither(),
    {
        Self::smooth_dither_map(&self.temp_map_1, &mut self.temp_map_2, self.don_dither & 0x02 != 0x00)
    }

    /// Smooth `temp_map_2` to `temp_map_1`.
    fn do_smooth_2(&mut self)
        requires
            smoothing_fits(old(self).temp2(), old(self).temp1(), old(self).dither() & 0x04 != 0),
        ensures
            final(self).temp1().cells() == smoothing_result(
                old(self).temp2(),
                old(self).temp1(),
                old(self).dither() & 0x04 != 0,
            ),
            final(self).temp1().strategy() == old(self).temp1().strategy(),
            final(self).temp2() == old(self).temp2(),
            final(self).temp3() == old(self).temp3(),
            final(self).dither() == old(self).dither(),
    {
        Self::smooth_dither_map(&self.temp_map_2, &mut self.temp_map_1, self.don_dither & 0x04 != 0x00)
    }
}

/// A smoothing that fits for some columns fits for fewer.
proof fn lemma_dithered_prefix(
    src: WorldMap<u8>,
    w: int,
    h: int,
    cells: Seq<Seq<u8>>,
    strategy: MapClusteringStrategy,
    k: int,
    n: int,
)
    requires
        0 <= k <= n,
        dithered(src, w, h, cells, strategy, n).2,
    ensures
        dithered(src, w, h, cells, strategy, k).2,
    decreases n - k,
{
    if k < n {
        lemma_dithered_prefix(src, w, h, cells, strategy, k, n - 1);
    }
}

/// A column smoothing that fits for some positions fits for fewer.
proof fn lemma_dither_column_prefix(
    src: WorldMap<u8>,
    w: int,
    h: int,
    cells: Seq<Seq<u8>>,
    strategy: MapClusteringStrategy,
    z: int,
    x: int,
    k: int,
    n: int,
)
    requires
        0 <= k <= n,
        dither_column(src, w, h, cells, strategy, z, x, n).2,
    ensures
        dither_column(src, w, h, cells, strategy, z, x, k).2,
    decreases n - k,
{
    if k < n {
        lemma_dither_column_prefix(src, w, h, cells, strategy, z, x, k, n - 1);
    }
}

} // verus!
