pub mod constants;
pub mod trees;
pub mod utils;
pub mod water;

use vstd::prelude::*;

use constants::ISLAND_RADIUS;
use trees::{forests_made, make_forests};
use water::{big_plopped, lakes_for_level, rivers_made, rivers_smoothed, small_plopped, columns_full, lemma_blob_plopped_shape, make_lakes, make_rivers, plop_big_river, plop_small_river, smooth_rivers};

use super::position::{MapPosition, MapRectangle};
use super::tiles::Tile;
use super::tiles_type::TileType;
use super::{same_shape, uniform_cells, MapClusteringStrategy, TileMap, WorldMap};
use crate::utils::random::{draw_bits, lcg_next, trunc_rem, MicropolisRandom};
use crate::utils::Percentage;

verus! {

/// Should the map generator form an island?
#[derive(Clone, Copy, Debug, PartialEq)]
pub enum GeneratorCreateIsland {
    Never,
    Always,
    /// X% of the time. 10% by default.
    Sometimes(Percentage),
}

/// Random map terrain generator.
#[derive(Debug, PartialEq)]
pub struct MapGenerator {
    /// Controls how often the generated terrain should be an island.
    create_island: GeneratorCreateIsland,
    /// Controls the level of tree creation..
    ///
    /// -1 => default number of trees.
    ///  0 => no trees.
    /// >0 => roughly equal to the remaining number of trees to randomly place.
    level_trees: i16,
    /// Controls the level of river curviness.
    ///
    /// -1 => default curve level.
    ///  0 => no rivers.
    /// >0 => curvier rivers.
    level_river_curves: i16,
    /// Level for lakes creation.
    ///
    /// -1 => default number of lakes.
    ///  0 => no lakes.
    /// >0 => extra lakes.
    level_lakes: i16,
}

#[derive(Debug)]
pub struct GeneratedTileMap {
    generation_seed: i32,
    pub generated_terrain: TileMap,
}

/// The grid has `w` columns of `h` cells.
pub open spec fn grid_of_size(cells: Seq<Seq<Tile>>, w: int, h: int) -> bool {
    cells.len() == w && forall|i: int| 0 <= i < w ==> #[trigger] cells[i].len() == h
}

/// Dimensions for which every step of the generation stays within the
/// integer types it computes with.
pub open spec fn generation_fits(dimensions: MapRectangle) -> bool {
    let w16 = dimensions.width as i16;
    let h16 = dimensions.height as i16;
    &&& dimensions.width < 0x4000
    &&& dimensions.height < 0x4000
    &&& w16 != 0 && w16 != 20 && w16 != 79
    &&& h16 != 0 && h16 != 19 && h16 != 66
}

/// A draw below `range + 1` with a preference for small values (see
/// `get_e_random`), from the generator state: the value and the state after.
pub open spec fn e_draw(state: u64, range: int) -> (int, u64) {
    let s1 = lcg_next(state);
    let s2 = lcg_next(s1);
    let first = trunc_rem(draw_bits(s1), range + 1);
    let second = trunc_rem(draw_bits(s2), range + 1);
    (if first <= second { first } else { second }, s2)
}

/// Dirt inside a border of 5 tiles of river.
pub open spec fn island_base(w: int, h: int) -> Seq<Seq<Tile>> {
    Seq::new(
        w as nat,
        |x: int|
            Seq::new(
                h as nat,
                |y: int|
                    if 5 <= x < w - 5 && 5 <= y < h - 5 {
                        Tile::of_raw(TileType::Dirt.code() as u16)
                    } else {
                        Tile::of_raw(TileType::River.code() as u16)
                    },
            ),
    )
}

/// The island coasts along the first `k` even columns: at each, two big
/// blobs near the top and the bottom (drawn by `e_draw`) and two small
/// blobs on the top and bottom edges.
pub open spec fn island_columns(cells: Seq<Seq<Tile>>, state: u64, h: int, k: int) -> (Seq<Seq<Tile>>, u64)
    decreases k,
{
    if k <= 0 {
        (cells, state)
    } else {
        let (c, s) = island_columns(cells, state, h, k - 1);
        let x = 2 * (k - 1);
        let st = MapClusteringStrategy::BlockSize1;
        let (y1, s1) = e_draw(s, ISLAND_RADIUS as int);
        let c1 = big_plopped(c, st, MapPosition { x: x as i32, y: y1 as i32 });
        let (d2, s2) = e_draw(s1, ISLAND_RADIUS as int);
        let c2 = big_plopped(c1, st, MapPosition { x: x as i32, y: ((h as i16 - 10) - d2) as i32 });
        let c3 = small_plopped(c2, st, MapPosition { x: x as i32, y: 0 });
        (small_plopped(c3, st, MapPosition { x: x as i32, y: (h - 6) as i32 }), s2)
    }
}

/// The island coasts along the first `k` even rows, as along the columns.
pub open spec fn island_rows(cells: Seq<Seq<Tile>>, state: u64, w: int, k: int) -> (Seq<Seq<Tile>>, u64)
    decreases k,
{
    if k <= 0 {
        (cells, state)
    } else {
        let (c, s) = island_rows(cells, state, w, k - 1);
        let y = 2 * (k - 1);
        let st = MapClusteringStrategy::BlockSize1;
        let (x1, s1) = e_draw(s, ISLAND_RADIUS as int);
        let c1 = big_plopped(c, st, MapPosition { x: x1 as i32, y: y as i32 });
        let (d2, s2) = e_draw(s1, ISLAND_RADIUS as int);
        let c2 = big_plopped(c1, st, MapPosition { x: ((w as i16 - 10) - d2) as i32, y: y as i32 });
        let c3 = small_plopped(c2, st, MapPosition { x: 0, y: y as i32 });
        (small_plopped(c3, st, MapPosition { x: (w - 6) as i32, y: y as i32 }), s2)
    }
}

/// Number of even values below `n`.
pub open spec fn evens_below(n: int) -> int {
    if n <= 0 {
        0
    } else {
        (n + 1) / 2
    }
}

/// The tiles and generator state of a plain island of the given size.
pub open spec fn island_made(w: int, h: int, state: u64) -> (Seq<Seq<Tile>>, u64) {
    let (c, s) = island_columns(island_base(w, h), state, h, evens_below(w - 5));
    island_rows(c, s, w, evens_below(h - 5))
}

/// The tiles and generator state after rivers (unless their level is 0,
/// from a drawn start), lakes (unless their level is 0), smoothed river
/// edges and forests (unless their level is 0), on a plain landscape of the
/// given size; levels are those of trees, river curves and lakes.
pub open spec fn landscape_generated(cells: Seq<Seq<Tile>>, state: u64, levels: (i16, i16, i16), w: int, h: int) -> (
    Seq<Seq<Tile>>,
    u64,
) {
    let st = MapClusteringStrategy::BlockSize1;
    let (c1, s1) = if levels.1 != 0 {
        let sa = lcg_next(state);
        let sb = lcg_next(sa);
        let start = MapPosition {
            x: (40 + trunc_rem(draw_bits(sa), (w as i16 - 80) + 1)) as i32,
            y: (33 + trunc_rem(draw_bits(sb), (h as i16 - 67) + 1)) as i32,
        };
        rivers_made(cells, w as nat, h as nat, st, sb, levels.1, start)
    } else {
        (cells, state)
    };
    let (c2, s2) = if levels.2 != 0 {
        lakes_for_level(c1, st, s1, levels.2, w as i16 as int, h as i16 as int)
    } else {
        (c1, s1)
    };
    let (c3, s3) = rivers_smoothed(c2, st, s2);
    if levels.0 != 0 {
        forests_made(c3, w as nat, h as nat, st, s3, levels.0)
    } else {
        (c3, s3)
    }
}

/// The tiles and generator state of an island terrain: a plain island, its
/// river edges smoothed, then forests.
pub open spec fn island_generated(state: u64, level_trees: i16, w: int, h: int) -> (Seq<Seq<Tile>>, u64) {
    let st = MapClusteringStrategy::BlockSize1;
    let (c1, s1) = island_made(w, h, state);
    let (c2, s2) = rivers_smoothed(c1, st, s1);
    forests_made(c2, w as nat, h as nat, st, s2, level_trees)
}

/// The tiles and generator state of a terrain generated from the seed:
/// from dirt, or from a plain island (always, or when a draw up to 100 is
/// below the chance, then as `island_generated`), the landscape of
/// `landscape_generated`.
pub open spec fn terrain_generated(island: GeneratorCreateIsland, levels: (i16, i16, i16), seed: i32, w: int, h: int) -> (
    Seq<Seq<Tile>>,
    u64,
) {
    let s0 = seed as u64;
    let dirt = uniform_cells(w as nat, h as nat, Tile::of_raw(TileType::Dirt.code() as u16));
    match island {
        GeneratorCreateIsland::Never => landscape_generated(dirt, s0, levels, w, h),
        GeneratorCreateIsland::Always => {
            let (c, s) = island_made(w, h, s0);
            landscape_generated(c, s, levels, w, h)
        },
        GeneratorCreateIsland::Sometimes(chance) => {
            let s1 = lcg_next(s0);
            if trunc_rem(draw_bits(s1), 101) < chance.hundredths() {
                island_generated(s1, levels.0, w, h)
            } else {
                landscape_generated(dirt, s1, levels, w, h)
            }
        },
    }
}

impl GeneratedTileMap {
    /// Seed the terrain was generated from.
    pub closed spec fn seed(&self) -> i32 {
        self.generation_seed
    }

    /// The generated terrain.
    pub closed spec fn terrain(&self) -> TileMap {
        self.generated_terrain
    }

    pub fn get_seed(&self) -> (r: i32)
        ensures
            r == self.seed(),
    {
        self.generation_seed
    }

    /// The generated terrain, taken out.
    pub fn into_terrain(self) -> (r: TileMap)
        ensures
            r == self.terrain(),
    {
        self.generated_terrain
    }
}

impl MapGenerator {
    #[verifier::type_invariant]
    spec fn levels_fit(self) -> bool {
        self.level_trees <= 16000 && self.level_river_curves <= 32000
    }

    /// How often the generated terrain is an island.
    pub closed spec fn island(&self) -> GeneratorCreateIsland {
        self.create_island
    }

    /// Levels of trees, river curves and lakes.
    pub closed spec fn levels(&self) -> (i16, i16, i16) {
        (self.level_trees, self.level_river_curves, self.level_lakes)
    }

    /// Can a terrain of these dimensions be generated (see `generation_fits`)?
    pub fn can_generate(dimensions: &MapRectangle) -> (r: bool)
        ensures
            r == generation_fits(*dimensions),
    {
        let w16 = dimensions.get_width() as i16;
        let h16 = dimensions.get_height() as i16;
        dimensions.get_width() < 0x4000 && dimensions.get_height() < 0x4000 && w16 != 0 && w16 != 20
            && w16 != 79 && h16 != 0 && h16 != 19 && h16 != 66
    }

    /// A generator with the default levels of trees, rivers and lakes.
    pub fn with_options(create_island: GeneratorCreateIsland) -> (r: Self)
        ensures
            r.island() == create_island,
            r.levels() == (-1i16, -1i16, -1i16),
    {
        MapGenerator { create_island, level_trees: -1, level_river_curves: -1, level_lakes: -1 }
    }

    /// Generate a random terrain from the seed: a plain or island landscape,
    /// with rivers, lakes and forests.
    pub fn random_map_terrain(
        &self,
        rng: &mut MicropolisRandom,
        seed: i32,
        dimensions: &MapRectangle,
    ) -> (r: Result<GeneratedTileMap, String>)
        requires
            generation_fits(*dimensions),
        ensures
            final(rng).creation_seed() == old(rng).creation_seed(),
            r matches Ok(g) && (g.terrain().cells(), final(rng).state()) == terrain_generated(
                self.island(),
                self.levels(),
                seed,
                dimensions.width as int,
                dimensions.height as int,
            ),
            r matches Ok(g) && g.seed() == seed && g.terrain().strategy()
                == MapClusteringStrategy::BlockSize1 && grid_of_size(
                g.terrain().cells(),
                dimensions.width as int,
                dimensions.height as int,
            ),
    {
        proof {
            use_type_invariant(self);
        }
        // random setup
        rng.seed(seed);
        // initial landscape
        let mut terrain = match &self.create_island {
            GeneratorCreateIsland::Never => Self::dirt_terrain(dimensions),
            GeneratorCreateIsland::Always => Self::make_naked_island(rng, self.level_lakes, dimensions),
            GeneratorCreateIsland::Sometimes(chance) => {
                if (rng.get_random(100) as i64) < chance.percent() as i64 {
                    let generated_terrain = match self.generate_terrain_as_island(rng, dimensions) {
                        Ok(t) => t,
                        Err(e) => {
                            return Err(e);
                        },
                    };
                    return Ok(GeneratedTileMap { generation_seed: seed, generated_terrain });
                } else {
                    Self::dirt_terrain(dimensions)
                }
            },
        };
        let ghost w = dimensions.width as int;
        let ghost h = dimensions.height as int;
        // generate some rivers
        if self.level_river_curves != 0 {
            let starting_position = MapPosition::new(
                40 + rng.get_random(dimensions.width as i16 - 80) as i32,
                33 + rng.get_random(dimensions.height as i16 - 67) as i32,
            );
            make_rivers(rng, self.level_river_curves, &mut terrain, &starting_position);
        }
        assert(grid_of_size(terrain.cells(), w, h));
        // generate a few lakes
        if self.level_lakes != 0 {
            make_lakes(rng, self.level_lakes, &mut terrain);
        }
        assert(grid_of_size(terrain.cells(), w, h));
        match smooth_rivers(rng, &mut terrain) {
            Ok(()) => {},
            Err(e) => {
                return Err(e);
            },
        }
        assert(grid_of_size(terrain.cells(), w, h));
        // plant some trees
        if self.level_trees != 0 {
            match make_forests(rng, self.level_trees, &mut terrain) {
                Ok(()) => {},
                Err(e) => {
                    return Err(e);
                },
            }
        }
        assert(grid_of_size(terrain.cells(), w, h));
        Ok(GeneratedTileMap { generation_seed: seed, generated_terrain: terrain })
    }

    /// A terrain of dirt only.
    fn dirt_terrain(dimensions: &MapRectangle) -> (r: TileMap)
        ensures
            r.cells() == uniform_cells(
                dimensions.width as nat,
                dimensions.height as nat,
                Tile::of_raw(TileType::Dirt.code() as u16),
            ),
            r.strategy() == MapClusteringStrategy::BlockSize1,
            grid_of_size(r.cells(), dimensions.width as int, dimensions.height as int),
    {
        match WorldMap::tilemap_with_dimensions(dimensions, TileType::Dirt) {
            Ok(map) => {
                proof {
                    let t = choose|t: Tile|
                        t.raw() as int == TileType::Dirt.code() && t.kind() == Some(TileType::Dirt) && t.wf()
                            && #[trigger] map.cells() == uniform_cells(
                            dimensions.width as nat,
                            dimensions.height as nat,
                            t,
                        );
                    Tile::lemma_of_raw(t);
                }
                map
            },
            Err(_) => vstd::pervasive::unreached(),
        }
    }

    /// An island terrain, with smoothed rivers and forests.
    fn generate_terrain_as_island(&self, rng: &mut MicropolisRandom, dimensions: &MapRectangle) -> (r:
        Result<TileMap, String>)
        requires
            generation_fits(*dimensions),
        ensures
            final(rng).creation_seed() == old(rng).creation_seed(),
            r matches Ok(t) && (t.cells(), final(rng).state()) == island_generated(
                old(rng).state(),
                self.levels().0,
                dimensions.width as int,
                dimensions.height as int,
            ),
            r matches Ok(t) && t.strategy() == MapClusteringStrategy::BlockSize1 && grid_of_size(
                t.cells(),
                dimensions.width as int,
                dimensions.height as int,
            ),
    {
        proof {
            use_type_invariant(self);
        }
        let mut terrain = Self::make_naked_island(rng, self.level_lakes, dimensions);
        match smooth_rivers(rng, &mut terrain) {
            Ok(()) => {},
            Err(e) => {
                return Err(e);
            },
        }
        match make_forests(rng, self.level_trees, &mut terrain) {
            Ok(()) => {},
            Err(e) => {
                return Err(e);
            },
        }
        Ok(terrain)
    }

    /// Generate a plain island surrounded by 5 tiles of river.
    fn make_naked_island(rng: &mut MicropolisRandom, level_lakes: i16, dimensions: &MapRectangle) -> (r:
        TileMap)
        requires
            generation_fits(*dimensions),
        ensures
            final(rng).creation_seed() == old(rng).creation_seed(),
            (r.cells(), final(rng).state()) == island_made(
                dimensions.width as int,
                dimensions.height as int,
                old(rng).state(),
            ),
            r.strategy() == MapClusteringStrategy::BlockSize1,
            grid_of_size(r.cells(), dimensions.width as int, dimensions.height as int),
    {
        // rectangular island
        let x_max = dimensions.width as i32 - 5;
        let y_max = dimensions.height as i32 - 5;
        let dirt = match Tile::from_type(TileType::Dirt) {
            Ok(t) => t,
            Err(_) => vstd::pervasive::unreached(),
        };
        let river = match Tile::from_type(TileType::River) {
            Ok(t) => t,
            Err(_) => vstd::pervasive::unreached(),
        };
        proof {
            Tile::lemma_of_raw(dirt);
            Tile::lemma_of_raw(river);
        }
        let ghost base = island_base(dimensions.width as int, dimensions.height as int);
        let ghost s0 = rng.state();
        let mut tilemap: Vec<Vec<Tile>> = Vec::new();
        let mut x: usize = 0;
        while x < dimensions.width
            invariant
                x <= dimensions.width,
                generation_fits(*dimensions),
                x_max == dimensions.width as i32 - 5,
                y_max == dimensions.height as i32 - 5,
                dirt == Tile::of_raw(TileType::Dirt.code() as u16),
                river == Tile::of_raw(TileType::River.code() as u16),
                tilemap@.len() == x,
                forall|i: int| 0 <= i < x ==> #[trigger] tilemap@[i]@ == island_base(
                    dimensions.width as int,
                    dimensions.height as int,
                )[i],
            decreases dimensions.width - x,
        {
            let mut column: Vec<Tile> = Vec::new();
            let mut y: usize = 0;
            while y < dimensions.height
                invariant
                    y <= dimensions.height,
                    x < dimensions.width,
                    generation_fits(*dimensions),
                    x_max == dimensions.width as i32 - 5,
                    y_max == dimensions.height as i32 - 5,
                    dirt == Tile::of_raw(TileType::Dirt.code() as u16),
                    river == Tile::of_raw(TileType::River.code() as u16),
                    column@ == island_base(dimensions.width as int, dimensions.height as int)[x as int].take(
                        y as int,
                    ),
                decreases dimensions.height - y,
            {
                column.push(
                    if x >= 5 && x < x_max as usize && y >= 5 && y < y_max as usize {
                        dirt
                    } else {
                        river
                    },
                );
                assert(column@ =~= island_base(dimensions.width as int, dimensions.height as int)[x as int].take(
                    y + 1,
                ));
                y = y + 1;
            }
            assert(column@ =~= island_base(dimensions.width as int, dimensions.height as int)[x as int]);
            tilemap.push(column);
            x = x + 1;
        }
        let mut terrain = WorldMap::with_data(tilemap, MapClusteringStrategy::BlockSize1);
        let ghost w = dimensions.width as int;
        let ghost h = dimensions.height as int;
        proof {
            terrain.lemma_cells_of_grid();
        }
        assert(grid_of_size(terrain.cells(), w, h));
        assert(terrain.cells() =~= base);
        let mut x: i32 = 0;
        while x < x_max
            invariant
                x_max == dimensions.width as i32 - 5,
                y_max == dimensions.height as i32 - 5,
                generation_fits(*dimensions),
                w == dimensions.width,
                h == dimensions.height,
                0 <= x,
                x % 2 == 0,
                x_max > 0 ==> x <= x_max + 1,
                x_max <= 0 ==> x == 0,
                base == island_base(w, h),
                (terrain.cells(), rng.state()) == island_columns(base, s0, h, x / 2),
                rng.creation_seed() == old(rng).creation_seed(),
                terrain.strategy() == MapClusteringStrategy::BlockSize1,
                grid_of_size(terrain.cells(), w, h),
            decreases x_max + 1 - x,
        {
            let y1 = rng.get_e_random(ISLAND_RADIUS);
            Self::plop_big(&mut terrain, &MapPosition::new(x, y1 as i32));
            let y2 = (dimensions.height as i16 - 10) as i32 - rng.get_e_random(ISLAND_RADIUS) as i32;
            Self::plop_big(&mut terrain, &MapPosition::new(x, y2));
            Self::plop_small(&mut terrain, &MapPosition::new(x, 0));
            Self::plop_small(&mut terrain, &MapPosition::new(x, dimensions.height as i32 - 6));
            x = x + 2;
        }
        let ghost columns = island_columns(base, s0, h, evens_below(w - 5));
        assert(x / 2 == evens_below(w - 5));
        let mut y: i32 = 0;
        while y < y_max
            invariant
                x_max == dimensions.width as i32 - 5,
                y_max == dimensions.height as i32 - 5,
                generation_fits(*dimensions),
                w == dimensions.width,
                h == dimensions.height,
                0 <= y,
                y % 2 == 0,
                y_max > 0 ==> y <= y_max + 1,
                y_max <= 0 ==> y == 0,
                columns == island_columns(island_base(w, h), s0, h, evens_below(w - 5)),
                (terrain.cells(), rng.state()) == island_rows(columns.0, columns.1, w, y / 2),
                rng.creation_seed() == old(rng).creation_seed(),
                terrain.strategy() == MapClusteringStrategy::BlockSize1,
                grid_of_size(terrain.cells(), w, h),
            decreases y_max + 1 - y,
        {
            let x1 = rng.get_e_random(ISLAND_RADIUS);
            Self::plop_big(&mut terrain, &MapPosition::new(x1 as i32, y));
            let x2 = (dimensions.width as i16 - 10) as i32 - rng.get_e_random(ISLAND_RADIUS) as i32;
            Self::plop_big(&mut terrain, &MapPosition::new(x2, y));
            Self::plop_small(&mut terrain, &MapPosition::new(0, y));
            Self::plop_small(&mut terrain, &MapPosition::new(dimensions.width as i32 - 6, y));
            y = y + 2;
        }
        assert(y / 2 == evens_below(h - 5));
        terrain
    }

    /// Put down a big river blob, keeping the shape of the terrain.
    fn plop_big(terrain: &mut TileMap, base: &MapPosition)
        requires
            -0x1_0000 <= base.x <= 0x1_0000,
            -0x1_0000 <= base.y <= 0x1_0000,
        ensures
            final(terrain).strategy() == old(terrain).strategy(),
            same_shape(final(terrain).cells(), old(terrain).cells()),
            final(terrain).cells() == big_plopped(old(terrain).cells(), old(terrain).strategy(), *base),
    {
        let ghost before = terrain.cells();
        plop_big_river(terrain, base);
        proof {
            lemma_blob_plopped_shape(before, terrain.strategy(), *base, constants::blob_river_big(), 9, 81);
        }
    }

    /// Put down a small river blob, keeping the shape of the terrain.
    fn plop_small(terrain: &mut TileMap, base: &MapPosition)
        requires
            -0x1_0000 <= base.x <= 0x1_0000,
            -0x1_0000 <= base.y <= 0x1_0000,
        ensures
            final(terrain).strategy() == old(terrain).strategy(),
            same_shape(final(terrain).cells(), old(terrain).cells()),
            final(terrain).cells() == small_plopped(old(terrain).cells(), old(terrain).strategy(), *base),
    {
        let ghost before = terrain.cells();
        plop_small_river(terrain, base);
        proof {
            lemma_blob_plopped_shape(before, terrain.strategy(), *base, constants::blob_river_small(), 6, 36);
        }
    }
}

} // verus!
