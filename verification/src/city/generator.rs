use vstd::prelude::*;

use crate::map::generator::{generation_fits, terrain_generated, GeneratorCreateIsland, MapGenerator};
use crate::map::{MapClusteringStrategy, MapRectangle, TileMap};
use crate::utils::random::MicropolisRandom;

verus! {

/// Options of the map of a generated city: its dimensions and how often it
/// is an island.
pub struct CityMapGeneratorOptions {
    pub dimensions: MapRectangle,
    pub create_island: GeneratorCreateIsland,
}

/// Builder of a city generator.
pub struct CityGeneratorBuilder {
    simulation_rng_seed: Option<i32>,
    city_map_generator_options: Option<CityMapGeneratorOptions>,
}

impl CityGeneratorBuilder {
    /// The seed of the simulation's generator, if one was given.
    pub closed spec fn seed(&self) -> Option<i32> {
        self.simulation_rng_seed
    }

    /// The options of the map, if they were given.
    pub closed spec fn map_options(&self) -> Option<CityMapGeneratorOptions> {
        self.city_map_generator_options
    }

    /// A builder with neither a seed nor map options.
    pub fn new() -> (r: Self)
        ensures
            r.seed() is None,
            r.map_options() is None,
    {
        Self { simulation_rng_seed: None, city_map_generator_options: None }
    }

    /// The builder with the given simulation seed.
    pub fn with_simulation_rng_seed(self, simulation_seed: i32) -> (r: Self)
        ensures
            r.seed() == Some(simulation_seed),
            r.map_options() == self.map_options(),
    {
        let mut builder = self;
        builder.simulation_rng_seed = Some(simulation_seed);
        builder
    }

    /// The builder with the given map options.
    pub fn with_city_map_generator_options(self, generator_options: CityMapGeneratorOptions) -> (r: Self)
        ensures
            r.seed() == self.seed(),
            r.map_options() == Some(generator_options),
    {
        let mut builder = self;
        builder.city_map_generator_options = Some(generator_options);
        builder
    }

    /// The city generator: refused without map options; its map generator
    /// has the options' island setting and the default levels.
    pub fn build(self) -> (r: Result<CityGenerator, String>)
        ensures
            self.map_options() is None <==> r is Err,
            r matches Ok(g) ==> Some(g.map_options()) == self.map_options() && g.seed() == self.seed()
                && g.map_generator().island() == g.map_options().create_island
                && g.map_generator().levels() == (-1i16, -1i16, -1i16),
    {
        let map_generator_options = match self.city_map_generator_options {
            Some(o) => o,
            None => {
                return Err(
                    String::from_str("CityGeneratorBuilder.build() error: no city_map_generator_options provided"),
                );
            },
        };
        let map_generator = MapGenerator::with_options(map_generator_options.create_island);
        Ok(CityGenerator { map_generator, map_generator_options, simulation_rng_seed: self.simulation_rng_seed })
    }
}

/// Generator of cities: their maps and their simulation seed.
pub struct CityGenerator {
    map_generator: MapGenerator,
    map_generator_options: CityMapGeneratorOptions,
    simulation_rng_seed: Option<i32>,
}

impl CityGenerator {
    /// The map generator.
    pub closed spec fn map_generator(&self) -> MapGenerator {
        self.map_generator
    }

    /// The options of the map.
    pub closed spec fn map_options(&self) -> CityMapGeneratorOptions {
        self.map_generator_options
    }

    /// The seed of the simulation's generator, if one was given.
    pub closed spec fn seed(&self) -> Option<i32> {
        self.simulation_rng_seed
    }

    /// A random terrain of the options' dimensions, generated from the seed
    /// (see `terrain_generated`).
    pub fn build_random_map(&self, seed: i32) -> (r: Result<TileMap, String>)
        requires
            generation_fits(self.map_options().dimensions),
        ensures
            r matches Ok(t) && t.cells() == terrain_generated(
                self.map_generator().island(),
                self.map_generator().levels(),
                seed,
                self.map_options().dimensions.width as int,
                self.map_options().dimensions.height as int,
            ).0 && t.strategy() == MapClusteringStrategy::BlockSize1,
    {
        let mut rng = MicropolisRandom::from_seed(seed);
        let result = match self.map_generator.random_map_terrain(&mut rng, seed, &self.map_generator_options.dimensions) {
            Ok(g) => g,
            Err(e) => {
                return Err(e);
            },
        };
        Ok(result.into_terrain())
    }
}

} // verus!
