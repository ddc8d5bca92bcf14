pub mod budget;
pub mod disasters;
pub mod evaluate;
pub mod generator;
pub mod meta;
pub mod population;
pub mod simulation;
pub mod sprite;
pub mod traffic;
pub mod power;
pub mod reports;
pub mod zoning;

use vstd::prelude::*;

use crate::game::{GameLevelDifficulty, GameScenario};
use crate::map::animations::TileMapAnimator;
use crate::map::animations::loader::{link_lines, parsed_lines};
use crate::map::{uniform_cells, MapClusteringStrategy, MapRectangle, Tile, TileMap, TileType};
use crate::utils::random::MicropolisRandom;

use budget::MoneyValue;
use disasters::CityDisasters;
use population::CityPopulation;
use power::CityPower;
use simulation::Simulation;
use sprite::ActiveSpritesList;
use traffic::CityTraffic;

verus! {

/// Status of the city's initialization.
#[derive(Clone, Copy, Debug, PartialEq, Eq, Structural)]
pub enum CityInitializationState {
    Initialized,
    JustCreated,
    JustLoaded,
}

/// A Micropolis city.
pub struct City {
    /// Stateful PseudoRandom Number Generator.
    rng: MicropolisRandom,
    /// Active sprites register.
    sprites: ActiveSpritesList,
    /// Status of the city's initialization.
    init_status: CityInitializationState,
    /// Game difficulty.
    difficulty: GameLevelDifficulty,
    /// Game scenario.
    scenario: GameScenario,
    /// Current simulation speed. From 0 to 3.
    simulation_speed: u8,
    /// TileMap describing the city and its surroundings.
    map: TileMap,
    /// TileMap animator.
    map_animator: TileMapAnimator,
    /// Name of the city.
    name: String,
    /// Starting year of the city.
    starting_year: i16,
    /// Cash flow of the city.
    cash_flow: MoneyValue,
    /// City time counter, incremented once every 16 runs through the simulator
    /// (at fast speed).
    ///
    /// A time unit is 7.6 days. 4 units per month, 48 units per year, relative
    /// to `starting_year`.
    city_time: u32,
    /// Number of road tiles in the game.
    ///
    /// Bridges count as 4 tiles, and high density traffic counts as 2.
    roads_total: u32,
    /// Number of rail tiles in the game.
    ///
    /// No penalty for bridges or high traffic density.
    rail_total: u32,
    /// Number of burning fires.
    fires_count: u32,
    /// Disasters simulation,
    disasters: CityDisasters,
    /// Population counts.
    population: CityPopulation,
    /// Electricity simulation.
    power: CityPower,
    /// Traffic simulation.
    traffic: CityTraffic,
    /// Global simulation.
    sim: Simulation,
}

impl City {
    /// The map of the city.
    pub closed spec fn world(&self) -> TileMap {
        self.map
    }

    /// The simulation of the city.
    pub closed spec fn simulation(&self) -> Simulation {
        self.sim
    }

    /// The name of the city.
    pub closed spec fn city_name(&self) -> Seq<char> {
        self.name@
    }

    /// The simulation speed of the city.
    pub closed spec fn speed(&self) -> u8 {
        self.simulation_speed
    }

    /// The generator of the city.
    pub closed spec fn generator(&self) -> MicropolisRandom {
        self.rng
    }

    /// The scenario played in the city.
    pub closed spec fn played_scenario(&self) -> GameScenario {
        self.scenario
    }

    /// The active sprites of the city.
    pub closed spec fn sprites_list(&self) -> ActiveSpritesList {
        self.sprites
    }

    /// The disasters of the city.
    pub closed spec fn city_disasters(&self) -> CityDisasters {
        self.disasters
    }

    /// The population of the city.
    pub closed spec fn city_population(&self) -> CityPopulation {
        self.population
    }

    /// The traffic of the city.
    pub closed spec fn city_traffic(&self) -> CityTraffic {
        self.traffic
    }

    /// The electricity of the city.
    pub closed spec fn city_power(&self) -> CityPower {
        self.power
    }

    /// The cash flow of the city.
    pub closed spec fn cash(&self) -> MoneyValue {
        self.cash_flow
    }

    /// The city time counter.
    pub closed spec fn clock(&self) -> u32 {
        self.city_time
    }

    /// The generator, map, sprites and disasters of the city, to be changed
    /// together; the rest of the city stays as it is.
    pub(crate) fn scan_parts(&mut self) -> (r: (&mut MicropolisRandom, &mut TileMap, &mut ActiveSpritesList, &mut CityDisasters))
        ensures
            *r.0 == old(self).generator(),
            *r.1 == old(self).world(),
            *r.2 == old(self).sprites_list(),
            *r.3 == old(self).city_disasters(),
            final(self).generator() == *final(r.0),
            final(self).world() == *final(r.1),
            final(self).sprites_list() == *final(r.2),
            final(self).city_disasters() == *final(r.3),
            final(self).simulation() == old(self).simulation(),
            final(self).speed() == old(self).speed(),
            final(self).city_population() == old(self).city_population(),
            final(self).city_traffic() == old(self).city_traffic(),
            final(self).city_power() == old(self).city_power(),
            final(self).cash() == old(self).cash(),
            final(self).clock() == old(self).clock(),
    {
        (&mut self.rng, &mut self.map, &mut self.sprites, &mut self.disasters)
    }

    /// The map and traffic of the city, the traffic to be changed; the rest
    /// of the city stays as it is.
    pub(crate) fn traffic_parts(&mut self) -> (r: (&TileMap, &mut CityTraffic))
        ensures
            *r.0 == old(self).world(),
            *r.1 == old(self).city_traffic(),
            final(self).city_traffic() == *final(r.1),
            final(self).world() == old(self).world(),
            final(self).generator() == old(self).generator(),
            final(self).sprites_list() == old(self).sprites_list(),
            final(self).city_disasters() == old(self).city_disasters(),
            final(self).simulation() == old(self).simulation(),
            final(self).speed() == old(self).speed(),
            final(self).city_population() == old(self).city_population(),
            final(self).city_power() == old(self).city_power(),
            final(self).cash() == old(self).cash(),
            final(self).clock() == old(self).clock(),
    {
        (&self.map, &mut self.traffic)
    }

    /// The map and electricity of the city, the electricity to be changed;
    /// the rest of the city stays as it is.
    pub(crate) fn power_parts(&mut self) -> (r: (&TileMap, &mut CityPower))
        ensures
            *r.0 == old(self).world(),
            *r.1 == old(self).city_power(),
            final(self).city_power() == *final(r.1),
            final(self).world() == old(self).world(),
            final(self).generator() == old(self).generator(),
            final(self).sprites_list() == old(self).sprites_list(),
            final(self).city_disasters() == old(self).city_disasters(),
            final(self).simulation() == old(self).simulation(),
            final(self).speed() == old(self).speed(),
            final(self).city_population() == old(self).city_population(),
            final(self).city_traffic() == old(self).city_traffic(),
            final(self).cash() == old(self).cash(),
            final(self).clock() == old(self).clock(),
    {
        (&self.map, &mut self.power)
    }

    /// The map and population of the city, the population to be changed;
    /// the rest of the city stays as it is.
    pub(crate) fn population_parts(&mut self) -> (r: (&TileMap, &mut CityPopulation))
        ensures
            *r.0 == old(self).world(),
            *r.1 == old(self).city_population(),
            final(self).city_population() == *final(r.1),
            final(self).world() == old(self).world(),
            final(self).generator() == old(self).generator(),
            final(self).sprites_list() == old(self).sprites_list(),
            final(self).city_disasters() == old(self).city_disasters(),
            final(self).simulation() == old(self).simulation(),
            final(self).speed() == old(self).speed(),
            final(self).city_traffic() == old(self).city_traffic(),
            final(self).city_power() == old(self).city_power(),
            final(self).cash() == old(self).cash(),
            final(self).clock() == old(self).clock(),
    {
        (&self.map, &mut self.population)
    }

    /// The population and cash flow of the city, the cash flow to be
    /// changed; the rest of the city stays as it is.
    pub(crate) fn census_parts(&mut self) -> (r: (&CityPopulation, &mut MoneyValue))
        ensures
            *r.0 == old(self).city_population(),
            *r.1 == old(self).cash(),
            final(self).cash() == *final(r.1),
            final(self).world() == old(self).world(),
            final(self).generator() == old(self).generator(),
            final(self).sprites_list() == old(self).sprites_list(),
            final(self).city_disasters() == old(self).city_disasters(),
            final(self).simulation() == old(self).simulation(),
            final(self).speed() == old(self).speed(),
            final(self).city_population() == old(self).city_population(),
            final(self).city_traffic() == old(self).city_traffic(),
            final(self).city_power() == old(self).city_power(),
            final(self).clock() == old(self).clock(),
    {
        (&self.population, &mut self.cash_flow)
    }

    /// The city time counter.
    pub fn get_city_time(&self) -> (r: u32)
        ensures
            r == self.clock(),
    {
        self.city_time
    }

    /// A new city of 120 by 100 tiles of dirt, free play at normal
    /// difficulty, paused, whose simulation draws from the seed and whose
    /// tiles animate along the sequences of the lines.
    ///
    /// Its disasters follow the scenario given.
    pub fn new(name: String, scenario: GameScenario, seed: i32, animation_lines: &Vec<String>) -> (r:
        Result<Self, String>)
        ensures
            ({
                let texts = animation_lines@.map_values(|l: String| l@);
                let loads = parsed_lines(texts) matches Some(p) && link_lines(p, p.len() as int) is Some;
                &&& loads <==> r is Ok
                &&& r matches Ok(city) ==> {
                    &&& city.city_name() == name@
                    &&& city.speed() == 0
                    &&& city.generator().state() == seed as u64
                    &&& city.generator().creation_seed() == seed
                    &&& city.played_scenario() == GameScenario::NoScenario
                    &&& city.world().strategy() == MapClusteringStrategy::BlockSize1
                    &&& exists|t: Tile|
                        t.raw() == 0 && t.wf() && #[trigger] city.world().cells() == uniform_cells(
                            120,
                            100,
                            t,
                        )
                    &&& city.simulation().time() == 0
                    &&& city.simulation().serial() == 1
                }
            }),
    {
        let map = TileMap::tilemap_with_dimensions(&MapRectangle::new(120, 100), TileType::Dirt)?;
        let population = CityPopulation::from_map(&map);
        let power = CityPower::from_map(&map);
        let traffic = CityTraffic::from_map(&map);
        let sim = Simulation::new(&map);
        let map_animator = TileMapAnimator::load(animation_lines)?;
        Ok(City {
            rng: MicropolisRandom::from_seed(seed),
            sprites: ActiveSpritesList::new(),
            init_status: CityInitializationState::JustCreated,
            difficulty: GameLevelDifficulty::Normal,
            scenario: GameScenario::NoScenario,
            simulation_speed: 0,
            map,
            map_animator,
            name,
            starting_year: 1900,
            cash_flow: 0,
            city_time: 0,
            roads_total: 0,
            rail_total: 0,
            fires_count: 0,
            disasters: CityDisasters::new(&scenario),
            population,
            power,
            traffic,
            sim,
        })
    }

    pub fn get_map(&self) -> (r: &TileMap)
        ensures
            *r == self.world(),
    {
        &self.map
    }

    pub fn get_map_mut(&mut self) -> (r: &mut TileMap)
        ensures
            *r == old(self).world(),
            final(self).world() == *final(r),
            final(self).simulation() == old(self).simulation(),
            final(self).speed() == old(self).speed(),
    {
        &mut self.map
    }

    pub fn get_sim(&self) -> (r: &Simulation)
        ensures
            *r == self.simulation(),
    {
        &self.sim
    }

    pub fn get_sim_mut(&mut self) -> (r: &mut Simulation)
        ensures
            *r == old(self).simulation(),
            final(self).simulation() == *final(r),
            final(self).world() == old(self).world(),
            final(self).speed() == old(self).speed(),
    {
        &mut self.sim
    }

    /// Note a change of the map for the simulation.
    pub fn invalidate_map(&mut self)
        requires
            old(self).simulation().serial() < u32::MAX,
        ensures
            final(self).simulation().serial() == old(self).simulation().serial() + 1,
            final(self).simulation().pass() == old(self).simulation().pass(),
            final(self).simulation().time() == old(self).simulation().time(),
            final(self).world() == old(self).world(),
            final(self).speed() == old(self).speed(),
    {
        self.sim.on_map_updated();
    }

    pub fn get_simulation_speed(&self) -> (r: u8)
        ensures
            r == self.speed(),
    {
        self.simulation_speed
    }

    /// Set the simulation speed, at most 3.
    pub fn set_simulation_speed(&mut self, speed: u8)
        ensures
            final(self).speed() == if speed > 3 {
                3
            } else {
                speed
            },
            final(self).world() == old(self).world(),
            final(self).simulation() == old(self).simulation(),
    {
        self.simulation_speed = if speed > 3 {
            3
        } else {
            speed
        }
    }
}

} // verus!
