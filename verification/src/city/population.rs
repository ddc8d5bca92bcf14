use vstd::prelude::*;

use crate::map::position::{MapPosition, MapRectangle};
use crate::map::{uniform_cells, MapClusteringStrategy, TileMap, WorldMap};

verus! {

#[derive(Clone, Copy, Debug, PartialEq, Eq, Structural)]
pub enum CityClass {
    /// Population <= 2k citizens.
    Village,
    /// Population <= 10k citizens.
    Town,
    /// Population <= 50k citizens.
    City,
    /// Population <= 100k citizens.
    Capital,
    /// Population <= 500k citizens.
    Metropolis,
    /// Population > 500k citizens.
    Megalopolis,
}

/// Class of a city of the given total population.
pub open spec fn class_of(total_population: int) -> CityClass {
    if total_population <= 2000 {
        CityClass::Village
    } else if total_population <= 10000 {
        CityClass::Town
    } else if total_population <= 50000 {
        CityClass::City
    } else if total_population <= 100000 {
        CityClass::Capital
    } else if total_population <= 500000 {
        CityClass::Metropolis
    } else {
        CityClass::Megalopolis
    }
}

/// Rank of a class, from the village (0) to the megalopolis (5).
pub open spec fn class_rank(c: CityClass) -> int {
    match c {
        CityClass::Village => 0,
        CityClass::Town => 1,
        CityClass::City => 2,
        CityClass::Capital => 3,
        CityClass::Metropolis => 4,
        CityClass::Megalopolis => 5,
    }
}

/// Largest population of the classes, by rank: villages up to 2k citizens,
/// towns up to 10k, cities up to 50k, capitals up to 100k, metropolises up
/// to 500k (megalopolises have no limit).
pub open spec fn rank_limit(rank: int) -> int {
    if rank == 0 {
        2000
    } else if rank == 1 {
        10000
    } else if rank == 2 {
        50000
    } else if rank == 3 {
        100000
    } else {
        500000
    }
}

/// A city is of the smallest class whose population limit it does not
/// exceed: its population is within its class's limit and above the limit
/// of the class below; so the class grows with the population.
pub proof fn law_class_fits_population(total: int, other: int)
    ensures
        class_rank(class_of(total)) < 5 ==> total <= rank_limit(class_rank(class_of(total))),
        class_rank(class_of(total)) > 0 ==> total > rank_limit(class_rank(class_of(total)) - 1),
        total <= other ==> class_rank(class_of(total)) <= class_rank(class_of(other)),
{
}

impl CityClass {
    pub fn from_total_population(total_population: i64) -> (r: Self)
        ensures
            r == class_of(total_population as int),
    {
        if total_population <= 2000 {
            CityClass::Village
        } else if total_population <= 10000 {
            CityClass::Town
        } else if total_population <= 50000 {
            CityClass::City
        } else if total_population <= 100000 {
            CityClass::Capital
        } else if total_population <= 500000 {
            CityClass::Metropolis
        } else {
            CityClass::Megalopolis
        }
    }
}

/// Population density, by blocks of 2 by 2 tiles.
pub type PopulationDensityMap = WorldMap<u8>;

impl WorldMap<u8> {
    /// A density map covering the given dimensions, with the same value everywhere.
    pub fn with_dimensions(dimensions: &MapRectangle, default_value: u8) -> (r: Self)
        ensures
            r.cells() == uniform_cells(dimensions.width as nat, dimensions.height as nat, default_value),
            r.strategy() == MapClusteringStrategy::BlockSize2,
    {
        Self::filled(
            dimensions.get_width(),
            dimensions.get_height(),
            default_value,
            MapClusteringStrategy::BlockSize2,
        )
    }
}

/// Population of the city: density map, zones' populations and their growth
/// valves and caps, total population and its last change.
pub struct CityPopulation {
    /// Population density map.
    density_map: WorldMap<u8>,
    /// Number of people in residential zones.
    ///
    /// Depends on the level of zone development.
    residential: u16,
    /// Block residential growth?
    residential_cap: bool,
    residential_valve: i16,
    /// Number of people in commercial zones.
    ///
    /// Depends on the level of zone development.
    commercial: u16,
    /// Block commercial growth?
    commercial_cap: bool,
    commercial_valve: i16,
    /// Number of people in industrial zones.
    ///
    /// Depends on the level of zone development.
    industrial: u16,
    /// Block industrial growth?
    industrial_cap: bool,
    industrial_valve: i16,
    /// Total city population.
    ///
    /// Formula = (residential population) / 8 + (commercial population) + (industrial population).
    total: i64,
    /// Change in the total city population.
    total_delta: i64,
}

/// Total population of the zones' populations.
pub open spec fn total_of(residential: int, commercial: int, industrial: int) -> int {
    residential / 8 + commercial + industrial
}

impl CityPopulation {
    /// Population density map.
    pub closed spec fn density(&self) -> WorldMap<u8> {
        self.density_map
    }

    /// Populations of the residential, commercial and industrial zones.
    pub closed spec fn zones(&self) -> (u16, u16, u16) {
        (self.residential, self.commercial, self.industrial)
    }

    /// Growth valves of the residential, commercial and industrial zones.
    pub closed spec fn valves(&self) -> (i16, i16, i16) {
        (self.residential_valve, self.commercial_valve, self.industrial_valve)
    }

    /// Growth caps of the residential, commercial and industrial zones.
    pub closed spec fn caps(&self) -> (bool, bool, bool) {
        (self.residential_cap, self.commercial_cap, self.industrial_cap)
    }

    /// Total population.
    pub closed spec fn total(&self) -> i64 {
        self.total
    }

    /// Last change of the total population.
    pub closed spec fn delta(&self) -> i64 {
        self.total_delta
    }

    /// An empty population for the map, its density map covering the map.
    pub fn from_map(map: &TileMap) -> (r: Self)
        ensures
            r.density().cells() == uniform_cells(map.width(), map.height(), 0u8),
            r.density().strategy() == MapClusteringStrategy::BlockSize2,
            r.zones() == (0u16, 0u16, 0u16),
            r.valves() == (0i16, 0i16, 0i16),
            r.caps() == (false, false, false),
            r.total() == 0,
            r.delta() == 0,
    {
        Self {
            density_map: PopulationDensityMap::with_dimensions(&map.bounds(), 0),
            residential: 0,
            residential_cap: false,
            residential_valve: 0,
            commercial: 0,
            commercial_cap: false,
            commercial_valve: 0,
            industrial: 0,
            industrial_cap: false,
            industrial_valve: 0,
            total: 0,
            total_delta: 0,
        }
    }

    pub fn get_density_map(&self) -> (r: &WorldMap<u8>)
        ensures
            *r == self.density(),
    {
        &self.density_map
    }

    pub fn get_density_map_mut(&mut self) -> (r: &mut WorldMap<u8>)
        ensures
            *r == old(self).density(),
            final(self).density() == *final(r),
            final(self).zones() == old(self).zones(),
            final(self).valves() == old(self).valves(),
            final(self).caps() == old(self).caps(),
            final(self).total() == old(self).total(),
            final(self).delta() == old(self).delta(),
    {
        &mut self.density_map
    }

    /// Get the population density at the position between (0, 0) and
    /// (WORLD_WIDTH / 2, WORLD_HEIGHT / 2).
    pub fn get_density_at(&self, at: &MapPosition) -> (r: u8)
        ensures
            r == match self.density().tile_at(*at) {
                Some(v) => v,
                None => 0u8,
            },
    {
        match self.density_map.get_tile_at(at) {
            Some(v) => *v,
            None => 0,
        }
    }

    /// Set the population density at the position between (0, 0) and
    /// (WORLD_WIDTH / 2, WORLD_HEIGHT / 2).
    pub fn set_density_at(&mut self, at: &MapPosition, density: u8) -> (r: bool)
        ensures
            r == old(self).density().has_cell(*at),
            r ==> final(self).density().cells() == old(self).density().cells_after_set(*at, density),
            !r ==> final(self).density().cells() == old(self).density().cells(),
            final(self).density().strategy() == old(self).density().strategy(),
            final(self).zones() == old(self).zones(),
            final(self).total() == old(self).total(),
    {
        self.density_map.set_tile_at(at, density)
    }

    pub fn get_residential(&self) -> (r: u16)
        ensures
            r == self.zones().0,
    {
        self.residential
    }

    /// Growth valve reported for the residential zones: the commercial valve.
    pub fn get_residential_valve(&self) -> (r: i16)
        ensures
            r == self.valves().1,
    {
        self.commercial_valve
    }

    pub fn is_residential_capped(&self) -> (r: bool)
        ensures
            r == self.caps().0,
    {
        self.residential_cap
    }

    pub fn get_commercial(&self) -> (r: u16)
        ensures
            r == self.zones().1,
    {
        self.commercial
    }

    pub fn get_commercial_valve(&self) -> (r: i16)
        ensures
            r == self.valves().1,
    {
        self.commercial_valve
    }

    pub fn is_commercial_capped(&self) -> (r: bool)
        ensures
            r == self.caps().1,
    {
        self.commercial_cap
    }

    pub fn get_industrial(&self) -> (r: u16)
        ensures
            r == self.zones().2,
    {
        self.industrial
    }

    pub fn get_industrial_valve(&self) -> (r: i16)
        ensures
            r == self.valves().2,
    {
        self.industrial_valve
    }

    pub fn is_industrial_capped(&self) -> (r: bool)
        ensures
            r == self.caps().2,
    {
        self.industrial_cap
    }

    pub fn total_population(&self) -> (r: i64)
        ensures
            r == self.total(),
    {
        self.total
    }

    pub fn delta_population(&self) -> (r: i64)
        ensures
            r == self.delta(),
    {
        self.total_delta
    }

    /// Update the city total population and classification.
    ///
    /// The change is measured from the previous total, or is 0 when the
    /// previous total was -1 (not computed yet).
    pub fn update(&mut self) -> (r: CityClass)
        requires
            old(self).total() - total_of(
                old(self).zones().0 as int,
                old(self).zones().1 as int,
                old(self).zones().2 as int,
            ) <= i64::MAX,
            total_of(old(self).zones().0 as int, old(self).zones().1 as int, old(self).zones().2 as int)
                - old(self).total() <= i64::MAX,
        ensures
            ({
                let t = total_of(
                    old(self).zones().0 as int,
                    old(self).zones().1 as int,
                    old(self).zones().2 as int,
                );
                &&& final(self).total() == t
                &&& final(self).delta() == if old(self).total() == -1 {
                    0
                } else {
                    t - old(self).total()
                }
                &&& r == class_of(t)
            }),
            final(self).zones() == old(self).zones(),
            final(self).valves() == old(self).valves(),
            final(self).caps() == old(self).caps(),
            final(self).density() == old(self).density(),
    {
        let mut old_total = self.total;
        self.total = self.compute_total_population();
        if old_total == -1 {
            old_total = self.total;
        }
        self.total_delta = self.total - old_total;
        CityClass::from_total_population(self.total)
    }

    fn compute_total_population(&self) -> (r: i64)
        ensures
            r == total_of(self.zones().0 as int, self.zones().1 as int, self.zones().2 as int),
    {
        self.residential as i64 / 8 + self.commercial as i64 + self.industrial as i64
    }
}

} // verus!
