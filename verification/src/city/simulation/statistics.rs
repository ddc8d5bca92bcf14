use vstd::prelude::*;

use crate::map::position::MapPosition;

verus! {

/// Statistics gathered while scanning the map.
#[derive(Clone, Copy, Debug, PartialEq, Eq, Structural)]
pub struct SimulationStatistics {
    /// Number of road tiles in the game.
    ///
    /// Bridges count as 4 tiles, and high-density traffic counts as 2 tiles.
    pub road_total: u16,
    /// Total number of rails.
    ///
    /// No penalty for bridges or high-traffic density.
    pub rail_total: u16,
    /// Police station population.
    pub police_station_count: u16,
    /// Fire station population.
    pub fire_station_count: u16,
    /// Seaport station population.
    pub seaport_count: u16,
    /// Airport station population.
    pub airport_count: u16,
    /// Stadium population.
    pub stadium_count: u16,
    /// Hospital population.
    pub hospital_count: u16,
    /// Church population.
    pub church_count: u16,
    /// Faith bias added to the residential population when deciding on churches.
    pub faith: u16,
    /// Average crime.
    ///
    /// Affected by land value, population density, police station distance.
    pub average_crime: u16,
    /// Crime level moving towards the average crime.
    pub crime_ramp: u16,
    /// Coordinates of the most criminal area. Not used.
    pub maximum_crime_at: MapPosition,
    /// Average pollution.
    ///
    /// Affected - effectively - by traffic, fire, radioactivity, industrial zones,
    /// seports, airports and power plants.
    pub average_pollution: u16,
    /// Pollution level moving towards the average pollution.
    pub pollution_ramp: u16,
    /// Coordinates of the most polluted area (for the monster).
    pub maximum_pollution_at: MapPosition,
    /// Average land value.
    ///
    /// Affected by distance from city center, development dencity, pollution and crime.
    pub average_land_value: u16,
}

/// Statistics before any scan: all zero.
pub open spec fn zero_statistics() -> SimulationStatistics {
    SimulationStatistics {
        road_total: 0,
        rail_total: 0,
        police_station_count: 0,
        fire_station_count: 0,
        seaport_count: 0,
        airport_count: 0,
        stadium_count: 0,
        hospital_count: 0,
        church_count: 0,
        faith: 0,
        average_crime: 0,
        crime_ramp: 0,
        maximum_crime_at: MapPosition { x: 0, y: 0 },
        average_pollution: 0,
        pollution_ramp: 0,
        maximum_pollution_at: MapPosition { x: 0, y: 0 },
        average_land_value: 0,
    }
}

impl Default for SimulationStatistics {
    fn default() -> (r: Self)
        ensures
            r == (SimulationStatistics {
                road_total: 0,
                rail_total: 0,
                police_station_count: 0,
                fire_station_count: 0,
                seaport_count: 0,
                airport_count: 0,
                stadium_count: 0,
                hospital_count: 0,
                church_count: 0,
                faith: 0,
                average_crime: 0,
                crime_ramp: 0,
                maximum_crime_at: MapPosition { x: 0, y: 0 },
                average_pollution: 0,
                pollution_ramp: 0,
                maximum_pollution_at: MapPosition { x: 0, y: 0 },
                average_land_value: 0,
            }),
    {
        SimulationStatistics {
            road_total: 0,
            rail_total: 0,
            police_station_count: 0,
            fire_station_count: 0,
            seaport_count: 0,
            airport_count: 0,
            stadium_count: 0,
            hospital_count: 0,
            church_count: 0,
            faith: 0,
            average_crime: 0,
            crime_ramp: 0,
            maximum_crime_at: MapPosition::new(0, 0),
            average_pollution: 0,
            pollution_ramp: 0,
            maximum_pollution_at: MapPosition::new(0, 0),
            average_land_value: 0,
        }
    }
}

} // verus!
