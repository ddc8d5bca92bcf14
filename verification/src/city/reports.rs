use vstd::prelude::*;

verus! {

/// Kinds of information a report can give about a tile.
#[derive(Clone, Copy, Debug, PartialEq, Eq, Structural)]
pub enum CityQuery {
    PopulationDensity,
    LandValue,
    CrimeRate,
    Pollution,
    GrowthRate,
}

/// Builder of reports on the city's tiles.
#[derive(Clone, Copy, Debug, PartialEq, Eq, Structural)]
pub struct CityReportBuilder;

} // verus!
