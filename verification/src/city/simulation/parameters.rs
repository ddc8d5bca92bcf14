use vstd::prelude::*;

use crate::utils::Percentage;

verus! {

pub const MAX_ROAD_EFFECT: u64 = 32;

pub const MAX_FIRE_EFFECT: u64 = 1000;

pub const MAX_POLICE_EFFECT: u64 = 1000;

#[derive(Clone, Debug, PartialEq)]
pub struct SimulationParameters {
    /// Used to normalize residential population.
    residential_population_denominator: u32,
    /// Combination of the population birthrate (positive) and deathrate (positive).
    ///
    /// Always positive.
    birth_rate: Percentage,
    /// Maximum `labor_base` value.
    max_labor_base: Percentage,
    /// Minimum `projected_industrial_population` value.
    min_projected_industrial_population: Percentage,
    /// Default residential population ratio.
    default_residential_ratio: Percentage,
    /// Maximum residential population ratio.
    max_residential_ratio: Percentage,
    /// Maximum commercial population ratio.
    max_commercial_ratio: Percentage,
    /// Maximum industrial population ratio.
    max_industrial_ratio: Percentage,
    /// Maximum global tax rate.
    max_tax_rate: Percentage,
    /// Tax table scale.
    tax_table_scale: Percentage,
    /// Ratio of road spendings over funding, times `MAX_ROAD_EFFECT`.
    road_effect: u64,
    /// Ratio of fire spendings over funding, times `MAX_POLICE_EFFECT`.
    fire_effect: u64,
    /// Ratio of police spendings over funding, times `MAX_POLICE_EFFECT`.
    police_effect: u64,
}

impl Default for SimulationParameters {
    fn default() -> (r: Self)
        ensures
            r.population_denominator() == 8,
            r.rates() == seq![2u32, 130, 500, 130, 200, 200, 200, 2000, 60000],
            r.effects() == (MAX_ROAD_EFFECT, MAX_FIRE_EFFECT, MAX_POLICE_EFFECT),
    {
        let r = Self {
            residential_population_denominator: 8,
            birth_rate: Percentage::from_hundredths(2),
            max_labor_base: Percentage::from_hundredths(130),
            min_projected_industrial_population: Percentage::from_hundredths(500),
            default_residential_ratio: Percentage::from_hundredths(130),
            max_residential_ratio: Percentage::from_hundredths(200),
            max_commercial_ratio: Percentage::from_hundredths(200),
            max_industrial_ratio: Percentage::from_hundredths(200),
            max_tax_rate: Percentage::from_hundredths(2000),
            tax_table_scale: Percentage::from_hundredths(60000),
            road_effect: MAX_ROAD_EFFECT,
            fire_effect: MAX_FIRE_EFFECT,
            police_effect: MAX_POLICE_EFFECT,
        };
        assert(r.rates() =~= seq![2u32, 130, 500, 130, 200, 200, 200, 2000, 60000]);
        r
    }
}

impl SimulationParameters {
    /// Denominator of the residential population.
    pub closed spec fn population_denominator(&self) -> u32 {
        self.residential_population_denominator
    }

    /// Rates, in hundredths: birth rate, maximum labor base, minimum projected
    /// industrial population, default and maximum residential ratios,
    /// maximum commercial and industrial ratios, maximum tax rate, tax table scale.
    pub closed spec fn rates(&self) -> Seq<u32> {
        seq![
            self.birth_rate.hundredths(),
            self.max_labor_base.hundredths(),
            self.min_projected_industrial_population.hundredths(),
            self.default_residential_ratio.hundredths(),
            self.max_residential_ratio.hundredths(),
            self.max_commercial_ratio.hundredths(),
            self.max_industrial_ratio.hundredths(),
            self.max_tax_rate.hundredths(),
            self.tax_table_scale.hundredths(),
        ]
    }

    /// Road, fire and police effects.
    pub closed spec fn effects(&self) -> (u64, u64, u64) {
        (self.road_effect, self.fire_effect, self.police_effect)
    }

    pub fn get_road_effect(&self) -> (r: u64)
        ensures
            r == self.effects().0,
    {
        self.road_effect
    }

    pub fn get_fire_effect(&self) -> (r: u64)
        ensures
            r == self.effects().1,
    {
        self.fire_effect
    }

    pub fn get_police_effect(&self) -> (r: u64)
        ensures
            r == self.effects().2,
    {
        self.police_effect
    }

    /// Used to normalize residential population.
    pub fn get_residential_population_denominator(&self) -> (r: u32)
        ensures
            r == self.population_denominator(),
    {
        self.residential_population_denominator
    }

    /// Birth rate.
    pub fn get_birth_rate(&self) -> (r: Percentage)
        ensures
            r.hundredths() == self.rates()[0],
    {
        self.birth_rate
    }

    /// Maximum labor base.
    pub fn get_max_labor_base(&self) -> (r: Percentage)
        ensures
            r.hundredths() == self.rates()[1],
    {
        self.max_labor_base
    }

    /// Minimum projected industrial population.
    pub fn get_min_projected_industrial_population(&self) -> (r: Percentage)
        ensures
            r.hundredths() == self.rates()[2],
    {
        self.min_projected_industrial_population
    }

    /// Default residential population ratio.
    pub fn get_default_residential_ratio(&self) -> (r: Percentage)
        ensures
            r.hundredths() == self.rates()[3],
    {
        self.default_residential_ratio
    }

    /// Maximum residential population ratio.
    pub fn get_max_residential_ratio(&self) -> (r: Percentage)
        ensures
            r.hundredths() == self.rates()[4],
    {
        self.max_residential_ratio
    }

    /// Maximum commercial population ratio.
    pub fn get_max_commercial_ratio(&self) -> (r: Percentage)
        ensures
            r.hundredths() == self.rates()[5],
    {
        self.max_commercial_ratio
    }

    /// Maximum industrial population ratio.
    pub fn get_max_industrial_ratio(&self) -> (r: Percentage)
        ensures
            r.hundredths() == self.rates()[6],
    {
        self.max_industrial_ratio
    }

    /// Maximum global tax rate.
    pub fn get_max_tax_rate(&self) -> (r: Percentage)
        ensures
            r.hundredths() == self.rates()[7],
    {
        self.max_tax_rate
    }

    /// Tax table scale.
    pub fn get_tax_table_scale(&self) -> (r: Percentage)
        ensures
            r.hundredths() == self.rates()[8],
    {
        self.tax_table_scale
    }
}

} // verus!
