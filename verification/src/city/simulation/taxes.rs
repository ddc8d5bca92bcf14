use vstd::prelude::*;

use crate::city::budget::MoneyValue;

use super::statistics::SimulationStatistics;

verus! {

/// Tax effect of each tax rate.
pub const TAX_TABLE: [i16; 21] = [
    200, 150, 120, 100, 80, 50, 30, 0, -10, -40, -100, -150, -200, -250, -300, -350, -400, -450,
    -500, -550, -600,
];

#[derive(Clone, Copy, Debug, PartialEq, Eq, Structural)]
pub struct SimulationTaxes {
    /// City tax rate.
    pub city_tax: u16,
    /// City tax rate - average.
    pub city_tax_average: u16,
    /// Tax port flag.
    ///
    /// Apparently never used.
    pub tax_flag: bool,
}

impl Default for SimulationTaxes {
    fn default() -> (r: Self)
        ensures
            r == (SimulationTaxes { city_tax: 0, city_tax_average: 0, tax_flag: false }),
    {
        SimulationTaxes { city_tax: 0, city_tax_average: 0, tax_flag: false }
    }
}

impl SimulationTaxes {
    /// Collect city taxes: the cash flow is reset, and nothing is collected yet.
    pub fn collect_taxes(&mut self, cash_flow: &mut MoneyValue, statistics: &SimulationStatistics)
        ensures
            *final(cash_flow) == 0,
            *final(self) == *old(self),
    {
        *cash_flow = 0;
    }
}

} // verus!
