use vstd::prelude::*;

use crate::city::budget::MoneyValue;
use crate::city::population::CityPopulation;
use crate::utils::clamp;

use super::statistics::SimulationStatistics;

verus! {

/// Number of history entries.
pub const HISTORY_LENGTH: usize = 480;

/// Number of miscellaneous history entries.
pub const MISC_HISTORY_LENGTH: usize = 240;

pub const RESIDENTIAL_POPULATION_DENOMINATOR: u16 = 8;

pub struct CitySimulationCensus {
    /// Residential population history.
    residential_history: Vec<u16>,
    /// Commercial population history.
    commercial_history: Vec<u16>,
    /// Industrial population history.
    industrial_history: Vec<u16>,
    /// Money history.
    money_history: Vec<u16>,
    /// Pollution history.
    pollution_history: Vec<u16>,
    /// Crime history.
    crime_history: Vec<u16>,
    /// Memory used to save miscellaneous game values in the save file.
    misc_history: Vec<u16>,
    /// 10 year residential history maximum value.
    residential_history_10_max: u16,
    /// 120 year residential history maximum value.
    residential_history_120_max: u16,
    /// 10 year commercial history maximum value.
    commercial_history_10_max: u16,
    /// 120 year commercial history maximum value.
    commercial_history_120_max: u16,
    /// 10 year industrial history maximum value.
    industrial_history_10_max: u16,
    /// 120 year industrial history maximum value.
    industrial_history_120_max: u16,
    /// Census changed flag.
    ///
    /// If true, need to redraw census-dependent stuff.
    census_changed: bool,
    /// Need hospital?
    ///
    /// 0 if no, 1 if yes, -1 if too many.
    need_hospital: i8,
    /// Need church?
    ///
    /// 0 if no, 1 if yes, -1 if too many.
    need_church: i8,
}

/// Maximum of the entries `lo` to `hi` (inclusive) of the history, at least 0.
pub open spec fn history_max(h: Seq<u16>, lo: int, hi: int) -> u16
    decreases hi - lo + 1,
{
    if hi < lo {
        0
    } else {
        let rest = history_max(h, lo + 1, hi);
        if h[lo] > rest {
            h[lo]
        } else {
            rest
        }
    }
}

/// The history with the entries `lo` to `hi - 1` moved one step later (the
/// entry at `hi` is lost) and `value` put at `lo`.
pub open spec fn history_shifted(h: Seq<u16>, lo: int, hi: int, value: u16) -> Seq<u16> {
    Seq::new(
        h.len(),
        |k: int|
            if k == lo {
                value
            } else if lo < k <= hi {
                h[k - 1]
            } else {
                h[k]
            },
    )
}

/// Sign of the lack of something: 1 when there is less than needed, -1 when
/// there is more, 0 otherwise.
pub open spec fn need_of(have: int, needed: int) -> i8 {
    if have - needed < 0 {
        1i8
    } else if have - needed > 0 {
        -1i8
    } else {
        0
    }
}

/// The monthly census: the monthly halves of the histories shift and take
/// the current populations, crime and pollution ramps (moved a quarter of
/// the way to their averages) and cash flow; the maxima of the last ten
/// years and the needs of hospitals and churches are updated.
pub open spec fn monthly_census_taken(
    before: CitySimulationCensus,
    after: CitySimulationCensus,
    statistics: SimulationStatistics,
    statistics_after: SimulationStatistics,
    population: CityPopulation,
    cash_flow: MoneyValue,
) -> bool {
    let (res, com, ind, money, pollution, crime) = before.histories();
    let (res2, com2, ind2, money2, pollution2, crime2) = after.histories();
    let crime_ramp = statistics.crime_ramp + (statistics.average_crime - statistics.crime_ramp) / 4;
    let pollution_ramp = statistics.pollution_ramp + (statistics.average_pollution - statistics.pollution_ramp) / 4;
    &&& after.wf()
    &&& after.changed()
    &&& res2 == history_shifted(res, 0, 119, (population.zones().0 / RESIDENTIAL_POPULATION_DENOMINATOR) as u16)
    &&& com2 == history_shifted(com, 0, 119, population.zones().1)
    &&& ind2 == history_shifted(ind, 0, 119, population.zones().2)
    &&& crime2 == history_shifted(crime, 0, 119, if crime_ramp < 255 { crime_ramp as u16 } else { 255u16 })
    &&& pollution2 == history_shifted(pollution, 0, 119, if pollution_ramp < 255 { pollution_ramp as u16 } else { 255u16 })
    &&& money2 == history_shifted(money, 0, 119, ({
        let x = ((cash_flow / 20) + 128) as u16;
        if x > 255 { 255u16 } else { x }
    }))
    &&& after.maxima_10() == (history_max(res, 0, 118), history_max(com, 0, 118), history_max(ind, 0, 118))
    &&& statistics_after == (SimulationStatistics {
        crime_ramp: crime_ramp as u16,
        pollution_ramp: pollution_ramp as u16,
        ..statistics
    })
    &&& after.needs() == (
        need_of(statistics.hospital_count as int, (population.zones().0 >> 8u16) as int),
        need_of(statistics.church_count as int, (population.zones().0 >> 8u16) + statistics.faith),
    )
    &&& after.maxima_120() == before.maxima_120()
}

/// The yearly census: the yearly halves of the histories shift and take the
/// current populations and the last monthly crime, pollution and money; the
/// maxima of the last 120 years are updated.
pub open spec fn yearly_census_taken(
    before: CitySimulationCensus,
    after: CitySimulationCensus,
    population: CityPopulation,
) -> bool {
    let (res, com, ind, money, pollution, crime) = before.histories();
    let (res2, com2, ind2, money2, pollution2, crime2) = after.histories();
    &&& after.wf()
    &&& after.changed()
    &&& res2 == history_shifted(res, 120, 239, (population.zones().0 / RESIDENTIAL_POPULATION_DENOMINATOR) as u16)
    &&& com2 == history_shifted(com, 120, 239, population.zones().1)
    &&& ind2 == history_shifted(ind, 120, 239, population.zones().2)
    &&& crime2 == history_shifted(crime, 120, 239, crime[0])
    &&& pollution2 == history_shifted(pollution, 120, 239, pollution[0])
    &&& money2 == history_shifted(money, 120, 239, money[0])
    &&& after.maxima_120() == (history_max(res, 120, 238), history_max(com, 120, 238), history_max(ind, 120, 238))
    &&& after.maxima_10() == before.maxima_10()
    &&& after.needs() == before.needs()
}

impl CitySimulationCensus {
    /// Histories have their lengths.
    pub closed spec fn wf(&self) -> bool {
        &&& self.residential_history@.len() == HISTORY_LENGTH
        &&& self.commercial_history@.len() == HISTORY_LENGTH
        &&& self.industrial_history@.len() == HISTORY_LENGTH
        &&& self.money_history@.len() == HISTORY_LENGTH
        &&& self.pollution_history@.len() == HISTORY_LENGTH
        &&& self.crime_history@.len() == HISTORY_LENGTH
        &&& self.misc_history@.len() == MISC_HISTORY_LENGTH
    }

    /// Residential, commercial, industrial, money, pollution and crime histories.
    pub closed spec fn histories(&self) -> (Seq<u16>, Seq<u16>, Seq<u16>, Seq<u16>, Seq<u16>, Seq<u16>) {
        (
            self.residential_history@,
            self.commercial_history@,
            self.industrial_history@,
            self.money_history@,
            self.pollution_history@,
            self.crime_history@,
        )
    }

    /// 10 year maxima of the residential, commercial and industrial histories.
    pub closed spec fn maxima_10(&self) -> (u16, u16, u16) {
        (self.residential_history_10_max, self.commercial_history_10_max, self.industrial_history_10_max)
    }

    /// 120 year maxima of the residential, commercial and industrial histories.
    pub closed spec fn maxima_120(&self) -> (u16, u16, u16) {
        (self.residential_history_120_max, self.commercial_history_120_max, self.industrial_history_120_max)
    }

    /// Has the census changed?
    pub closed spec fn changed(&self) -> bool {
        self.census_changed
    }

    /// Needs of hospitals and churches.
    pub closed spec fn needs(&self) -> (i8, i8) {
        (self.need_hospital, self.need_church)
    }

    pub fn new() -> (r: Self)
        ensures
            r.wf(),
            r.histories().0 == Seq::new(480, |i: int| 0u16),
            r.histories().3 == Seq::new(480, |i: int| 0u16),
            r.maxima_10() == (0u16, 0u16, 0u16),
            r.maxima_120() == (0u16, 0u16, 0u16),
            !r.changed(),
            r.needs() == (0i8, 0i8),
    {
        let r = Self {
            residential_history: Self::zeros(HISTORY_LENGTH),
            commercial_history: Self::zeros(HISTORY_LENGTH),
            industrial_history: Self::zeros(HISTORY_LENGTH),
            money_history: Self::zeros(HISTORY_LENGTH),
            pollution_history: Self::zeros(HISTORY_LENGTH),
            crime_history: Self::zeros(HISTORY_LENGTH),
            misc_history: Self::zeros(MISC_HISTORY_LENGTH),
            residential_history_10_max: 0,
            residential_history_120_max: 0,
            commercial_history_10_max: 0,
            commercial_history_120_max: 0,
            industrial_history_10_max: 0,
            industrial_history_120_max: 0,
            census_changed: false,
            need_hospital: 0,
            need_church: 0,
        };
        r
    }

    /// A history of `length` zeros.
    fn zeros(length: usize) -> (r: Vec<u16>)
        ensures
            r@ == Seq::new(length as nat, |i: int| 0u16),
    {
        let mut v: Vec<u16> = Vec::new();
        while v.len() < length
            invariant
                v@.len() <= length,
                v@ == Seq::new(v@.len(), |i: int| 0u16),
            decreases length - v@.len(),
        {
            v.push(0);
        }
        v
    }

    /// Move the entries `lo` to `hi - 1` of a history one step later (the
    /// entry at `hi` is lost), and return the maximum of the old entries `lo`
    /// to `hi - 1`.
    fn shift_history(history: &mut Vec<u16>, lo: usize, hi: usize) -> (r: u16)
        requires
            lo < hi < old(history)@.len(),
        ensures
            r == history_max(old(history)@, lo as int, hi - 1),
            final(history)@ == history_shifted(old(history)@, lo as int, hi as int, old(history)@[lo as int]),
    {
        let ghost h = history@;
        let mut maximum: u16 = 0;
        let mut x: usize = hi;
        while x > lo
            invariant
                lo <= x <= hi,
                hi < h.len(),
                history@.len() == h.len(),
                maximum == history_max(h, x as int, hi - 1),
                forall|k: int| 0 <= k < h.len() ==> #[trigger] history@[k] == if x < k <= hi { h[k - 1] } else { h[k] },
            decreases x - lo,
        {
            x = x - 1;
            let value = history[x];
            if value > maximum {
                maximum = value;
            }
            history.set(x + 1, value);
        }
        maximum
    }

    /// Take monthly snapshots of all relevant data for the historic graphs.
    ///
    /// Also update variables that control building new churches and hospitals.
    pub fn take_monthly_census(
        &mut self,
        population: &CityPopulation,
        statistics: &mut SimulationStatistics,
        cash_flow: MoneyValue,
    )
        requires
            old(self).wf(),
            old(statistics).average_crime >= old(statistics).crime_ramp,
            old(statistics).average_pollution >= old(statistics).pollution_ramp,
            (population.zones().0 >> 8u16) + old(statistics).faith <= u16::MAX,
        ensures
            monthly_census_taken(*old(self), *final(self), *old(statistics), *final(statistics), *population, cash_flow),
    {
        self.residential_history_10_max = Self::shift_history(&mut self.residential_history, 0, 119);
        self.commercial_history_10_max = Self::shift_history(&mut self.commercial_history, 0, 119);
        self.industrial_history_10_max = Self::shift_history(&mut self.industrial_history, 0, 119);
        Self::shift_history(&mut self.crime_history, 0, 119);
        Self::shift_history(&mut self.pollution_history, 0, 119);
        Self::shift_history(&mut self.money_history, 0, 119);

        self.residential_history.set(0, population.get_residential() / RESIDENTIAL_POPULATION_DENOMINATOR);
        self.commercial_history.set(0, population.get_commercial());
        self.industrial_history.set(0, population.get_industrial());

        statistics.crime_ramp = statistics.crime_ramp + (statistics.average_crime - statistics.crime_ramp) / 4;
        self.crime_history.set(0, if statistics.crime_ramp < 255 { statistics.crime_ramp } else { 255 });

        statistics.pollution_ramp = statistics.pollution_ramp + (statistics.average_pollution - statistics.pollution_ramp) / 4;
        self.pollution_history.set(0, if statistics.pollution_ramp < 255 { statistics.pollution_ramp } else { 255 });

        let x = ((cash_flow / 20) + 128) as u16;
        self.money_history.set(0, clamp(x as i64, 0, 255) as u16);

        self.on_census_changed();

        let residential_population_scaled = population.get_residential() >> 8;
        let hospital_delta = statistics.hospital_count as i32 - residential_population_scaled as i32;
        self.need_hospital = if hospital_delta < 0 {
            1
        } else if hospital_delta > 0 {
            -1
        } else {
            0
        };

        let faithful_population = residential_population_scaled + statistics.faith;
        let church_delta = statistics.church_count as i32 - faithful_population as i32;
        self.need_church = if church_delta < 0 {
            1
        } else if church_delta > 0 {
            -1
        } else {
            0
        };
        proof {
            assert(self.residential_history@ =~= history_shifted(old(self).residential_history@, 0, 119, (population.zones().0 / RESIDENTIAL_POPULATION_DENOMINATOR) as u16));
            assert(self.commercial_history@ =~= history_shifted(old(self).commercial_history@, 0, 119, population.zones().1));
            assert(self.industrial_history@ =~= history_shifted(old(self).industrial_history@, 0, 119, population.zones().2));
            assert(self.crime_history@ =~= history_shifted(old(self).crime_history@, 0, 119, self.crime_history@[0]));
            assert(self.pollution_history@ =~= history_shifted(old(self).pollution_history@, 0, 119, self.pollution_history@[0]));
            assert(self.money_history@ =~= history_shifted(old(self).money_history@, 0, 119, self.money_history@[0]));
        }
    }

    /// Take yearly census.
    pub fn take_yearly_census(&mut self, population: &CityPopulation)
        requires
            old(self).wf(),
        ensures
            yearly_census_taken(*old(self), *final(self), *population),
    {
        self.residential_history_120_max = Self::shift_history(&mut self.residential_history, 120, 239);
        self.commercial_history_120_max = Self::shift_history(&mut self.commercial_history, 120, 239);
        self.industrial_history_120_max = Self::shift_history(&mut self.industrial_history, 120, 239);
        Self::shift_history(&mut self.crime_history, 120, 239);
        Self::shift_history(&mut self.pollution_history, 120, 239);
        Self::shift_history(&mut self.money_history, 120, 239);

        self.residential_history.set(120, population.get_residential() / RESIDENTIAL_POPULATION_DENOMINATOR);
        self.commercial_history.set(120, population.get_commercial());
        self.industrial_history.set(120, population.get_industrial());
        let crime = self.crime_history[0];
        self.crime_history.set(120, crime);
        let pollution = self.pollution_history[0];
        self.pollution_history.set(120, pollution);
        let money = self.money_history[0];
        self.money_history.set(120, money);

        self.on_census_changed();
        proof {
            assert(self.residential_history@ =~= history_shifted(old(self).residential_history@, 120, 239, (population.zones().0 / RESIDENTIAL_POPULATION_DENOMINATOR) as u16));
            assert(self.commercial_history@ =~= history_shifted(old(self).commercial_history@, 120, 239, population.zones().1));
            assert(self.industrial_history@ =~= history_shifted(old(self).industrial_history@, 120, 239, population.zones().2));
            assert(self.crime_history@ =~= history_shifted(old(self).crime_history@, 120, 239, old(self).crime_history@[0]));
            assert(self.pollution_history@ =~= history_shifted(old(self).pollution_history@, 120, 239, old(self).pollution_history@[0]));
            assert(self.money_history@ =~= history_shifted(old(self).money_history@, 120, 239, old(self).money_history@[0]));
        }
    }

    /// Set the flag that graph data has been changed and graphs should be updated.
    fn on_census_changed(&mut self)
        ensures
            final(self).changed(),
            final(self).histories() == old(self).histories(),
            final(self).maxima_10() == old(self).maxima_10(),
            final(self).maxima_120() == old(self).maxima_120(),
            final(self).needs() == old(self).needs(),
            final(self).wf() == old(self).wf(),
    {
        self.census_changed = true;
    }
}

} // verus!
