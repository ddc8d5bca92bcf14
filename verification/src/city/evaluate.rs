use vstd::prelude::*;

use crate::city::population::{CityClass, CityPopulation};
use crate::city::power::CityPower;
use crate::city::simulation::parameters::SimulationParameters;
use crate::city::simulation::statistics::SimulationStatistics;
use crate::city::simulation::taxes::SimulationTaxes;
use crate::city::traffic::CityTraffic;
use crate::map::WorldMap;
use crate::utils::random::{draw_bits, lcg_next, random16_at, trunc_rem, MicropolisRandom};
use crate::utils::Percentage;

verus! {

/// Number of problems to complain about.
pub const COMPLAINTS_COUNT: u8 = 4;

/// Number of problems the citizens vote on.
pub const PROBLEMS_COUNT: u8 = 7;

/// Number of entries of the problems tables.
pub const PROBLEMS_NUMBER: u8 = 10;

/// Problems in the city where citizens vote on.
#[derive(Clone, Copy, Debug, PartialEq, Eq, Hash, Structural)]
pub enum CityVotingProblem {
    Crime,
    Pollution,
    HousingCosts,
    Taxes,
    Traffic,
    Unemployment,
    Fires,
    /// No problem.
    NoProblem,
}

/// The problem of the given number (0 for crime up to 6 for fires).
pub open spec fn problem_of_code(code: int) -> CityVotingProblem {
    if code == 0 {
        CityVotingProblem::Crime
    } else if code == 1 {
        CityVotingProblem::Pollution
    } else if code == 2 {
        CityVotingProblem::HousingCosts
    } else if code == 3 {
        CityVotingProblem::Taxes
    } else if code == 4 {
        CityVotingProblem::Traffic
    } else if code == 5 {
        CityVotingProblem::Unemployment
    } else if code == 6 {
        CityVotingProblem::Fires
    } else {
        CityVotingProblem::NoProblem
    }
}

impl CityVotingProblem {
    /// Number of the problem (0 for crime up to 6 for fires; 7 for no problem).
    pub open spec fn code(self) -> int {
        match self {
            CityVotingProblem::Crime => 0,
            CityVotingProblem::Pollution => 1,
            CityVotingProblem::HousingCosts => 2,
            CityVotingProblem::Taxes => 3,
            CityVotingProblem::Traffic => 4,
            CityVotingProblem::Unemployment => 5,
            CityVotingProblem::Fires => 6,
            CityVotingProblem::NoProblem => 7,
        }
    }

    pub fn from_u8(value: u8) -> (r: Option<CityVotingProblem>)
        ensures
            value <= 6 ==> r == Some(problem_of_code(value as int)),
            value > 6 ==> r is None,
    {
        match value {
            0 => Some(CityVotingProblem::Crime),
            1 => Some(CityVotingProblem::Pollution),
            2 => Some(CityVotingProblem::HousingCosts),
            3 => Some(CityVotingProblem::Taxes),
            4 => Some(CityVotingProblem::Traffic),
            5 => Some(CityVotingProblem::Unemployment),
            6 => Some(CityVotingProblem::Fires),
            _ => None,
        }
    }

    /// Number of a problem; there is none for no problem.
    pub fn to_u8(&self) -> (r: u8)
        requires
            *self != CityVotingProblem::NoProblem,
        ensures
            r == self.code(),
            problem_of_code(r as int) == *self,
    {
        match self {
            CityVotingProblem::Crime => 0,
            CityVotingProblem::Pollution => 1,
            CityVotingProblem::HousingCosts => 2,
            CityVotingProblem::Taxes => 3,
            CityVotingProblem::Traffic => 4,
            CityVotingProblem::Unemployment => 5,
            CityVotingProblem::Fires => 6,
            CityVotingProblem::NoProblem => 7,
        }
    }
}

/// The problems the citizens vote on, by number.
pub const CITY_VOTING_PROBLEMS: [CityVotingProblem; 7] = [
    CityVotingProblem::Crime,
    CityVotingProblem::Pollution,
    CityVotingProblem::HousingCosts,
    CityVotingProblem::Taxes,
    CityVotingProblem::Traffic,
    CityVotingProblem::Unemployment,
    CityVotingProblem::Fires,
];

/// City score.
#[derive(Clone, Copy, Debug, PartialEq, Eq, Structural)]
pub struct CityScore {
    /// Affected by average of problems, residential cap, commercial cap,
    /// industrial cap, road effect, police effect, fire effect,
    /// residential valve, commercial valve, industrial valve, city
    /// population, delta city population, fires, tax rate, and unpowered
    /// zones.
    pub current: u16,
    /// Change in city score.
    pub delta: u16,
}

/// City population for scoring.
#[derive(Clone, Copy, Debug, PartialEq, Eq, Structural)]
pub struct CityScoringPopulation {
    /// Depends on residential, commercial and industrial populations.
    pub current: u16,
    /// Change in city population.
    pub delta: u16,
}

/// Votes of 100 citizens on the mayor from the generator state: each draws
/// a number up to 1000 and approves when it is below the score (the draw
/// read as an unsigned 16-bit value when `unsigned`); the number of
/// approvals and the state reached.
pub open spec fn mayor_votes(state: u64, n: nat, score: int, unsigned: bool) -> (nat, u64)
    decreases n,
{
    if n == 0 {
        (0, state)
    } else {
        let (count, s) = mayor_votes(state, (n - 1) as nat, score, unsigned);
        let next = lcg_next(s);
        let draw = trunc_rem(draw_bits(next), 1001);
        let value = if unsigned && draw < 0 {
            draw + 0x10000
        } else {
            draw
        };
        (if value < score {
            count + 1
        } else {
            count
        }, next)
    }
}

/// The approval of a poll grows with the score, for the same draws: each
/// citizen approves when the draw (up to 1000) is below the score, so a
/// score of 0 or less gets no approval, a score above 1000 gets every
/// citizen's, and the draws do not depend on the score.
pub proof fn law_approval_grows_with_score(state: u64, n: nat, low: int, high: int, unsigned: bool)
    requires
        low <= high,
    ensures
        mayor_votes(state, n, low, unsigned).0 <= mayor_votes(state, n, high, unsigned).0,
        mayor_votes(state, n, low, unsigned).1 == mayor_votes(state, n, high, unsigned).1,
        mayor_votes(state, n, low, unsigned).0 <= n,
        low <= 0 ==> mayor_votes(state, n, low, unsigned).0 == 0,
        high > 1000 ==> mayor_votes(state, n, high, unsigned).0 == n,
    decreases n,
{
    if n > 0 {
        law_approval_grows_with_score(state, (n - 1) as nat, low, high, unsigned);
        let s = mayor_votes(state, (n - 1) as nat, low, unsigned).1;
        let next = lcg_next(s);
        crate::utils::random::lemma_draw_bits_range(next);
    }
}

/// Assessed value of the city's infrastructure.
pub open spec fn assessed_value_of(power: CityPower, statistics: SimulationStatistics) -> int {
    (statistics.road_total as int * 5 + statistics.rail_total as int * 10
        + statistics.police_station_count as int * 1000 + statistics.fire_station_count as int
        * 1000 + statistics.hospital_count as int * 400 + statistics.stadium_count as int * 3000
        + statistics.seaport_count as int * 5000 + statistics.airport_count as int * 10000
        + power.generators().0 as int * 3000 + power.generators().1 as int * 6000) * 1000
}

/// Evaluation of the city: score, problems and opinion of the citizens.
pub struct CityEvaluator {
    /// City score.
    score: CityScore,
    /// City scoring population.
    population: CityScoringPopulation,
    /// City assessed value.
    ///
    /// Depends on total number of roads, rails, police stations,
    /// fire stations, hospitals, stadiums, seaports, airports,
    /// coal and nuclear plants.
    assessed_value: u32,
    /// City class, affected by the city population.
    class: CityClass,
    /// Average traffic.
    ///
    /// Depends on average traffic density of tiles with non-zero land value.
    traffic_average: u16,
    /// Number of votes for each problem, by problem number (the problems
    /// with a number below the length have votes).
    problems_votes: Vec<u16>,
    /// Order of taken problems, in decreasing order of priority.
    problems_order: [CityVotingProblem; 4],
    /// Ratio of people who think the mayor is doing a good job.
    mayor_approval_rate: Percentage,
    /// Should the evaluation window be shown to the user?
    evaluation_updated: bool,
}

impl CityEvaluator {
    /// City score.
    pub closed spec fn score(&self) -> CityScore {
        self.score
    }

    /// City scoring population.
    pub closed spec fn scoring_population(&self) -> CityScoringPopulation {
        self.population
    }

    /// Assessed value.
    pub closed spec fn assessed_value(&self) -> u32 {
        self.assessed_value
    }

    /// City class.
    pub closed spec fn class(&self) -> CityClass {
        self.class
    }

    /// Average traffic.
    pub closed spec fn traffic_average(&self) -> u16 {
        self.traffic_average
    }

    /// Votes of each problem that has votes, by problem number.
    pub closed spec fn votes(&self) -> Seq<u16> {
        self.problems_votes@
    }

    /// Problems in decreasing order of priority.
    pub closed spec fn order(&self) -> Seq<CityVotingProblem> {
        self.problems_order@
    }

    /// Mayor approval ratio.
    pub closed spec fn approval(&self) -> Percentage {
        self.mayor_approval_rate
    }

    /// Should the evaluation be shown?
    pub closed spec fn updated(&self) -> bool {
        self.evaluation_updated
    }

    /// City score.
    pub fn get_score(&self) -> (r: CityScore)
        ensures
            r == self.score(),
    {
        self.score
    }

    /// An evaluator before any evaluation: score and population 0, village,
    /// no votes, no problem taken, no approval.
    pub fn new() -> (r: Self)
        ensures
            r.score() == (CityScore { current: 0, delta: 0 }),
            r.scoring_population() == (CityScoringPopulation { current: 0, delta: 0 }),
            r.assessed_value() == 0,
            r.class() == CityClass::Village,
            r.traffic_average() == 0,
            r.votes() == Seq::<u16>::empty(),
            r.order() == seq![CityVotingProblem::NoProblem; 4],
            r.approval().hundredths() == 0,
            !r.updated(),
    {
        let r = Self {
            score: CityScore { current: 0, delta: 0 },
            population: CityScoringPopulation { current: 0, delta: 0 },
            assessed_value: 0,
            class: CityClass::Village,
            traffic_average: 0,
            problems_votes: Vec::new(),
            problems_order: [CityVotingProblem::NoProblem; 4],
            mayor_approval_rate: Percentage::from_hundredths(0),
            evaluation_updated: false,
        };
        assert(r.order() =~= seq![CityVotingProblem::NoProblem; 4]);
        r
    }

    /// Initialize evaluation variables.
    fn init(&mut self)
        ensures
            final(self).score() == (CityScore { current: 500, delta: 0 }),
            final(self).scoring_population() == (CityScoringPopulation { current: 0, delta: 0 }),
            final(self).assessed_value() == 0,
            final(self).class() == CityClass::Village,
            final(self).traffic_average() == old(self).traffic_average(),
            final(self).votes() == seq![0u16; 7],
            final(self).order() == seq![CityVotingProblem::NoProblem; 4],
            final(self).approval().hundredths() == 0,
            final(self).updated() == old(self).updated(),
    {
        self.score = CityScore { current: 500, delta: 0 };
        self.population = CityScoringPopulation { current: 0, delta: 0 };
        self.assessed_value = 0;
        self.class = CityClass::Village;
        let mut problems_votes: Vec<u16> = Vec::new();
        let mut i: usize = 0;
        while i < 7
            invariant
                i <= 7,
                problems_votes@ == Seq::new(i as nat, |k: int| 0u16),
            decreases 7 - i,
        {
            problems_votes.push(0);
            i = i + 1;
        }
        self.problems_votes = problems_votes;
        self.problems_order = [CityVotingProblem::NoProblem; 4];
        self.mayor_approval_rate = Percentage::from_hundredths(0);
        assert(self.votes() =~= seq![0u16; 7]);
        assert(self.order() =~= seq![CityVotingProblem::NoProblem; 4]);
    }

    /// Evaluate the city.
    ///
    /// For a city without population: the evaluation starts over, with a
    /// mayor approval of 50%, and is to be shown. (Evaluating a populated
    /// city reads a vote count that its tables do not hold.)
    pub fn perform_evaluation(
        &mut self,
        rng: &mut MicropolisRandom,
        land_value_map: &WorldMap<u8>,
        parameters: &SimulationParameters,
        population: &mut CityPopulation,
        statistics: &SimulationStatistics,
        taxes: &SimulationTaxes,
        power: &CityPower,
        traffic: &CityTraffic,
    )
        requires
            old(population).total() <= 0,
        ensures
            final(self).score() == (CityScore { current: 500, delta: 0 }),
            final(self).scoring_population() == (CityScoringPopulation { current: 0, delta: 0 }),
            final(self).assessed_value() == 0,
            final(self).class() == CityClass::Village,
            final(self).traffic_average() == old(self).traffic_average(),
            final(self).votes() == seq![0u16; 7],
            final(self).order() == seq![CityVotingProblem::NoProblem; 4],
            final(self).approval().hundredths() == 50,
            final(self).updated(),
            *final(rng) == *old(rng),
            *final(population) == *old(population),
    {
        self.init();
        self.mayor_approval_rate = Percentage::from_hundredths(50);
        self.change_evaluation();
    }

    fn change_evaluation(&mut self)
        ensures
            final(self).updated(),
            final(self).score() == old(self).score(),
            final(self).scoring_population() == old(self).scoring_population(),
            final(self).assessed_value() == old(self).assessed_value(),
            final(self).class() == old(self).class(),
            final(self).traffic_average() == old(self).traffic_average(),
            final(self).votes() == old(self).votes(),
            final(self).order() == old(self).order(),
            final(self).approval() == old(self).approval(),
    {
        self.evaluation_updated = true;
    }

    /// Assessed value of the city.
    pub fn compute_accessed_value(power: &CityPower, statistics: &SimulationStatistics) -> (r: u32)
        requires
            assessed_value_of(*power, *statistics) <= u32::MAX,
        ensures
            r == assessed_value_of(*power, *statistics),
    {
        let (coal, nuclear) = power.get_generator_counts();
        let mut z: u64 = statistics.road_total as u64 * 5;
        z = z + (statistics.rail_total as u64) * 10;
        z = z + (statistics.police_station_count as u64) * 1000;
        z = z + (statistics.fire_station_count as u64) * 1000;
        z = z + (statistics.hospital_count as u64) * 400;
        z = z + (statistics.stadium_count as u64) * 3000;
        z = z + (statistics.seaport_count as u64) * 5000;
        z = z + (statistics.airport_count as u64) * 10000;
        assert(z <= 0xFFFF * 30000);
        assert(coal as int * 3000 * 1000 <= u32::MAX);
        assert(nuclear as int * 6000 * 1000 <= u32::MAX);
        z = z + (coal as u64) * 3000;
        z = z + (nuclear as u64) * 6000;
        (z * 1000) as u32
    }

    /// Survey of 100 citizens on the mayor: the approval is the ratio of
    /// those who draw a number up to 1000 below the score.
    pub fn survey_mayor_approval(&mut self, rng: &mut MicropolisRandom, score: CityScore)
        ensures
            ({
                let (count, state) = mayor_votes(old(rng).state(), 100, score.current as int, false);
                &&& final(self).approval().hundredths() == count
                &&& final(rng).state() == state
            }),
            final(rng).creation_seed() == old(rng).creation_seed(),
            final(self).score() == old(self).score(),
            final(self).scoring_population() == old(self).scoring_population(),
            final(self).assessed_value() == old(self).assessed_value(),
            final(self).class() == old(self).class(),
            final(self).traffic_average() == old(self).traffic_average(),
            final(self).votes() == old(self).votes(),
            final(self).order() == old(self).order(),
            final(self).updated() == old(self).updated(),
    {
        let city_score = score.current as i32;
        let mut count: u8 = 0;
        let mut i: u8 = 0;
        while i < 100
            invariant
                i <= 100,
                count <= i,
                city_score == score.current,
                (count as nat, rng.state()) == mayor_votes(old(rng).state(), i as nat, score.current as int, false),
                rng.creation_seed() == old(rng).creation_seed(),
            decreases 100 - i,
        {
            let draw = rng.get_random(1000);
            if (draw as i32) < city_score {
                count = count + 1;
            }
            i = i + 1;
        }
        self.mayor_approval_rate = Percentage::from_hundredths(count as u32);
    }

    /// Vote on how well the mayor is doing: each of the 100 approvals adds
    /// 1% to the approval.
    fn vote_on_mayor(&mut self, rng: &mut MicropolisRandom)
        ensures
            ({
                let (count, state) = mayor_votes(old(rng).state(), 100, old(self).score().current as int, true);
                &&& final(self).approval().hundredths() == count
                &&& final(rng).state() == state
            }),
            final(rng).creation_seed() == old(rng).creation_seed(),
            final(self).score() == old(self).score(),
            final(self).votes() == old(self).votes(),
            final(self).order() == old(self).order(),
            final(self).updated() == old(self).updated(),
    {
        self.mayor_approval_rate = Percentage::from_hundredths(0);
        let mut i: u8 = 0;
        let mut count: u8 = 0;
        while i < 100
            invariant
                i <= 100,
                count <= i,
                self.mayor_approval_rate.hundredths() == count,
                (count as nat, rng.state()) == mayor_votes(old(rng).state(), i as nat, self.score.current as int, true),
                rng.creation_seed() == old(rng).creation_seed(),
                self.score == old(self).score,
                self.problems_votes == old(self).problems_votes,
                self.problems_order == old(self).problems_order,
                self.evaluation_updated == old(self).evaluation_updated,
            decreases 100 - i,
        {
            let draw = rng.get_random(1000);
            // the draw read as an unsigned 16-bit value
            let value: i32 = if draw < 0 {
                draw as i32 + 0x10000
            } else {
                draw as i32
            };
            if value < self.score.current as i32 {
                self.mayor_approval_rate.increment();
                count = count + 1;
            }
            i = i + 1;
        }
    }

    /// The problem of the given priority, among the `COMPLAINTS_COUNT` worst.
    fn get_problem_from_priority(&self, priority_index: u8) -> (r: Option<&CityVotingProblem>)
        ensures
            priority_index < COMPLAINTS_COUNT ==> r == Some(&self.order()[priority_index as int]),
            priority_index >= COMPLAINTS_COUNT ==> r is None,
    {
        if priority_index < COMPLAINTS_COUNT {
            Some(&self.problems_order[priority_index as usize])
        } else {
            None
        }
    }

    /// Get the number of votes to solve the worst (by priority index)
    /// problem: the votes for the problem of that priority, if there is one
    /// (a slot without a problem has no votes).
    pub fn get_problem_votes(&self, priority_index: u8) -> (r: Option<u16>)
        ensures
            r == if priority_index < COMPLAINTS_COUNT && self.order()[priority_index as int]
                != CityVotingProblem::NoProblem && self.order()[priority_index as int].code()
                < self.votes().len() {
                Some(self.votes()[self.order()[priority_index as int].code()])
            } else {
                None::<u16>
            },
    {
        match self.get_problem_from_priority(priority_index) {
            Some(CityVotingProblem::NoProblem) => None,
            Some(problem) => {
                let code = problem.to_u8() as usize;
                if code < self.problems_votes.len() {
                    Some(self.problems_votes[code])
                } else {
                    None
                }
            },
            None => None,
        }
    }

    /// Severity of fire in the city: five points per fire station, at most 255.
    pub fn get_fire_severity(statistics: &SimulationStatistics) -> (r: u16)
        requires
            statistics.fire_station_count * 5 <= u16::MAX,
        ensures
            r == if statistics.fire_station_count * 5 < 255 {
                statistics.fire_station_count * 5
            } else {
                255
            },
    {
        let severity = statistics.fire_station_count * 5;
        if severity < 255 {
            severity
        } else {
            255
        }
    }
}

} // verus!
