use micropolis_core::city::evaluate::{CityEvaluator, CityVotingProblem};
use micropolis_core::city::population::CityPopulation;
use micropolis_core::city::power::CityPower;
use micropolis_core::city::simulation::parameters::SimulationParameters;
use micropolis_core::city::simulation::statistics::SimulationStatistics;
use micropolis_core::city::simulation::taxes::SimulationTaxes;
use micropolis_core::city::traffic::CityTraffic;
use micropolis_core::map::{MapClusteringStrategy, MapRectangle, TileMap, TileType, WorldMap};
use micropolis_core::utils::random::MicropolisRandom;

#[test]
fn voting_problems_round_trip() {
    for value in 0u8..7 {
        let problem = CityVotingProblem::from_u8(value).unwrap();
        assert_eq!(problem.to_u8(), value);
    }
    assert_eq!(CityVotingProblem::from_u8(3), Some(CityVotingProblem::Taxes));
    assert_eq!(CityVotingProblem::from_u8(7), None);
    assert_eq!(CityVotingProblem::from_u8(200), None);
}

#[test]
fn assessed_value_counts_infrastructure() {
    let map = TileMap::tilemap_with_dimensions(&MapRectangle::new(20, 20), TileType::Dirt).unwrap();
    let mut power = CityPower::from_map(&map);
    power.add_coal_generator();
    let mut statistics = SimulationStatistics::default();
    statistics.road_total = 10;
    statistics.rail_total = 2;
    statistics.police_station_count = 1;
    statistics.airport_count = 1;
    // (10 * 5 + 2 * 10 + 1000 + 10000 + 3000) * 1000
    assert_eq!(CityEvaluator::compute_accessed_value(&power, &statistics), 14_070_000);
}

#[test]
fn evaluation_without_population_starts_over() {
    let map = TileMap::tilemap_with_dimensions(&MapRectangle::new(20, 20), TileType::Dirt).unwrap();
    let mut population = CityPopulation::from_map(&map);
    let power = CityPower::from_map(&map);
    let traffic = CityTraffic::from_map(&map);
    let land_value = WorldMap::filled(10, 10, 0u8, MapClusteringStrategy::BlockSize2);
    let mut rng = MicropolisRandom::from_seed(3);
    let mut evaluator = CityEvaluator::new();
    assert_eq!(evaluator.get_problem_votes(0), None);
    evaluator.perform_evaluation(
        &mut rng,
        &land_value,
        &SimulationParameters::default(),
        &mut population,
        &SimulationStatistics::default(),
        &SimulationTaxes::default(),
        &power,
        &traffic,
    );
    assert_eq!(evaluator.get_problem_votes(5), None);
}
