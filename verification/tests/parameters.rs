use micropolis_core::city::simulation::parameters::SimulationParameters;
use micropolis_core::utils::Percentage;

fn value(p: Percentage) -> f64 {
    p.percent() as f64 / 100f64
}

#[test]
fn test_default_parameters() {
    let parameters = SimulationParameters::default();
    assert_eq!(parameters.get_residential_population_denominator(), 8);
    assert_eq!(value(parameters.get_birth_rate()), 0.02);
    assert_eq!(value(parameters.get_max_labor_base()), 1.3);
    assert_eq!(value(parameters.get_min_projected_industrial_population()), 5.0);
    assert_eq!(value(parameters.get_default_residential_ratio()), 1.3);
    assert_eq!(value(parameters.get_max_residential_ratio()), 2.0);
    assert_eq!(value(parameters.get_max_commercial_ratio()), 2.0);
    assert_eq!(value(parameters.get_max_industrial_ratio()), 2.0);
    assert_eq!(value(parameters.get_max_tax_rate()), 20.0);
    assert_eq!(value(parameters.get_tax_table_scale()), 600.0);
}

#[test]
fn test_effect_parameters() {
    let parameters = SimulationParameters::default();
    assert_eq!(parameters.get_road_effect(), 32);
    assert_eq!(parameters.get_fire_effect(), 1000);
    assert_eq!(parameters.get_police_effect(), 1000);
}
