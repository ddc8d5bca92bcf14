use micropolis_core::city::budget::CityBudget;
use micropolis_core::city::generator::{CityGeneratorBuilder, CityMapGeneratorOptions};
use micropolis_core::city::meta::CityMetadata;
use micropolis_core::city::power::CityPower;
use micropolis_core::city::simulation::zones::count_free_population;
use micropolis_core::city::traffic::CityTraffic;
use micropolis_core::map::buildings::BuildingType;
use micropolis_core::map::generator::GeneratorCreateIsland;
use micropolis_core::map::tiles::{TILE_CONDUCT_BIT, TILE_STATUS_MASK};
use micropolis_core::map::tools::utils::check_big_zone;
use micropolis_core::map::tools::{EditingTool, ToolEffects};
use micropolis_core::map::{
    MapClusteringStrategy, MapPosition, MapPositionOffset, MapRectangle, Tile, TileMap, TileType,
};
use micropolis_core::messages::parse_messages_resource;
use micropolis_core::utils::random::MicropolisRandom;

fn dirt_grid(width: usize, height: usize) -> TileMap {
    let dirt = Tile::from_type(TileType::Dirt).unwrap();
    TileMap::with_data(vec![vec![dirt; height]; width], MapClusteringStrategy::BlockSize1)
}

#[test]
fn free_population_counts_the_whole_zone() {
    let mut map = dirt_grid(3, 3);
    map.set_tile_at(&MapPosition::new(2, 2), Tile::from_type(TileType::House).unwrap());
    assert_eq!(count_free_population(&map, &MapPosition::new(1, 1)), 1);
    map.set_tile_at(&MapPosition::new(0, 2), Tile::from_type(TileType::House).unwrap());
    assert_eq!(count_free_population(&map, &MapPosition::new(1, 1)), 2);
}

#[test]
fn offset_within_bounds_excludes_the_row_below() {
    let bounds = MapRectangle::new(10, 10);
    assert_eq!(
        MapPositionOffset::South.apply_with_bounds(&MapPosition::new(3, 9), &bounds),
        None
    );
    assert_eq!(
        MapPositionOffset::South.apply_with_bounds(&MapPosition::new(3, 8), &bounds),
        Some(MapPosition::new(3, 9))
    );
}

#[test]
fn conduct_bit_makes_a_tile_conductive() {
    assert!(Tile::from_raw(210 | TILE_CONDUCT_BIT).unwrap().is_conductive());
    assert!(!Tile::from_raw(210).unwrap().is_conductive());
}

#[test]
fn setting_the_type_masks_the_old_raw_value() {
    let mut tile = Tile::from_raw(0x3000 | 39).unwrap();
    tile.set_type_raw(2);
    assert_eq!(tile.get_raw() & TILE_STATUS_MASK, 0);
    assert_eq!(tile.get_raw(), 39 & 2);
    assert_eq!(tile.get_type(), &Some(TileType::River));
}

#[test]
fn contained_site_has_one_side_inside() {
    let map = MapRectangle::new(10, 10);
    assert!(map.is_contained(&MapPosition::new(8, 0), &MapRectangle::new(3, 3)));
    assert!(map.is_contained(&MapPosition::new(7, 7), &MapRectangle::new(3, 3)));
    assert!(map.is_contained(&MapPosition::new(-1, 2), &MapRectangle::new(3, 3)));
    assert!(!map.is_contained(&MapPosition::new(-1, -1), &MapRectangle::new(12, 12)));
}

#[test]
fn big_zone_of_an_unnamed_airport_tile() {
    let tile = Tile::from_raw(737).unwrap();
    assert_eq!(check_big_zone(&tile), Some((MapPosition::new(-3, -3), 6)));
}

#[test]
fn buildings_are_made_by_their_own_tool() {
    assert_eq!(BuildingType::Industrial.info().unwrap().tool, EditingTool::Industrial);
    assert_eq!(BuildingType::PoliceStation.info().unwrap().tool, EditingTool::PoliceStation);
    assert_eq!(BuildingType::Airport.info().unwrap().size, MapRectangle::new(6, 6));
}

#[test]
fn every_tool_costs_100_and_covers_three_tiles() {
    assert_eq!(EditingTool::Stadium.cost(), 100);
    assert_eq!(EditingTool::Bulldozer.cost(), 100);
    assert_eq!(EditingTool::Road.size(), 3);
}

#[test]
fn modifications_applied_when_funds_suffice() {
    let mut map = dirt_grid(4, 4);
    let river = Tile::from_type(TileType::River).unwrap();
    let mut effects = ToolEffects::new(false)
        .add_cost(100)
        .add_modification(&MapPosition::new(1, 1), river);
    let (applied, cost) = effects.clone().modify_world_if_enough_money(&mut map, 99);
    assert!(!applied);
    assert_eq!(cost, None);
    assert_eq!(map.get_tile_at(&MapPosition::new(1, 1)).unwrap().get_raw(), 0);
    let (applied, cost) = effects.modify_world_if_enough_money(&mut map, 100);
    assert!(applied);
    assert_eq!(cost, Some(100));
    assert_eq!(map.get_tile_at(&MapPosition::new(1, 1)).unwrap().get_raw(), 2);
}

#[test]
fn random_draws_stay_in_their_range() {
    let mut rng = MicropolisRandom::from_seed(42);
    for _ in 0..2000 {
        let r = rng.get_random(9);
        assert!((0..=9).contains(&r));
    }
}

#[test]
fn tile_map_covers_exactly_its_dimensions() {
    let map = TileMap::tilemap_with_dimensions(&MapRectangle::new(12, 10), TileType::Dirt).unwrap();
    assert!(map.in_bounds(&MapPosition::new(11, 9)));
    assert!(!map.in_bounds(&MapPosition::new(12, 0)));
    assert!(map.get_tile_at(&MapPosition::new(12, 0)).is_none());
}

#[test]
fn perimeter_road_is_read_around_the_zone() {
    let mut map = dirt_grid(5, 5);
    assert_eq!(
        CityTraffic::find_perimeter_road(&map, &MapPosition::new(2, 2)).unwrap(),
        (false, MapPosition::new(2, 2))
    );
    map.set_tile_at(&MapPosition::new(4, 3), Tile::from_raw(66).unwrap());
    assert_eq!(
        CityTraffic::find_perimeter_road(&map, &MapPosition::new(2, 2)).unwrap(),
        (true, MapPosition::new(4, 3))
    );
}

#[test]
fn metadata_errors_name_the_tag() {
    let duplicate = "<metaCity><title>a</title><title>b</title></metaCity>";
    assert_eq!(
        CityMetadata::decode_from_xml(duplicate),
        Err("duplicate property tag 'title'".to_string())
    );
    let unknown = "<metaCity><owner>a</owner></metaCity>";
    assert_eq!(
        CityMetadata::decode_from_xml(unknown),
        Err("unknown property tag 'owner'".to_string())
    );
    let missing = "<metaCity><title>a</title></metaCity>";
    assert_eq!(
        CityMetadata::decode_from_xml(missing),
        Err("missing 3 propertie(s): description, saveFileName, readOnly".to_string())
    );
}

#[test]
fn messages_count_error_gives_both_counts() {
    let lines = vec!["first".to_string(), "x".to_string(), "  ".to_string()];
    assert_eq!(
        parse_messages_resource(2, lines),
        Err("expected 2 message items, found 1".to_string())
    );
}

#[test]
fn power_scan_powers_the_connected_wires() {
    let mut map = dirt_grid(5, 3);
    let wire = Tile::from_raw(210 | TILE_CONDUCT_BIT).unwrap();
    for x in 1..4 {
        map.set_tile_at(&MapPosition::new(x, 1), wire);
    }
    let mut power = CityPower::from_map(&map);
    power.add_coal_generator();
    power.push_power_stack(MapPosition::new(0, 1));
    assert!(power.test_for_conductive(&map, &MapPosition::new(0, 1), &MapPositionOffset::East));
    power.do_power_scan(&map);
    assert!(!power.test_for_conductive(&map, &MapPosition::new(0, 1), &MapPositionOffset::East));
    assert!(!power.test_for_conductive(&map, &MapPosition::new(2, 1), &MapPositionOffset::East));
    assert!(!power.test_for_conductive(&map, &MapPosition::new(1, 0), &MapPositionOffset::South));
}

#[test]
fn power_scan_without_plants_powers_nothing() {
    let mut map = dirt_grid(5, 3);
    let wire = Tile::from_raw(210 | TILE_CONDUCT_BIT).unwrap();
    map.set_tile_at(&MapPosition::new(1, 1), wire);
    let mut power = CityPower::from_map(&map);
    power.push_power_stack(MapPosition::new(0, 1));
    power.do_power_scan(&map);
    assert!(power.test_for_conductive(&map, &MapPosition::new(0, 1), &MapPositionOffset::East));
}

#[test]
fn city_generator_needs_map_options() {
    assert!(CityGeneratorBuilder::new().with_simulation_rng_seed(3).build().is_err());
    let generator = CityGeneratorBuilder::new()
        .with_city_map_generator_options(CityMapGeneratorOptions {
            dimensions: MapRectangle::new(90, 80),
            create_island: GeneratorCreateIsland::Never,
        })
        .build()
        .unwrap();
    let a = generator.build_random_map(17).unwrap();
    let b = generator.build_random_map(17).unwrap();
    assert_eq!(a.tiles().len(), 90);
    assert_eq!(a.tiles()[0].len(), 80);
    let raw = |m: &TileMap| -> Vec<Vec<u16>> {
        m.tiles().iter().map(|c| c.iter().map(|t| t.get_raw()).collect()).collect()
    };
    assert_eq!(raw(&a), raw(&b));
}

fn line_state(line: &micropolis_core::city::budget::BudgetLine) -> (u32, u32) {
    (line.get_value(), line.get_percentage().percent())
}

#[test]
fn budget_funds_every_line_when_funds_suffice() {
    let mut budget = CityBudget::new();
    assert_eq!(line_state(budget.get_roads()), (0, 100));
    budget.update_budget_lines(10, 20, 30, 50, 11);
    assert_eq!(line_state(budget.get_roads()), (10, 100));
    assert_eq!(line_state(budget.get_fire_department()), (20, 100));
    assert_eq!(line_state(budget.get_police_department()), (30, 100));
}

#[test]
fn budget_funds_roads_then_fire_then_police() {
    let mut budget = CityBudget::new();
    budget.update_budget_lines(50, 40, 30, 60, 10);
    assert_eq!(line_state(budget.get_roads()), (50, 100));
    assert_eq!(line_state(budget.get_fire_department()), (20, 1));
    assert_eq!(line_state(budget.get_police_department()), (0, 0));
    let mut budget = CityBudget::new();
    budget.update_budget_lines(10, 20, 30, 40, 0);
    assert_eq!(line_state(budget.get_roads()), (10, 100));
    assert_eq!(line_state(budget.get_fire_department()), (20, 100));
    assert_eq!(line_state(budget.get_police_department()), (10, 1));
    let mut budget = CityBudget::new();
    budget.update_budget_lines(10, 20, 30, 30, 0);
    assert_eq!(line_state(budget.get_fire_department()), (20, 1));
    assert_eq!(line_state(budget.get_police_department()), (0, 0));
}

#[test]
fn texts_are_decoded_inside_properties_only() {
    assert_eq!(
        CityMetadata::decode_from_xml("<metaCity>&bad;<title>a</title></metaCity>"),
        Err("not inside any known property tag".to_string())
    );
    let inside = CityMetadata::decode_from_xml("<metaCity><title>&bad;</title></metaCity>");
    assert!(inside.unwrap_err().starts_with("decoding error"));
}

#[test]
fn counts_are_written_in_decimal() {
    let lines = vec!["first".to_string()];
    assert_eq!(
        parse_messages_resource(120, lines),
        Err("expected 120 message items, found 1".to_string())
    );
}
