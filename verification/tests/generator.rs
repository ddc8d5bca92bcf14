use micropolis_core::map::generator::{GeneratorCreateIsland, MapGenerator};
use micropolis_core::map::tiles_type::TileType;
use micropolis_core::map::MapRectangle;
use micropolis_core::utils::random::MicropolisRandom;

#[test]
fn test_temp_print() {
    let mut rng = MicropolisRandom::from_seed(2024);
    let generator = MapGenerator::with_options(GeneratorCreateIsland::Never);
    let generated = generator
        .random_map_terrain(&mut rng, 12345, &MapRectangle::new(120, 100))
        .unwrap();
    let tiles = generated.generated_terrain.tiles();
    println!("TEMP: generating map for console print...");
    let mut repr = String::new();
    for row in tiles.iter() {
        repr.push('/');
        for tile in row.iter() {
            repr.push(match tile.get_type() {
                Some(TileType::River) => '~',
                Some(TileType::RiverEdge) => '&',
                Some(TileType::Channel) => '#',
                Some(TileType::Dirt) => '.',
                _ => 'T',
            });
        }
        repr.push_str("/\n");
    }
    println!("{}", repr);
}

#[test]
fn generated_terrain_has_requested_dimensions() {
    let mut rng = MicropolisRandom::from_seed(7);
    let generator = MapGenerator::with_options(GeneratorCreateIsland::Always);
    let generated = generator
        .random_map_terrain(&mut rng, 99, &MapRectangle::new(60, 50))
        .unwrap();
    assert_eq!(generated.get_seed(), 99);
    let tiles = generated.generated_terrain.tiles();
    assert_eq!(tiles.len(), 60);
    for column in tiles.iter() {
        assert_eq!(column.len(), 50);
    }
}

#[test]
fn generation_is_deterministic_for_a_seed() {
    let generator = MapGenerator::with_options(GeneratorCreateIsland::Never);
    let mut rng_a = MicropolisRandom::from_seed(1);
    let mut rng_b = MicropolisRandom::from_seed(1);
    let a = generator.random_map_terrain(&mut rng_a, 5, &MapRectangle::new(40, 30)).unwrap();
    let b = generator.random_map_terrain(&mut rng_b, 5, &MapRectangle::new(40, 30)).unwrap();
    let raw = |g: &micropolis_core::map::generator::GeneratedTileMap| -> Vec<Vec<u16>> {
        g.generated_terrain
            .tiles()
            .iter()
            .map(|c| c.iter().map(|t| t.get_raw()).collect())
            .collect()
    };
    assert_eq!(raw(&a), raw(&b));
}
