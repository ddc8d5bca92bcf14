use micropolis_core::map::generator::trees::make_forests;
use micropolis_core::map::generator::water::make_lakes;
use micropolis_core::map::tiles::Tile;
use micropolis_core::map::tiles_type::TileType;
use micropolis_core::map::{MapClusteringStrategy, TileMap};
use micropolis_core::utils::random::MicropolisRandom;

fn dirt_map(width: usize, height: usize) -> TileMap {
    let dirt = Tile::from_raw(0).unwrap();
    TileMap::filled(width, height, dirt, MapClusteringStrategy::BlockSize1)
}

fn raw_values(map: &TileMap) -> Vec<Vec<u16>> {
    map.tiles().iter().map(|c| c.iter().map(|t| t.get_raw()).collect()).collect()
}

#[test]
fn forests_turn_dirt_into_burnable_trees_only() {
    let mut rng = MicropolisRandom::from_seed(31);
    let mut map = dirt_map(40, 30);
    assert!(make_forests(&mut rng, 100, &mut map).is_ok());
    let tiles = map.tiles();
    assert_eq!(tiles.len(), 40);
    let mut trees = 0;
    for column in tiles.iter() {
        assert_eq!(column.len(), 30);
        for tile in column.iter() {
            if tile.get_raw() != 0 {
                assert!(tile.is_tree());
                assert_eq!(tile.get_raw() & 0x3000, 0x3000);
                trees += 1;
            } else {
                assert_eq!(tile.get_type(), &Some(TileType::Dirt));
            }
        }
    }
    assert!(trees > 0);
}

#[test]
fn forests_are_deterministic_for_a_seed() {
    let mut rng_a = MicropolisRandom::from_seed(8);
    let mut rng_b = MicropolisRandom::from_seed(8);
    let mut a = dirt_map(30, 30);
    let mut b = dirt_map(30, 30);
    make_forests(&mut rng_a, -1, &mut a).unwrap();
    make_forests(&mut rng_b, -1, &mut b).unwrap();
    assert_eq!(raw_values(&a), raw_values(&b));
}

#[test]
fn lakes_put_water_on_the_map() {
    let mut rng = MicropolisRandom::from_seed(12);
    let mut map = dirt_map(60, 50);
    make_lakes(&mut rng, 6, &mut map);
    let water = map
        .tiles()
        .iter()
        .flat_map(|c| c.iter())
        .filter(|t| t.get_type() == &Some(TileType::River))
        .count();
    assert!(water > 0);
}

#[test]
fn no_lakes_leave_the_map_unchanged() {
    let mut rng = MicropolisRandom::from_seed(12);
    let mut map = dirt_map(60, 50);
    make_lakes(&mut rng, 0, &mut map);
    assert_eq!(raw_values(&map), raw_values(&dirt_map(60, 50)));
}
