use micropolis_core::map::tiles::{
    Tile, TILE_ANIM_BIT, TILE_BLBNBIT_MASK, TILE_BULL_BIT, TILE_BURN_BIT, TILE_CONDUCT_BIT,
    TILE_POWER_BIT, TILE_STATUS_MASK, TILE_TYPE_MASK, TILE_ZONE_BIT,
};
use micropolis_core::map::tiles_type::TileType;

#[test]
fn test_tile_masks() {
    assert_eq!(TILE_POWER_BIT, 0x8000);
    assert_eq!(TILE_CONDUCT_BIT, 0x4000);
    assert_eq!(TILE_BURN_BIT, 0x2000);
    assert_eq!(TILE_BULL_BIT, 0x1000);
    assert_eq!(TILE_ANIM_BIT, 0x800);
    assert_eq!(TILE_ZONE_BIT, 0x400);
    assert_eq!(TILE_BLBNBIT_MASK, 0x3000);
    assert_eq!(TILE_STATUS_MASK, 0xFC00);
    assert_eq!(TILE_TYPE_MASK, 0x03FF);
}

#[test]
fn tile_raw_keeps_flags_and_type() {
    let raw = TileType::Dirt.to_u16().unwrap() | TILE_BURN_BIT | TILE_BULL_BIT;
    let tile = Tile::from_raw(raw).unwrap();
    assert_eq!(tile.get_raw(), raw);
    assert_eq!(tile.get_type_raw(), TileType::Dirt.to_u16().unwrap());
    assert!(tile.is_dirt());
    assert!(!tile.is_tree());
}

#[test]
fn tile_type_codes_round_trip() {
    for value in 0u16..1024 {
        if let Some(tile_type) = TileType::from_u16(value) {
            assert_eq!(tile_type.to_u16(), Some(value));
        }
    }
    assert_eq!(TileType::from_u16(2000), None);
}

#[test]
fn tile_set_type_keeps_flags() {
    let mut tile = Tile::from_raw(TileType::Dirt.to_u16().unwrap() | TILE_CONDUCT_BIT).unwrap();
    tile.set_type(TileType::River).unwrap();
    assert_eq!(tile.get_raw() & TILE_STATUS_MASK, TILE_CONDUCT_BIT);
    assert_eq!(tile.get_type(), &Some(TileType::River));
}
