use vstd::prelude::*;
use crate::utils::bits::lemma_i16_low_bits;

use crate::city::sprite::{first_active, lemma_first_active, pixel_fits, ActiveSpritesList, Sprite, SpriteType};
use crate::map::{MapPosition, TileMap, TileType};
use crate::map::tiles::TILE_BULL_BIT;
use crate::utils::random::{draw_bits, lcg_next, random16_at, trunc_rem, MicropolisRandom};

verus! {

pub const TRAIN_GROOVE_X: i32 = -39;
pub const TRAIN_GROOVE_Y: i32 = 6;
pub const BUS_GROOVE_X: i32 = -39;
pub const BUS_GROOVE_Y: i32 = 6;

/// Tile coordinates small enough for their pixel coordinates (times 16, plus
/// a small offset) to fit a sprite.
pub open spec fn tile_fits(p: MapPosition) -> bool {
    -0x00F0_0000 <= p.x <= 0x00F0_0000 && -0x00F0_0000 <= p.y <= 0x00F0_0000
}

/// Pixel position of a tile, moved by the offset.
pub open spec fn pixel_of(p: MapPosition, dx: int, dy: int) -> MapPosition {
    MapPosition { x: (16 * p.x + dx) as i32, y: (16 * p.y + dy) as i32 }
}

/// The sprites after `make_sprite`: the first active sprite of the type set
/// up again, or else a new sprite of the type (unnamed, at the position
/// unless it is an airplane) added at the end.
pub open spec fn sprite_made(
    before: Seq<Sprite>,
    after: Seq<Sprite>,
    kind: SpriteType,
    position: MapPosition,
) -> bool {
    match first_active(before, kind) {
        Some(i) => {
            &&& after == before.update(i, after[i])
            &&& after[i].kind == kind
            &&& after[i].name == before[i].name
            &&& after[i].frame != 0
        },
        None => {
            &&& after.len() == before.len() + 1
            &&& after.drop_last() == before
            &&& after.last().kind == kind
            &&& after.last().name@ == Seq::<char>::empty()
            &&& after.last().frame != 0
            &&& after.last().control == -1
            &&& (kind != SpriteType::Airplane ==> after.last().position == position)
        },
    }
}

/// Can the active sprite of the type, if any, be set up again?
pub open spec fn active_sprite_fits(sprites: Seq<Sprite>, kind: SpriteType) -> bool {
    first_active(sprites, kind) matches Some(i) ==> pixel_fits(sprites[i].position)
}

/// Make a sprite either by re-using the old one, or by making a new one.
///
/// Only a monster heads to `max_pollution_at` (in tiles).
pub fn make_sprite(
    rng: &mut MicropolisRandom,
    sprites: &mut ActiveSpritesList,
    kind: &SpriteType,
    position: &MapPosition,
    max_pollution_at: &MapPosition,
) -> (r: Result<(), String>)
    requires
        pixel_fits(*position),
        active_sprite_fits(old(sprites).sprites(), *kind),
    ensures
        r is Ok,
        sprite_made(old(sprites).sprites(), final(sprites).sprites(), *kind, *position),
        final(sprites).cycle() == old(sprites).cycle(),
        final(rng).creation_seed() == old(rng).creation_seed(),
        *kind != SpriteType::Helicopter ==> final(rng).state() == old(rng).state(),
{
    proof {
        lemma_first_active(sprites.sprites(), *kind);
    }
    if !sprites.reinit_active(rng, kind, max_pollution_at) {
        let sprite = Sprite::new(rng, String::new(), *kind, *position, max_pollution_at);
        let ghost before = sprites.sprites();
        sprites.add_sprite(sprite);
        proof {
            assert(sprites.sprites().drop_last() =~= before);
        }
    }
    Ok(())
}

/// Origin tile used where a sprite heads to no pollution maximum.
fn no_pollution_target() -> (r: MapPosition)
    ensures
        r == (MapPosition { x: 0, y: 0 }),
{
    MapPosition::new(0, 0)
}

/// Try to start a new train sprite at the given map tile: with more than 20
/// inhabitants, no train yet and one chance in 26.
pub fn generate_train(
    rng: &mut MicropolisRandom,
    sprites: &mut ActiveSpritesList,
    position: &MapPosition,
    total_population: u32,
) -> (r: Result<(), String>)
    requires
        tile_fits(*position),
    ensures
        r is Ok,
        final(sprites).cycle() == old(sprites).cycle(),
        final(rng).creation_seed() == old(rng).creation_seed(),
        total_population <= 20 || first_active(old(sprites).sprites(), SpriteType::Train) is Some
            ==> *final(sprites) == *old(sprites) && *final(rng) == *old(rng),
        !(total_population <= 20 || first_active(old(sprites).sprites(), SpriteType::Train)
            is Some) ==> {
            let next = lcg_next(old(rng).state());
            &&& final(rng).state() == next
            &&& trunc_rem(draw_bits(next), 26) != 0 ==> *final(sprites) == *old(sprites)
            &&& trunc_rem(draw_bits(next), 26) == 0 ==> sprite_made(
                old(sprites).sprites(),
                final(sprites).sprites(),
                SpriteType::Train,
                pixel_of(*position, TRAIN_GROOVE_X as int, TRAIN_GROOVE_Y as int),
            )
        },
{
    if total_population <= 20 || sprites.get_sprite(&SpriteType::Train).is_some() || rng.get_random(
        25,
    ) != 0 {
        return Ok(());
    }
    let sprite_position = MapPosition::new(
        position.get_x() * 16 + TRAIN_GROOVE_X,
        position.get_y() * 16 + TRAIN_GROOVE_Y,
    );
    make_sprite(rng, sprites, &SpriteType::Train, &sprite_position, &no_pollution_target())
}

/// Try to start a new bus sprite at the given map tile: with no bus yet and
/// one chance in 26.
pub fn generate_bus(
    rng: &mut MicropolisRandom,
    sprites: &mut ActiveSpritesList,
    position: &MapPosition,
) -> (r: Result<(), String>)
    requires
        tile_fits(*position),
    ensures
        r is Ok,
        final(sprites).cycle() == old(sprites).cycle(),
        final(rng).creation_seed() == old(rng).creation_seed(),
        first_active(old(sprites).sprites(), SpriteType::Bus) is Some ==> *final(sprites) == *old(
            sprites,
        ) && *final(rng) == *old(rng),
        first_active(old(sprites).sprites(), SpriteType::Bus) is None ==> {
            let next = lcg_next(old(rng).state());
            &&& final(rng).state() == next
            &&& trunc_rem(draw_bits(next), 26) != 0 ==> *final(sprites) == *old(sprites)
            &&& trunc_rem(draw_bits(next), 26) == 0 ==> sprite_made(
                old(sprites).sprites(),
                final(sprites).sprites(),
                SpriteType::Bus,
                pixel_of(*position, BUS_GROOVE_X as int, BUS_GROOVE_Y as int),
            )
        },
{
    if sprites.get_sprite(&SpriteType::Bus).is_some() || rng.get_random(25) != 0 {
        return Ok(());
    }
    let sprite_position = MapPosition::new(
        position.get_x() * 16 + BUS_GROOVE_X,
        position.get_y() * 16 + BUS_GROOVE_Y,
    );
    make_sprite(rng, sprites, &SpriteType::Bus, &sprite_position, &no_pollution_target())
}

/// Ensure an airplane sprite exists.
///
/// If it does not exist, create one at the given coordinates.
pub fn generate_plane(
    rng: &mut MicropolisRandom,
    sprites: &mut ActiveSpritesList,
    position: &MapPosition,
) -> (r: Result<(), String>)
    requires
        tile_fits(*position),
    ensures
        r is Ok,
        final(sprites).cycle() == old(sprites).cycle(),
        final(rng).state() == old(rng).state(),
        final(rng).creation_seed() == old(rng).creation_seed(),
        first_active(old(sprites).sprites(), SpriteType::Airplane) is Some ==> *final(sprites)
            == *old(sprites),
        first_active(old(sprites).sprites(), SpriteType::Airplane) is None ==> sprite_made(
            old(sprites).sprites(),
            final(sprites).sprites(),
            SpriteType::Airplane,
            pixel_of(*position, 48, 12),
        ),
{
    if sprites.get_sprite(&SpriteType::Airplane).is_some() {
        return Ok(());
    }
    let sprite_position = MapPosition::new(position.get_x() * 16 + 48, position.get_y() * 16 + 12);
    make_sprite(rng, sprites, &SpriteType::Airplane, &sprite_position, &no_pollution_target())
}

/// Ensure a helicopter sprite exists.
///
/// If it does not exist, create one at the given coordinates.
pub fn generate_copter(
    rng: &mut MicropolisRandom,
    sprites: &mut ActiveSpritesList,
    position: &MapPosition,
) -> (r: Result<(), String>)
    requires
        tile_fits(*position),
    ensures
        r is Ok,
        final(sprites).cycle() == old(sprites).cycle(),
        final(rng).creation_seed() == old(rng).creation_seed(),
        first_active(old(sprites).sprites(), SpriteType::Helicopter) is Some ==> *final(sprites)
            == *old(sprites) && *final(rng) == *old(rng),
        first_active(old(sprites).sprites(), SpriteType::Helicopter) is None ==> sprite_made(
            old(sprites).sprites(),
            final(sprites).sprites(),
            SpriteType::Helicopter,
            pixel_of(*position, 0, 30),
        ),
{
    if sprites.get_sprite(&SpriteType::Helicopter).is_some() {
        return Ok(());
    }
    let sprite_position = MapPosition::new(position.get_x() * 16, position.get_y() * 16 + 30);
    make_sprite(rng, sprites, &SpriteType::Helicopter, &sprite_position, &no_pollution_target())
}

/// Is the tile at `(x, y)` a channel?
pub open spec fn is_channel(map: TileMap, x: int, y: int) -> bool {
    map.tile_at(MapPosition { x: x as i32, y: y as i32 }) matches Some(t) && t.kind() == Some(
        TileType::Channel,
    )
}

/// First `x` in `[lo, hi)` with a channel tile in row `y`.
pub open spec fn first_channel_in_row(map: TileMap, y: int, lo: int, hi: int) -> Option<int>
    decreases hi - lo,
{
    if lo >= hi {
        None
    } else if is_channel(map, lo, y) {
        Some(lo)
    } else {
        first_channel_in_row(map, y, lo + 1, hi)
    }
}

/// First `y` in `[lo, hi)` with a channel tile in column `x`.
pub open spec fn first_channel_in_column(map: TileMap, x: int, lo: int, hi: int) -> Option<int>
    decreases hi - lo,
{
    if lo >= hi {
        None
    } else if is_channel(map, x, lo) {
        Some(lo)
    } else {
        first_channel_in_column(map, x, lo + 1, hi)
    }
}

/// Tile where `generate_ship` launches a ship, if any, and the generator state
/// after its draws: each edge of the map (top, left, bottom, right) is
/// searched for a channel tile, three times out of four.
pub open spec fn ship_search(map: TileMap, rng: u64) -> (Option<MapPosition>, u64) {
    let w = map.width() as int;
    let h = map.height() as int;
    let r1 = lcg_next(rng);
    let top = if random16_at(r1) % 4 != 0 {
        first_channel_in_row(map, 0, 4, w - 2)
    } else {
        None
    };
    match top {
        Some(x) => (Some(MapPosition { x: x as i32, y: 0 }), r1),
        None => {
            let r2 = lcg_next(r1);
            let left = if random16_at(r2) % 4 != 0 {
                first_channel_in_column(map, 0, 1, h - 2)
            } else {
                None
            };
            match left {
                Some(y) => (Some(MapPosition { x: 0, y: y as i32 }), r2),
                None => {
                    let r3 = lcg_next(r2);
                    let bottom = if random16_at(r3) % 4 != 0 {
                        first_channel_in_row(map, h - 1, 4, w - 2)
                    } else {
                        None
                    };
                    match bottom {
                        Some(x) => (Some(MapPosition { x: x as i32, y: (h - 1) as i32 }), r3),
                        None => {
                            let r4 = lcg_next(r3);
                            let right = if random16_at(r4) % 4 != 0 {
                                first_channel_in_column(map, w - 1, 1, h - 2)
                            } else {
                                None
                            };
                            match right {
                                Some(y) => (Some(MapPosition { x: (w - 1) as i32, y: y as i32 }), r4),
                                None => (None, r4),
                            }
                        },
                    }
                },
            }
        },
    }
}

/// Maps on whose edges ships can be searched.
pub open spec fn ship_map_fits(map: TileMap) -> bool {
    2 <= map.width() <= 0x10000 && 2 <= map.height() <= 0x10000
}

/// First channel tile of row `y` with `x` in `[lo, hi)`.
fn find_channel_in_row(map: &TileMap, y: usize, lo: usize, hi: usize) -> (r: Option<usize>)
    requires
        y <= 0x10000 && hi <= 0x10000,
    ensures
        r matches Some(x) ==> first_channel_in_row(*map, y as int, lo as int, hi as int) == Some(
            x as int,
        ),
        r is None ==> first_channel_in_row(*map, y as int, lo as int, hi as int) is None,
        r matches Some(x) ==> lo <= x < hi,
{
    let mut x = lo;
    while x < hi
        invariant
            lo <= x,
            y <= 0x10000 && hi <= 0x10000,
            first_channel_in_row(*map, y as int, lo as int, hi as int) == first_channel_in_row(
                *map,
                y as int,
                x as int,
                hi as int,
            ),
        decreases hi - x,
    {
        let position = MapPosition::new(x as i32, y as i32);
        if let Some(tile) = map.get_tile_at(&position) {
            if *tile.get_type() == Some(TileType::Channel) {
                return Some(x);
            }
        }
        x = x + 1;
    }
    None
}

/// First channel tile of column `x` with `y` in `[lo, hi)`.
fn find_channel_in_column(map: &TileMap, x: usize, lo: usize, hi: usize) -> (r: Option<usize>)
    requires
        x <= 0x10000 && hi <= 0x10000,
    ensures
        r matches Some(y) ==> first_channel_in_column(*map, x as int, lo as int, hi as int) == Some(
            y as int,
        ),
        r is None ==> first_channel_in_column(*map, x as int, lo as int, hi as int) is None,
        r matches Some(y) ==> lo <= y < hi,
{
    let mut y = lo;
    while y < hi
        invariant
            lo <= y,
            x <= 0x10000 && hi <= 0x10000,
            first_channel_in_column(*map, x as int, lo as int, hi as int) == first_channel_in_column(
                *map,
                x as int,
                y as int,
                hi as int,
            ),
        decreases hi - y,
    {
        let position = MapPosition::new(x as i32, y as i32);
        if let Some(tile) = map.get_tile_at(&position) {
            if *tile.get_type() == Some(TileType::Channel) {
                return Some(y);
            }
        }
        y = y + 1;
    }
    None
}

/// Draw a random number; true three times out of four.
fn three_in_four(rng: &mut MicropolisRandom) -> (r: bool)
    ensures
        final(rng).state() == lcg_next(old(rng).state()),
        final(rng).creation_seed() == old(rng).creation_seed(),
        r == (random16_at(final(rng).state()) % 4 != 0),
{
    let draw = rng.get_random_16();
    proof {
        lemma_i16_low_bits(draw);
    }
    draw & 0x03 != 0x00
}

/// Try to construct a new ship sprite on a channel tile of an edge of the map.
pub fn generate_ship(
    rng: &mut MicropolisRandom,
    sprites: &mut ActiveSpritesList,
    map: &TileMap,
) -> (r: Result<(), String>)
    requires
        ship_map_fits(*map),
        active_sprite_fits(old(sprites).sprites(), SpriteType::Ship),
    ensures
        r is Ok,
        final(sprites).cycle() == old(sprites).cycle(),
        final(rng).creation_seed() == old(rng).creation_seed(),
        ({
            let (found, next) = ship_search(*map, old(rng).state());
            &&& final(rng).state() == next
            &&& found is None ==> *final(sprites) == *old(sprites)
            &&& found matches Some(p) ==> sprite_made(
                old(sprites).sprites(),
                final(sprites).sprites(),
                SpriteType::Ship,
                pixel_of(p, -47, 0),
            )
        }),
{
    let map_size = map.bounds();
    let w = map_size.get_width();
    let h = map_size.get_height();
    if three_in_four(rng) {
        if let Some(x) = find_channel_in_row(map, 0, 4, w - 2) {
            return make_ship_at(rng, sprites, &MapPosition::new(x as i32, 0));
        }
    }
    if three_in_four(rng) {
        if let Some(y) = find_channel_in_column(map, 0, 1, h - 2) {
            return make_ship_at(rng, sprites, &MapPosition::new(0, y as i32));
        }
    }
    if three_in_four(rng) {
        if let Some(x) = find_channel_in_row(map, h - 1, 4, w - 2) {
            return make_ship_at(rng, sprites, &MapPosition::new(x as i32, (h - 1) as i32));
        }
    }
    if three_in_four(rng) {
        if let Some(y) = find_channel_in_column(map, w - 1, 1, h - 2) {
            return make_ship_at(rng, sprites, &MapPosition::new((w - 1) as i32, y as i32));
        }
    }
    Ok(())
}

/// Start a ship sprite at the given map tile.
fn make_ship_at(
    rng: &mut MicropolisRandom,
    sprites: &mut ActiveSpritesList,
    position: &MapPosition,
) -> (r: Result<(), String>)
    requires
        tile_fits(*position),
        active_sprite_fits(old(sprites).sprites(), SpriteType::Ship),
    ensures
        r is Ok,
        sprite_made(
            old(sprites).sprites(),
            final(sprites).sprites(),
            SpriteType::Ship,
            pixel_of(*position, -47, 0),
        ),
        final(sprites).cycle() == old(sprites).cycle(),
        final(rng).creation_seed() == old(rng).creation_seed(),
        final(rng).state() == old(rng).state(),
{
    let sprite_position = MapPosition::new(position.get_x() * 16 - (48 - 1), position.get_y() * 16);
    make_sprite(rng, sprites, &SpriteType::Ship, &sprite_position, &no_pollution_target())
}


/// Where a new tornado appears: a random pixel position within the map, 400
/// pixels from its sides and 100 from its top and bottom (two draws).
pub open spec fn tornado_position(state: u64, width: int, height: int) -> MapPosition {
    let s1 = lcg_next(state);
    let s2 = lcg_next(s1);
    MapPosition {
        x: (trunc_rem(draw_bits(s1), width * 16 - 800 + 1) + 400) as i32,
        y: (trunc_rem(draw_bits(s2), height * 16 - 200 + 1) + 100) as i32,
    }
}

/// Start a tornado: the active one, if any, goes on for 200 more steps;
/// otherwise a new one appears (see `tornado_position`).
pub fn make_tornado(rng: &mut MicropolisRandom, sprites: &mut ActiveSpritesList, map: &TileMap) -> (r:
    Result<(), String>)
    requires
        map.width() <= 2047,
        map.height() <= 2047,
    ensures
        r is Ok,
        final(sprites).cycle() == old(sprites).cycle(),
        final(rng).creation_seed() == old(rng).creation_seed(),
        match first_active(old(sprites).sprites(), SpriteType::Tornado) {
            Some(i) => {
                &&& final(sprites).sprites() == old(sprites).sprites().update(
                    i,
                    Sprite { count: 200, ..old(sprites).sprites()[i] },
                )
                &&& *final(rng) == *old(rng)
            },
            None => {
                &&& final(rng).state() == lcg_next(lcg_next(old(rng).state()))
                &&& sprite_made(
                    old(sprites).sprites(),
                    final(sprites).sprites(),
                    SpriteType::Tornado,
                    tornado_position(old(rng).state(), map.width() as int, map.height() as int),
                )
            },
        },
{
    if sprites.set_active_count(&SpriteType::Tornado, 200) {
        return Ok(());
    }
    let bounds = map.bounds();
    let width = (bounds.get_width() * 16) as i16;
    let height = (bounds.get_height() * 16) as i16;
    let x = rng.get_random(width - 800) + 400;
    let y = rng.get_random(height - 200) + 100;
    let sprite_position = MapPosition::new(x as i32, y as i32);
    make_sprite(rng, sprites, &SpriteType::Tornado, &sprite_position, &no_pollution_target())
}

/// Searching water for a monster: up to `n` random tiles (drawn 10 tiles
/// from the left and right of the map and 5 from its top and bottom, two
/// draws each), the first plain or bulldozable river tile, and the
/// generator state reached.
pub open spec fn monster_search(map: TileMap, state: u64, n: nat) -> (Option<MapPosition>, u64)
    decreases n,
{
    if n == 0 {
        (None, state)
    } else {
        let (found, s) = monster_search(map, state, (n - 1) as nat);
        match found {
            Some(p) => (Some(p), s),
            None => {
                let s1 = lcg_next(s);
                let s2 = lcg_next(s1);
                let p = MapPosition {
                    x: (trunc_rem(draw_bits(s1), map.width() - 19) + 10) as i32,
                    y: (trunc_rem(draw_bits(s2), map.height() - 9) + 5) as i32,
                };
                match map.tile_at(p) {
                    Some(t) => if t.raw() == 2 || t.raw() == 0x1002 {
                        (Some(p), s2)
                    } else {
                        (None, s2)
                    },
                    None => (None, s2),
                }
            },
        }
    }
}

/// Start a monster: the active one, if any, is roused and heads to the
/// pollution maximum (in pixels); otherwise a new one appears at the water
/// found (see `monster_search`, over 300 tiles), or at tile (60, 50).
pub fn make_monster(
    rng: &mut MicropolisRandom,
    sprites: &mut ActiveSpritesList,
    map: &TileMap,
    maximum_pollution_at: &MapPosition,
) -> (r: Result<(), String>)
    requires
        map.width() <= 0x7FFF,
        map.height() <= 0x7FFF,
        map.width() != 19,
        map.height() != 9,
    ensures
        r is Ok,
        final(sprites).cycle() == old(sprites).cycle(),
        final(rng).creation_seed() == old(rng).creation_seed(),
        match first_active(old(sprites).sprites(), SpriteType::Monster) {
            Some(i) => {
                &&& final(sprites).sprites() == old(sprites).sprites().update(
                    i,
                    Sprite {
                        sound_count: 1,
                        count: 1000,
                        destination: MapPosition {
                            x: maximum_pollution_at.x << 4u32,
                            y: maximum_pollution_at.y << 4u32,
                        },
                        ..old(sprites).sprites()[i]
                    },
                )
                &&& *final(rng) == *old(rng)
            },
            None => {
                let (found, state) = monster_search(*map, old(rng).state(), 300);
                let at = match found {
                    Some(p) => p,
                    None => MapPosition { x: 60, y: 50 },
                };
                &&& final(rng).state() == state
                &&& sprite_made(
                    old(sprites).sprites(),
                    final(sprites).sprites(),
                    SpriteType::Monster,
                    pixel_of(at, 48, 0),
                )
            },
        },
{
    let destination = MapPosition::new(maximum_pollution_at.x << 4u32, maximum_pollution_at.y << 4u32);
    if sprites.rouse_active(&SpriteType::Monster, destination) {
        return Ok(());
    }
    let bounds = map.bounds();
    let width = bounds.get_width() as i16;
    let height = bounds.get_height() as i16;
    let mut found: Option<MapPosition> = None;
    let mut z: usize = 0;
    while z < 300
        invariant
            z <= 300,
            width == map.width(),
            height == map.height(),
            map.width() <= 0x7FFF,
            map.height() <= 0x7FFF,
            map.width() != 19,
            map.height() != 9,
            (found, rng.state()) == monster_search(*map, old(rng).state(), z as nat),
            found matches Some(p) ==> -0x10000 <= p.x <= 0x10000 && -0x10000 <= p.y <= 0x10000,
            rng.creation_seed() == old(rng).creation_seed(),
        decreases 300 - z,
    {
        if found.is_some() {
            z = z + 1;
            continue;
        }
        let x = rng.get_random(width - 20) + 10;
        let y = rng.get_random(height - 10) + 5;
        let position = MapPosition::new(x as i32, y as i32);
        if let Some(tile) = map.get_tile_at(&position) {
            let tile_raw = tile.get_raw();
            if tile_raw == TileType::River.raw_value() || tile_raw == TileType::River.raw_value() + TILE_BULL_BIT {
                found = Some(position);
            }
        }
        z = z + 1;
    }
    let at = match found {
        Some(p) => p,
        None => MapPosition::new(60, 50),
    };
    make_monster_at(rng, sprites, &at, maximum_pollution_at)
}

/// Start a new monster sprite at the given map tile.
fn make_monster_at(
    rng: &mut MicropolisRandom,
    sprites: &mut ActiveSpritesList,
    position: &MapPosition,
    maximum_pollution_at: &MapPosition,
) -> (r: Result<(), String>)
    requires
        -0x10000 <= position.x <= 0x10000,
        -0x10000 <= position.y <= 0x10000,
        active_sprite_fits(old(sprites).sprites(), SpriteType::Monster),
    ensures
        r is Ok,
        sprite_made(old(sprites).sprites(), final(sprites).sprites(), SpriteType::Monster, pixel_of(*position, 48, 0)),
        final(sprites).cycle() == old(sprites).cycle(),
        final(rng).creation_seed() == old(rng).creation_seed(),
        final(rng).state() == old(rng).state(),
{
    let monster_position = MapPosition::new(position.x * 16 + 48, position.y * 16);
    make_sprite(rng, sprites, &SpriteType::Monster, &monster_position, maximum_pollution_at)
}

} // verus!
