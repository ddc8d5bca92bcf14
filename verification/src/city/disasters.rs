use vstd::prelude::*;
use crate::utils::bits::{lemma_i16_low_bits, lemma_u16_tile_bits};

use crate::game::GameScenario;
use crate::map::position::fits_i32;
use crate::map::tiles::type_bits;
use crate::map::{grid_value_at, write_cell, MapPosition, MapRectangle, Tile, TileMap, TileType};
use crate::utils::random::{draw_bits, lcg_next, random16_at, trunc_rem, MicropolisRandom};

use super::simulation::{offset_of, put_raw, zone_fits};
use super::sprite::{pixel_fits, ActiveSpritesList, Sprite, SpriteType};

verus! {

/// Raw value of a fire tile drawn from the random number `v`: one of the
/// eight fire tiles, animated.
pub open spec fn fire_raw(v: int) -> u16 {
    ((56 + v % 8) as u16) | 0x0800u16
}

/// Raw value of a rubble tile drawn from the random number `v`: one of the
/// four rubble tiles, bulldozable.
pub open spec fn rubble_raw(v: int) -> u16 {
    ((44 + v % 4) as u16) | 0x1000u16
}

/// Offsets of the neighbours a flood spreads to: north, east, south, west.
pub open spec fn flood_offset(z: int) -> (int, int) {
    if z == 0 {
        (0, -1)
    } else if z == 1 {
        (1, 0)
    } else if z == 2 {
        (0, 1)
    } else {
        (-1, 0)
    }
}

/// Can a flood cover a tile of this raw value: burnable, bare dirt, or woods
/// or rubble?
pub open spec fn floodable_raw(c: u16) -> bool {
    c & 0x2000u16 == 0x2000u16 || c == 0 || (43 <= type_bits(c) < 48)
}

/// State changed by a flood: the cells and the generator state, and whether
/// every flood tile drawn was a flood tile (a negative draw would make the
/// raw value overflow).
pub struct FloodState {
    pub cells: Seq<Seq<Tile>>,
    pub rng: u64,
    pub ok: bool,
}

/// The flood spreading from `at` to its first `n` neighbours: each one, one
/// time in eight, when floodable, becomes one of the flood tiles.
pub open spec fn flood_spread(
    s: FloodState,
    strategy: crate::map::MapClusteringStrategy,
    at: MapPosition,
    n: int,
) -> FloodState
    decreases n,
{
    if n <= 0 {
        s
    } else {
        let prev = flood_spread(s, strategy, at, n - 1);
        let r1 = lcg_next(prev.rng);
        if random16_at(r1) % 8 != 0 {
            FloodState { rng: r1, ..prev }
        } else {
            let (dx, dy) = flood_offset(n - 1);
            let p = offset_of(at, dx, dy);
            match grid_value_at(prev.cells, strategy, p) {
                Some(t) => if floodable_raw(t.raw()) {
                    let r2 = lcg_next(r1);
                    let d = trunc_rem(draw_bits(r2), 3);
                    FloodState {
                        cells: put_raw(prev.cells, strategy, p, (48 + d) as u16),
                        rng: r2,
                        ok: prev.ok && d >= 0,
                    }
                } else {
                    FloodState { rng: r1, ..prev }
                },
                None => FloodState { rng: r1, ..prev },
            }
        }
    }
}

/// A flood that never overflows over four neighbours never overflows over fewer.
proof fn lemma_flood_ok_prefix(
    s: FloodState,
    strategy: crate::map::MapClusteringStrategy,
    at: MapPosition,
    k: int,
    n: int,
)
    requires
        0 <= k <= n,
        flood_spread(s, strategy, at, n).ok,
    ensures
        flood_spread(s, strategy, at, k).ok,
    decreases n - k,
{
    if k < n {
        lemma_flood_ok_prefix(s, strategy, at, k + 1, n);
        let prev = flood_spread(s, strategy, at, k);
        assert(flood_spread(s, strategy, at, k + 1).ok ==> prev.ok);
    }
}

pub struct CityDisasters {
    /// Size of flooding disaster.
    flood_count: i16,
    /// The disaster for which a count-down is running.
    disaster_event: GameScenario,
    /// Count-down timer for the disaster.
    disaster_timer: u16,
}

impl CityDisasters {
    /// Remaining flooding.
    pub closed spec fn flooding(&self) -> i16 {
        self.flood_count
    }

    /// Disaster of the scenario and its count-down.
    pub closed spec fn pending(&self) -> (GameScenario, u16) {
        (self.disaster_event, self.disaster_timer)
    }

    /// Disasters of a city playing the scenario: no flooding yet, and the
    /// scenario's disaster counting down from its delay.
    pub fn new(scenario: &GameScenario) -> (r: Self)
        ensures
            r.flooding() == 0,
            r.pending() == (*scenario, scenario.disaster_delay() as u16),
    {
        Self { flood_count: 0, disaster_event: *scenario, disaster_timer: scenario.get_disaster_timer() }
    }

    /// Let disasters happen: for now, the flooding recedes.
    pub fn do_disasters(&mut self)
        ensures
            old(self).flooding() > 0 ==> final(self).flooding() == old(self).flooding() - 1,
            old(self).flooding() <= 0 ==> final(self).flooding() == old(self).flooding(),
            final(self).pending() == old(self).pending(),
    {
        if self.flood_count > 0 {
            self.flood_count = self.flood_count - 1;
        }
    }

    /// Flood around the given position, while flooding goes on.
    pub fn do_flood(&mut self, rng: &mut MicropolisRandom, map: &mut TileMap, at: &MapPosition) -> (r:
        Result<(), String>)
        requires
            zone_fits(*at),
            old(self).flooding() > 0 ==> flood_spread(
                FloodState { cells: old(map).cells(), rng: old(rng).state(), ok: true },
                old(map).strategy(),
                *at,
                4,
            ).ok,
        ensures
            r is Ok,
            old(self).flooding() > 0 ==> {
                let s = flood_spread(
                    FloodState { cells: old(map).cells(), rng: old(rng).state(), ok: true },
                    old(map).strategy(),
                    *at,
                    4,
                );
                final(map).cells() == s.cells && final(rng).state() == s.rng
            },
            old(self).flooding() <= 0 ==> *final(map) == *old(map) && *final(rng) == *old(rng),
            final(map).strategy() == old(map).strategy(),
            final(rng).creation_seed() == old(rng).creation_seed(),
            *final(self) == *old(self),
    {
        if self.flood_count > 0 {
            let ghost strategy = map.strategy();
            let ghost start = FloodState { cells: map.cells(), rng: rng.state(), ok: true };
            let mut z: usize = 0;
            while z < 4
                invariant
                    z <= 4,
                    zone_fits(*at),
                    map.strategy() == strategy,
                    rng.creation_seed() == old(rng).creation_seed(),
                    start == (FloodState { cells: old(map).cells(), rng: old(rng).state(), ok: true }),
                    strategy == old(map).strategy(),
                    flood_spread(start, strategy, *at, 4).ok,
                    flood_spread(start, strategy, *at, z as int) == (FloodState {
                        cells: map.cells(),
                        rng: rng.state(),
                        ok: true,
                    }),
                decreases 4 - z,
            {
                proof {
                    lemma_flood_ok_prefix(start, strategy, *at, z + 1, 4);
                }
                let draw = rng.get_random_16();
                proof {
                    lemma_i16_low_bits(draw);
                }
                if draw & 0x07 == 0x00 {
                    // 12.5% chance
                    let (dx, dy): (i32, i32) = if z == 0 {
                        (0, -1)
                    } else if z == 1 {
                        (1, 0)
                    } else if z == 2 {
                        (0, 1)
                    } else {
                        (-1, 0)
                    };
                    let current_position = MapPosition::new(at.x + dx, at.y + dy);
                    proof {
                        map.lemma_tile_at_cells(current_position);
                    }
                    if let Some(tile) = map.get_tile_at(&current_position) {
                        let c = tile.get_raw();
                        let t = c & 0x03ff;
                        if c & 0x2000 == 0x2000 || c == 0 || (t >= 43 && t < 48) {
                            let d = rng.get_random(2);
                            let value = TileType::Flood.raw_value() + d as u16;
                            let flood = Tile::from_raw(value)?;
                            proof {
                                Tile::lemma_of_raw(flood);
                            }
                            map.set_tile_at(&current_position, flood);
                        }
                    }
                }
                z = z + 1;
            }
        }
        Ok(())
    }

    /// Construct an explosion sprite.
    pub fn make_explosion_at(
        rng: &mut MicropolisRandom,
        sprites: &mut ActiveSpritesList,
        at: &MapPosition,
        max_pollution_at: &MapPosition,
    )
        requires
            fits_i32(at.x - 40) && fits_i32(at.y - 16),
            pixel_fits(MapPosition { x: (at.x - 40) as i32, y: (at.y - 16) as i32 }),
        ensures
            final(sprites).sprites().len() == old(sprites).sprites().len() + 1,
            final(sprites).sprites().drop_last() == old(sprites).sprites(),
            final(sprites).sprites().last().kind == SpriteType::Explosion,
            final(sprites).sprites().last().position == (MapPosition {
                x: (at.x - 40) as i32,
                y: (at.y - 16) as i32,
            }),
            final(sprites).sprites().last().frame == 1,
            final(sprites).sprites().last().size == (MapRectangle { width: 48, height: 48 }),
            final(sprites).sprites().last().offset == (MapPosition { x: 24, y: 0 }),
            final(sprites).sprites().last().hot_offset == (MapPosition { x: 40, y: 16 }),
            final(sprites).cycle() == old(sprites).cycle(),
            final(rng).creation_seed() == old(rng).creation_seed(),
            final(rng).state() == old(rng).state(),
    {
        let sprite = Sprite::new(
            rng,
            String::new(),
            SpriteType::Explosion,
            MapPosition::new(at.x - 40, at.y - 16),
            max_pollution_at,
        );
        let ghost before = sprites.sprites();
        sprites.add_sprite(sprite);
        assert(sprites.sprites().drop_last() =~= before);
    }

    /// Raw value of a random fire tile.
    pub fn random_fire(rng: &mut MicropolisRandom) -> (r: u16)
        ensures
            final(rng).state() == lcg_next(old(rng).state()),
            final(rng).creation_seed() == old(rng).creation_seed(),
            r == fire_raw(random16_at(final(rng).state())),
    {
        let draw = rng.get_random_16();
        proof {
            lemma_i16_low_bits(draw);
            let v = (draw & 7i16) as u16;
            lemma_u16_tile_bits(v);
            lemma_u16_tile_bits((56u16 + v) as u16);
        }
        TileType::Fire.raw_value() + ((draw & 0x07) as u16 | 0x0800)
    }

    /// Raw value of a random rubble tile.
    pub fn random_rubble(rng: &mut MicropolisRandom) -> (r: u16)
        ensures
            final(rng).state() == lcg_next(old(rng).state()),
            final(rng).creation_seed() == old(rng).creation_seed(),
            r == rubble_raw(random16_at(final(rng).state())),
    {
        let draw = rng.get_random_16();
        proof {
            lemma_i16_low_bits(draw);
            let v = (draw & 3i16) as u16;
            lemma_u16_tile_bits(v);
            lemma_u16_tile_bits((44u16 + v) as u16);
        }
        TileType::Rubble.raw_value() + ((draw & 0x03) as u16 | 0x1000)
    }
}

} // verus!
