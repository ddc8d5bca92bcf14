use vstd::prelude::*;
use crate::utils::bits::{lemma_u16_tile_bits, lemma_usize_low_bits};

use crate::map::position::{abs_int, fits_i32, MapPosition, MapRectangle};
use crate::map::tiles_type::TileType;
use crate::map::TileMap;
use crate::utils::random::MicropolisRandom;
use crate::utils::random_in_range;

verus! {

/// Horizontal offsets of the tiles that a train looks at, per direction.
pub open spec fn train_cx() -> Seq<i32> {
    seq![0i32, 16i32, 0i32, -16i32]
}

/// Vertical offsets of the tiles that a train looks at, per direction.
pub open spec fn train_cy() -> Seq<i32> {
    seq![-16i32, 0i32, 16i32, 0i32]
}

/// Horizontal moves of a train, per direction (4: stopped).
pub open spec fn train_dx() -> Seq<i32> {
    seq![0i32, 4i32, 0i32, -4i32, 0i32]
}

/// Vertical moves of a train, per direction (4: stopped).
pub open spec fn train_dy() -> Seq<i32> {
    seq![-4i32, 0i32, 4i32, 0i32, 0i32]
}

/// Frames of a train, per direction.
pub open spec fn train_pic2() -> Seq<u32> {
    seq![1u32, 2u32, 1u32, 2u32, 5u32]
}

#[derive(Clone, Copy, Debug, PartialEq, Eq, Structural)]
pub enum SpriteType {
    Train,
    Helicopter,
    Airplane,
    Ship,
    Monster,
    Tornado,
    Explosion,
    Bus,
}

/// A Sprite is a moveable, animatable entity on the map.
#[derive(Clone, Debug)]
pub struct Sprite {
    /// Entity type of the sprite.
    pub kind: SpriteType,
    /// Name of the sprite.
    pub name: String,
    /// Current frame (0 means non-active sprite).
    pub frame: u32,
    /// Position in **pixels**,
    pub position: MapPosition,
    /// Size in **pixels**.
    pub size: MapRectangle,
    /// Offset.
    pub offset: MapPosition,
    /// Offset of the hot-sport, relative to `position`.
    pub hot_offset: MapPosition,
    /// Origin.
    pub origin: MapPosition,
    /// Destination.
    pub destination: MapPosition,
    /// Countdown of the sprite's current activity.
    pub count: u32,
    /// Countdown before the next sound.
    pub sound_count: u32,
    /// Direction.
    pub direction: usize,
    /// New direction.
    pub new_direction: usize,
    /// Step.
    pub step: u32,
    /// Flag.
    pub flag: u32,
    /// Control (-1: not controlled).
    pub control: i32,
    /// Turn.
    pub turn: u32,
    /// Speed.
    pub speed: u32,
    /// Acceleration.
    pub acceleration: u32,
}

/// Pixel coordinates lie within 2^28 of the origin.
pub open spec fn pixel_fits(p: MapPosition) -> bool {
    -0x1000_0000 <= p.x <= 0x1000_0000 && -0x1000_0000 <= p.y <= 0x1000_0000
}

/// The position at the given offset.
pub open spec fn moved(p: MapPosition, dx: int, dy: int) -> MapPosition {
    MapPosition { x: (p.x + dx) as i32, y: (p.y + dy) as i32 }
}

/// First frame of a ship at the given position.
pub open spec fn ship_frame(p: MapPosition) -> u32 {
    if p.x < 64 {
        3
    } else if p.x >= 116 * 16 {
        7
    } else if p.y < 64 {
        5
    } else if p.y >= 96 * 16 {
        1
    } else {
        3
    }
}

/// First frame of a monster at the given position.
pub open spec fn monster_frame(p: MapPosition) -> u32 {
    if p.x > 960 {
        if p.y > 800 {
            10
        } else {
            7
        }
    } else if p.y > 800 {
        1
    } else {
        4
    }
}

impl SpriteType {
    /// Set up a sprite of this type: its size, offsets, first frame and
    /// its course.
    pub fn init_sprite(
        &self,
        rng: &mut MicropolisRandom,
        sprite: Sprite,
        max_pollution_at: &MapPosition,
    ) -> (r: Sprite)
        requires
            pixel_fits(sprite.position),
        ensures
            final(rng).creation_seed() == old(rng).creation_seed(),
            r.kind == sprite.kind && r.name == sprite.name,
            r.control == sprite.control && r.speed == sprite.speed && r.acceleration
                == sprite.acceleration,
            r.frame != 0,
            *self != SpriteType::Helicopter ==> final(rng).state() == old(rng).state(),
            match *self {
                SpriteType::Train => r.size == (MapRectangle { width: 32, height: 32 }) && r.offset
                    == (MapPosition { x: 32, y: -16i32 }) && r.hot_offset == (MapPosition { x: 40, y: -8i32 })
                    && r.frame == 1 && r.direction == 4 && r.position == sprite.position,
                SpriteType::Ship => r.size == (MapRectangle { width: 48, height: 48 }) && r.offset
                    == (MapPosition { x: 32, y: -16i32 }) && r.hot_offset == (MapPosition { x: 48, y: 0 })
                    && r.frame == ship_frame(sprite.position) && r.direction == 10 && r.new_direction
                    == ship_frame(sprite.position) && r.count == 1 && r.position == sprite.position,
                SpriteType::Monster => r.size == (MapRectangle { width: 48, height: 48 }) && r.offset
                    == (MapPosition { x: 24, y: 0 }) && r.hot_offset == (MapPosition { x: 40, y: 16 })
                    && r.frame == monster_frame(sprite.position) && r.count == 1000 && r.destination
                    == (MapPosition { x: max_pollution_at.x << 4usize, y: max_pollution_at.y << 4usize })
                    && r.origin == sprite.position && r.position == sprite.position,
                SpriteType::Helicopter => r.size == (MapRectangle { width: 32, height: 32 })
                    && r.offset == (MapPosition { x: 32, y: -16i32 }) && r.hot_offset == (MapPosition {
                    x: 40,
                    y: -8i32,
                }) && r.frame == 5 && r.count == 1500 && 0 <= r.destination.x <= 1919 && 0
                    <= r.destination.y <= 1599 && r.origin == moved(sprite.position, -30, 0)
                    && r.position == sprite.position,
                SpriteType::Airplane => r.size == (MapRectangle { width: 48, height: 48 })
                    && r.offset == (MapPosition { x: 24, y: 0 }) && r.hot_offset == (MapPosition {
                    x: 48,
                    y: 16,
                }) && if sprite.position.x > 100 * 16 {
                    r.position == moved(sprite.position, -148, 0) && r.destination == moved(
                        sprite.position,
                        -348,
                        0,
                    ) && r.frame == 7
                } else {
                    r.position == sprite.position && r.destination == moved(sprite.position, 200, 0)
                        && r.frame == 11
                },
                SpriteType::Tornado => r.size == (MapRectangle { width: 48, height: 48 })
                    && r.offset == (MapPosition { x: 24, y: 0 }) && r.hot_offset == (MapPosition {
                    x: 40,
                    y: 36,
                }) && r.count == 200 && r.frame == 1 && r.position == sprite.position,
                SpriteType::Explosion => r.size == (MapRectangle { width: 48, height: 48 })
                    && r.offset == (MapPosition { x: 24, y: 0 }) && r.hot_offset == (MapPosition {
                    x: 40,
                    y: 16,
                }) && r.frame == 1 && r.position == sprite.position,
                SpriteType::Bus => r.size == (MapRectangle { width: 32, height: 32 }) && r.offset
                    == (MapPosition { x: 30, y: -18i32 }) && r.hot_offset == (MapPosition { x: 40, y: -8i32 })
                    && r.direction == 1 && r.frame == 1 && r.position == sprite.position,
            },
    {
        let mut sprite = sprite;
        match self {
            SpriteType::Train => {
                sprite.size = MapRectangle::new(32, 32);
                sprite.offset = MapPosition::new(32, -16);
                sprite.hot_offset = MapPosition::new(40, -8);
                sprite.frame = 1;
                sprite.direction = 4;
            },
            SpriteType::Ship => {
                sprite.size = MapRectangle::new(48, 48);
                sprite.offset = MapPosition::new(32, -16);
                sprite.hot_offset = MapPosition::new(48, 0);
                let (x, y) = sprite.position.as_tuple();
                sprite.frame = if x < 4 * 16 {
                    3
                } else if x >= (120 - 4) * 16 {
                    7
                } else if y < 4 * 16 {
                    5
                } else if y >= (100 - 4) * 16 {
                    1
                } else {
                    3
                };
                sprite.direction = 10;
                sprite.new_direction = sprite.frame as usize;
                sprite.count = 1;
            },
            SpriteType::Monster => {
                sprite.size = MapRectangle::new(48, 48);
                sprite.offset = MapPosition::new(24, 0);
                sprite.hot_offset = MapPosition::new(40, 16);
                let (x, y) = sprite.position.as_tuple();
                sprite.frame = if x > (120 * 16) / 2 {
                    if y > (100 * 16) / 2 {
                        10
                    } else {
                        7
                    }
                } else if y > (100 * 16) / 2 {
                    1
                } else {
                    4
                };
                sprite.count = 1000;
                sprite.destination = *max_pollution_at << 4;
                sprite.origin = sprite.position;
            },
            SpriteType::Helicopter => {
                sprite.size = MapRectangle::new(32, 32);
                sprite.offset = MapPosition::new(32, -16);
                sprite.hot_offset = MapPosition::new(40, -8);
                sprite.frame = 5;
                sprite.count = 1500;
                let x = random_in_range(rng, 0, 120 * 16 - 1);
                let y = random_in_range(rng, 0, 100 * 16 - 1);
                sprite.destination = MapPosition::new(x as i32, y as i32);
                sprite.origin = sprite.position - MapPosition::new(30, 0);
            },
            SpriteType::Airplane => {
                sprite.size = MapRectangle::new(48, 48);
                sprite.offset = MapPosition::new(24, 0);
                sprite.hot_offset = MapPosition::new(48, 16);
                if sprite.position.get_x() > (120 - 20) * 16 {
                    sprite.position = sprite.position - MapPosition::new(100 + 48, 0);
                    sprite.destination = sprite.position - MapPosition::new(200, 0);
                    sprite.frame = 7;
                } else {
                    sprite.destination = sprite.position + MapPosition::new(200, 0);
                    sprite.frame = 11;
                }
                let y = sprite.position.get_y();
                sprite.destination.set_y(y);
            },
            SpriteType::Tornado => {
                sprite.size = MapRectangle::new(48, 48);
                sprite.offset = MapPosition::new(24, 0);
                sprite.hot_offset = MapPosition::new(40, 36);
                sprite.count = 200;
                sprite.frame = 1;
            },
            SpriteType::Explosion => {
                sprite.size = MapRectangle::new(48, 48);
                sprite.offset = MapPosition::new(24, 0);
                sprite.hot_offset = MapPosition::new(40, 16);
                sprite.frame = 1;
            },
            SpriteType::Bus => {
                sprite.size = MapRectangle::new(32, 32);
                sprite.offset = MapPosition::new(30, -18);
                sprite.hot_offset = MapPosition::new(40, -8);
                sprite.direction = 1;
                sprite.frame = 1;
            },
        }
        sprite
    }

    /// Move a train along the rails: it keeps its direction every few
    /// cycles, then looks for rails around it.
    pub fn update_train(
        &self,
        rng: &mut MicropolisRandom,
        map: &TileMap,
        sprite: &mut Sprite,
        sprite_cycle: u16,
    ) -> (r: Result<(), String>)
        requires
            old(sprite).direction < 5,
            pixel_fits(old(sprite).position),
        ensures
            final(rng).creation_seed() == old(rng).creation_seed(),
            final(sprite).direction < 5,
            final(sprite).kind == old(sprite).kind,
            final(sprite).position == moved(
                old(sprite).position,
                train_dx()[old(sprite).direction as int] as int,
                train_dy()[old(sprite).direction as int] as int,
            ),
            sprite_cycle & 3 != 0 ==> r is Ok && final(rng).state() == old(rng).state(),
    {
        let train_pic2_table: [u32; 5] = [1, 2, 1, 2, 5];
        let train_dx_table: [i32; 5] = [0, 4, 0, -4, 0];
        let train_dy_table: [i32; 5] = [-4, 0, 4, 0, 0];
        let train_cx_table: [i32; 4] = [0, 16, 0, -16];
        let train_cy_table: [i32; 4] = [-16, 0, 16, 0];
        if sprite.frame == 3 || sprite.frame == 4 {
            sprite.frame = train_pic2_table[sprite.direction];
        }
        sprite.position = sprite.position + MapPosition::new(
            train_dx_table[sprite.direction],
            train_dy_table[sprite.direction],
        );
        if sprite_cycle & 0x03 != 0 {
            return Ok(());
        }
        proof {
            let d = old(sprite).direction as int;
            assert(-4 <= train_dx()[d] <= 4 && -4 <= train_dy()[d] <= 4) by {
                assert(d == 0 || d == 1 || d == 2 || d == 3 || d == 4);
            }
        }
        let draw = random_in_range(rng, 0, u16::MAX);
        proof {
            lemma_u16_tile_bits(draw);
        }
        let direction = (draw & 0x03) as usize;
        let mut z = direction;
        while z < direction + 4
            invariant
                direction <= 3,
                direction <= z <= direction + 4,
                sprite_cycle & 3 == 0,
                -0x1000_0100 <= sprite.position.x <= 0x1000_0100,
                -0x1000_0100 <= sprite.position.y <= 0x1000_0100,
                sprite.direction < 5,
                sprite.kind == old(sprite).kind,
                train_cx_table@ == train_cx(),
                train_cy_table@ == train_cy(),
                train_pic2_table@ == train_pic2(),
                pixel_fits(old(sprite).position),
                sprite.position == moved(
                    old(sprite).position,
                    train_dx()[old(sprite).direction as int] as int,
                    train_dy()[old(sprite).direction as int] as int,
                ),
                rng.creation_seed() == old(rng).creation_seed(),
            decreases direction + 4 - z,
        {
            let direction2: usize = z & 0x03;
            proof {
                lemma_usize_low_bits(z);
            }

            if sprite.direction != 4 && direction2 == ((sprite.direction + 2) & 0x03) {
                z = z + 1;
                continue;
            }
            let map_at = sprite.position + MapPosition::new(
                train_cx_table[direction2] + 48,
                train_cy_table[direction2],
            );
            let char = match map.get_tile_char_at(&map_at) {
                Some(c) => c,
                None => {
                    return Err(String::from_str("SpriteType.update_train: cannot get tile char"));
                },
            };
            if (char >= TileType::UnderwaterHorizontalRail.raw_value() && char
                <= TileType::VerticalRailRoad.raw_value()) || char
                == TileType::RailVerticalPowerHorizontal.raw_value() || char
                == TileType::RailHorizontalPowerVertical.raw_value() {
                sprite.frame = if sprite.direction != direction2 && sprite.direction != 4 {
                    if sprite.direction + direction2 == 3 {
                        3
                    } else {
                        4
                    }
                } else {
                    train_pic2_table[direction2]
                };
                if char == TileType::HorizontalRailRoad.raw_value() || char
                    == TileType::VerticalRailRoad.raw_value() {
                    sprite.frame = 5;
                }
                sprite.direction = direction2;
                return Ok(());
            }
            z = z + 1;
        }
        if sprite.direction == 4 {
            sprite.frame = 0;
        } else {
            sprite.direction = 4;
        }
        Ok(())
    }
}

/// Direction reached by one turn from `present` towards `destination`.
pub open spec fn turned(present: int, destination: int) -> int {
    if present == destination {
        present
    } else if present < destination {
        if destination - present < 4 {
            present + 1
        } else {
            present - 1
        }
    } else if present - destination < 4 {
        present - 1
    } else {
        present + 1
    }
}

impl Sprite {
    /// A new sprite of the given type, set up for its course.
    pub fn new(
        rng: &mut MicropolisRandom,
        name: String,
        kind: SpriteType,
        position: MapPosition,
        max_pollution_at: &MapPosition,
    ) -> (r: Self)
        requires
            pixel_fits(position),
        ensures
            final(rng).creation_seed() == old(rng).creation_seed(),
            r.kind == kind,
            r.name == name,
            r.control == -1,
            r.speed == 100,
            kind != SpriteType::Airplane ==> r.position == position,
            r.frame != 0,
            kind == SpriteType::Explosion ==> r.size == (MapRectangle { width: 48, height: 48 })
                && r.offset == (MapPosition { x: 24, y: 0 }) && r.hot_offset == (MapPosition { x: 40, y: 16 })
                && r.frame == 1,
            kind != SpriteType::Helicopter ==> final(rng).state() == old(rng).state(),
    {
        kind.init_sprite(
            rng,
            Self {
                kind,
                name,
                frame: 0,
                position,
                size: MapRectangle::new(0, 0),
                offset: MapPosition::new(0, 0),
                hot_offset: MapPosition::new(0, 0),
                origin: MapPosition::new(0, 0),
                destination: MapPosition::new(0, 0),
                count: 0,
                sound_count: 0,
                direction: 0,
                new_direction: 0,
                step: 0,
                flag: 0,
                control: -1,
                turn: 0,
                speed: 100,
                acceleration: 0,
            },
            max_pollution_at,
        )
    }

    /// Is the hot spot of the sprite over the world?
    pub fn is_in_bounds(&self, map: &TileMap) -> (r: bool)
        requires
            fits_i32(self.position.x + self.hot_offset.x),
            fits_i32(self.position.y + self.hot_offset.y),
        ensures
            r == (0 <= self.position.x + self.hot_offset.x < 1920 && 0 <= self.position.y
                + self.hot_offset.y < 1600),
    {
        let (x, y) = (self.position + self.hot_offset).as_tuple();
        x >= 0 && y >= 0 && x < 120 * 16 && y < 100 * 16
    }

    /// Do two active sprites have their hot spots close (closer than 30
    /// pixels, moving along the axes)?
    pub fn collides_with(&self, other: &Self) -> (r: bool)
        requires
            pixel_fits(self.position) && pixel_fits(self.hot_offset),
            pixel_fits(other.position) && pixel_fits(other.hot_offset),
            pixel_fits(moved(self.position, self.hot_offset.x as int, self.hot_offset.y as int)),
            pixel_fits(moved(other.position, other.hot_offset.x as int, other.hot_offset.y as int)),
        ensures
            r == (self.frame != 0 && other.frame != 0 && abs_int(
                (self.position.x + self.hot_offset.x) - (other.position.x + other.hot_offset.x),
            ) + abs_int(
                (self.position.y + self.hot_offset.y) - (other.position.y + other.hot_offset.y),
            ) < 30),
    {
        if self.frame == 0 || other.frame == 0 {
            return false;
        }
        let a = self.position + self.hot_offset;
        let b = other.position + other.hot_offset;
        a.distance_with(&b) < 30
    }

    /// Direction after one turn from the present direction towards the
    /// destination direction (directions 1 to 8).
    pub fn turn_towards(present_direction: usize, destination_direction: usize) -> (r: usize)
        requires
            present_direction < usize::MAX,
            present_direction < destination_direction && destination_direction
                - present_direction >= 4 ==> present_direction > 0,
        ensures
            r == turned(present_direction as int, destination_direction as int),
    {
        let (p, d) = (present_direction, destination_direction);
        if p == d {
            p
        } else if p < d {
            if (d - p) < 4 {
                p + 1
            } else {
                p - 1
            }
        } else if (p - d) < 4 {
            p - 1
        } else {
            p + 1
        }
    }
}

/// Is the sprite active and of the given type?
pub open spec fn active_of(s: Sprite, kind: SpriteType) -> bool {
    s.kind == kind && s.frame != 0
}

/// Index of the first active sprite of the type, if there is one.
pub open spec fn first_active(pool: Seq<Sprite>, kind: SpriteType) -> Option<int> {
    if exists|i: int| 0 <= i < pool.len() && active_of(#[trigger] pool[i], kind) {
        Some(choose|i: int|
            0 <= i < pool.len() && active_of(#[trigger] pool[i], kind) && forall|j: int|
                0 <= j < i ==> !active_of(#[trigger] pool[j], kind))
    } else {
        None
    }
}

/// The first active sprite of the type is active and of the type, and none
/// before it is.
pub proof fn lemma_first_active(pool: Seq<Sprite>, kind: SpriteType)
    ensures
        first_active(pool, kind) matches Some(i) ==> 0 <= i < pool.len() && active_of(
            pool[i],
            kind,
        ) && pool[i].kind == kind && forall|j: int| 0 <= j < i ==> !active_of(#[trigger] pool[j], kind),
{
    if exists|i: int| 0 <= i < pool.len() && active_of(#[trigger] pool[i], kind) {
        let k = choose|i: int| 0 <= i < pool.len() && active_of(#[trigger] pool[i], kind);
        lemma_minimal_active(pool, kind, k);
    }
}

/// An active sprite of the type has a first one before it.
proof fn lemma_minimal_active(pool: Seq<Sprite>, kind: SpriteType, k: int)
    requires
        0 <= k < pool.len(),
        active_of(pool[k], kind),
    ensures
        exists|i: int|
            0 <= i < pool.len() && active_of(#[trigger] pool[i], kind) && forall|j: int|
                0 <= j < i ==> !active_of(#[trigger] pool[j], kind),
    decreases k,
{
    if exists|j: int| 0 <= j < k && active_of(#[trigger] pool[j], kind) {
        let j = choose|j: int| 0 <= j < k && active_of(#[trigger] pool[j], kind);
        lemma_minimal_active(pool, kind, j);
    } else {
        assert(forall|j: int| 0 <= j < k ==> !active_of(#[trigger] pool[j], kind));
    }
}

/// Two sprites with the same fields (names compared by their text).
pub open spec fn same_sprite(a: Sprite, b: Sprite) -> bool {
    &&& a.kind == b.kind
    &&& a.name@ == b.name@
    &&& a.frame == b.frame
    &&& a.position == b.position
    &&& a.size == b.size
    &&& a.offset == b.offset
    &&& a.hot_offset == b.hot_offset
    &&& a.origin == b.origin
    &&& a.destination == b.destination
    &&& a.count == b.count
    &&& a.sound_count == b.sound_count
    &&& a.direction == b.direction
    &&& a.new_direction == b.new_direction
    &&& a.step == b.step
    &&& a.flag == b.flag
    &&& a.control == b.control
    &&& a.turn == b.turn
    &&& a.speed == b.speed
    &&& a.acceleration == b.acceleration
}

/// The sprites other than those with the same fields as `sprite`, in order.
pub open spec fn kept_sprites(s: Seq<Sprite>, sprite: Sprite) -> Seq<Sprite>
    decreases s.len(),
{
    if s.len() == 0 {
        s
    } else if same_sprite(s.last(), sprite) {
        kept_sprites(s.drop_last(), sprite)
    } else {
        kept_sprites(s.drop_last(), sprite).push(s.last())
    }
}

pub struct ActiveSpritesList {
    sprite_cycle: u16,
    pool: Vec<Sprite>,
}

impl ActiveSpritesList {
    /// Sprites of the list, active or not.
    pub closed spec fn sprites(&self) -> Seq<Sprite> {
        self.pool@
    }

    /// Sprite cycle counter.
    pub closed spec fn cycle(&self) -> u16 {
        self.sprite_cycle
    }

    pub fn new() -> (r: Self)
        ensures
            r.sprites() == Seq::<Sprite>::empty(),
            r.cycle() == 0,
    {
        Self { sprite_cycle: 0, pool: Vec::new() }
    }

    /// Add a new sprite to the pool.
    pub fn add_sprite(&mut self, sprite: Sprite)
        ensures
            final(self).sprites() == old(self).sprites().push(sprite),
            final(self).cycle() == old(self).cycle(),
    {
        self.pool.push(sprite);
    }

    /// Index of the first active sprite of the given type.
    fn find_active(&self, kind: &SpriteType) -> (r: Option<usize>)
        ensures
            r matches Some(i) ==> first_active(self.sprites(), *kind) == Some(i as int) && i
                < self.sprites().len(),
            r is None ==> first_active(self.sprites(), *kind) is None,
    {
        let mut i: usize = 0;
        while i < self.pool.len()
            invariant
                i <= self.pool@.len(),
                forall|j: int| 0 <= j < i ==> !active_of(#[trigger] self.pool@[j], *kind),
            decreases self.pool@.len() - i,
        {
            if self.pool[i].kind == *kind && self.pool[i].frame != 0 {
                proof {
                    let p = self.pool@;
                    assert(active_of(p[i as int], *kind));
                    let c = choose|k: int|
                        0 <= k < p.len() && active_of(#[trigger] p[k], *kind) && forall|j: int|
                            0 <= j < k ==> !active_of(#[trigger] p[j], *kind);
                    assert(0 <= c < p.len() && active_of(p[c], *kind) && forall|j: int|
                        0 <= j < c ==> !active_of(#[trigger] p[j], *kind));
                    if c < i {
                    } else if c > i {
                        assert(!active_of(p[i as int], *kind));
                    }
                }
                return Some(i);
            }
            i = i + 1;
        }
        None
    }

    /// Returns the sprite of the given type, if available and active.
    pub fn get_sprite(&self, kind: &SpriteType) -> (r: Option<&Sprite>)
        ensures
            match first_active(self.sprites(), *kind) {
                Some(i) => r == Some(&self.sprites()[i]),
                None => r is None,
            },
    {
        match self.find_active(kind) {
            Some(i) => Some(&self.pool[i]),
            None => None,
        }
    }

    /// Returns the mutable sprite of the given type, if available and active.
    pub fn get_sprite_mut(&mut self, kind: &SpriteType) -> (r: Option<&mut Sprite>)
        ensures
            first_active(old(self).sprites(), *kind) is None ==> r is None && *final(self) == *old(
                self,
            ),
            first_active(old(self).sprites(), *kind) is Some ==> r is Some && *r.unwrap()
                == old(self).sprites()[first_active(old(self).sprites(), *kind).unwrap()]
                && final(self).sprites() == old(self).sprites().update(
                first_active(old(self).sprites(), *kind).unwrap(),
                *final(r.unwrap()),
            ) && final(self).cycle() == old(self).cycle(),
    {
        match self.find_active(kind) {
            Some(i) => Some(&mut self.pool[i]),
            None => None,
        }
    }

    /// Set up again the first active sprite of the type, when there is one
    /// (see `SpriteType::init_sprite`); true when there was one.
    pub fn reinit_active(
        &mut self,
        rng: &mut MicropolisRandom,
        kind: &SpriteType,
        max_pollution_at: &MapPosition,
    ) -> (r: bool)
        requires
            first_active(old(self).sprites(), *kind) matches Some(i) ==> pixel_fits(
                old(self).sprites()[i].position,
            ),
        ensures
            r == first_active(old(self).sprites(), *kind) is Some,
            final(self).cycle() == old(self).cycle(),
            final(rng).creation_seed() == old(rng).creation_seed(),
            *kind != SpriteType::Helicopter ==> final(rng).state() == old(rng).state(),
            !r ==> *final(self) == *old(self) && *final(rng) == *old(rng),
            first_active(old(self).sprites(), *kind) matches Some(i) ==> {
                let s = final(self).sprites()[i];
                &&& final(self).sprites() == old(self).sprites().update(i, s)
                &&& s.kind == old(self).sprites()[i].kind
                &&& s.name == old(self).sprites()[i].name
                &&& s.frame != 0
                &&& s.control == old(self).sprites()[i].control
            },
    {
        match self.find_active(kind) {
            Some(i) => {
                let sprite = self.pool.remove(i);
                let sprite = kind.init_sprite(rng, sprite, max_pollution_at);
                self.pool.insert(i, sprite);
                proof {
                    assert(self.pool@ =~= old(self).pool@.update(i as int, sprite));
                }
                true
            },
            None => false,
        }
    }

    /// Send the first active sprite of the type, when nobody controls it, to
    /// the destination.
    pub fn direct_uncontrolled(&mut self, kind: &SpriteType, destination: MapPosition)
        ensures
            final(self).cycle() == old(self).cycle(),
            final(self).sprites() == match first_active(old(self).sprites(), *kind) {
                Some(i) => if old(self).sprites()[i].control == -1 {
                    old(self).sprites().update(i, Sprite { destination, ..old(self).sprites()[i] })
                } else {
                    old(self).sprites()
                },
                None => old(self).sprites(),
            },
    {
        if let Some(i) = self.find_active(kind) {
            if self.pool[i].control == -1 {
                self.pool[i].destination = destination;
            }
        }
    }

    /// Set the count of the first active sprite of the type; false when there
    /// is none.
    pub fn set_active_count(&mut self, kind: &SpriteType, count: u32) -> (r: bool)
        ensures
            r == first_active(old(self).sprites(), *kind) is Some,
            final(self).cycle() == old(self).cycle(),
            final(self).sprites() == match first_active(old(self).sprites(), *kind) {
                Some(i) => old(self).sprites().update(i, Sprite { count, ..old(self).sprites()[i] }),
                None => old(self).sprites(),
            },
    {
        if let Some(i) = self.find_active(kind) {
            self.pool[i].count = count;
            true
        } else {
            false
        }
    }

    /// Rouse the first active sprite of the type: its sound count set to 1,
    /// its count to 1000, heading to the destination; false when there is
    /// none.
    pub fn rouse_active(&mut self, kind: &SpriteType, destination: MapPosition) -> (r: bool)
        ensures
            r == first_active(old(self).sprites(), *kind) is Some,
            final(self).cycle() == old(self).cycle(),
            final(self).sprites() == match first_active(old(self).sprites(), *kind) {
                Some(i) => old(self).sprites().update(
                    i,
                    Sprite { sound_count: 1, count: 1000, destination, ..old(self).sprites()[i] },
                ),
                None => old(self).sprites(),
            },
    {
        if let Some(i) = self.find_active(kind) {
            self.pool[i].sound_count = 1;
            self.pool[i].count = 1000;
            self.pool[i].destination = destination;
            true
        } else {
            false
        }
    }

    /// Destroy all sprites by de-activating them all (by setting their `frame` to 0).
    pub fn destroy_all_sprites(&mut self)
        ensures
            final(self).sprites().len() == old(self).sprites().len(),
            forall|i: int|
                0 <= i < old(self).sprites().len() ==> #[trigger] final(self).sprites()[i] == (Sprite {
                    frame: 0,
                    ..old(self).sprites()[i]
                }),
            final(self).cycle() == old(self).cycle(),
    {
        let mut i: usize = 0;
        while i < self.pool.len()
            invariant
                i <= self.pool@.len(),
                self.pool@.len() == old(self).pool@.len(),
                forall|k: int| 0 <= k < i ==> #[trigger] self.pool@[k] == (Sprite {
                    frame: 0,
                    ..old(self).pool@[k]
                }),
                forall|k: int| i <= k < self.pool@.len() ==> #[trigger] self.pool@[k] == old(self).pool@[k],
                self.sprite_cycle == old(self).sprite_cycle,
            decreases self.pool@.len() - i,
        {
            self.pool[i].frame = 0;
            i = i + 1;
        }
    }

    /// Destroy the sprite by taking it out of the active list.
    ///
    /// Every sprite with the same fields is taken out.
    pub fn destroy_sprite(&mut self, sprite: &Sprite)
        ensures
            final(self).sprites() == kept_sprites(old(self).sprites(), *sprite),
            final(self).cycle() == old(self).cycle(),
    {
        let ghost pool_before = self.pool@;
        let ghost mut k: int = 0;
        let mut i: usize = 0;
        while i < self.pool.len()
            invariant
                0 <= k <= pool_before.len(),
                i == kept_sprites(pool_before.take(k), *sprite).len(),
                self.pool@ == kept_sprites(pool_before.take(k), *sprite) + pool_before.skip(k),
                self.sprite_cycle == old(self).sprite_cycle,
                pool_before == old(self).pool@,
            decreases pool_before.len() - k,
        {
            proof {
                assert(pool_before.take(k + 1).drop_last() =~= pool_before.take(k));
                assert(self.pool@[i as int] == pool_before[k]);
            }
            if Self::same_fields(&self.pool[i], sprite) {
                self.pool.remove(i);
                proof {
                    assert(self.pool@ =~= kept_sprites(pool_before.take(k + 1), *sprite) + pool_before.skip(k + 1));
                }
            } else {
                i = i + 1;
                proof {
                    assert(self.pool@ =~= kept_sprites(pool_before.take(k + 1), *sprite) + pool_before.skip(k + 1));
                }
            }
            proof {
                k = k + 1;
            }
        }
        proof {
            assert(pool_before.take(k) =~= pool_before);
            assert(self.pool@ =~= kept_sprites(pool_before, *sprite));
        }
    }

    /// Do the two sprites have the same fields?
    fn same_fields(a: &Sprite, b: &Sprite) -> (r: bool)
        ensures
            r == same_sprite(*a, *b),
    {
        a.kind == b.kind && a.name == b.name && a.frame == b.frame && a.position == b.position
            && a.size == b.size && a.offset == b.offset && a.hot_offset == b.hot_offset && a.origin
            == b.origin && a.destination == b.destination && a.count == b.count && a.sound_count
            == b.sound_count && a.direction == b.direction && a.new_direction == b.new_direction
            && a.step == b.step && a.flag == b.flag && a.control == b.control && a.turn == b.turn
            && a.speed == b.speed && a.acceleration == b.acceleration
    }
}

} // verus!
