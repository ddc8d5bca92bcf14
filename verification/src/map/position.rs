use vstd::prelude::*;
use vstd::std_specs::ops::{AddSpec, SubSpec};
use crate::utils::bits::lemma_u8_low_bits;

use crate::utils::random::{draw_bits, lcg_next, random16_at, trunc_rem, MicropolisRandom};

verus! {

const DIRECTION_GD_TAB: [usize; 13] = [0, 3, 2, 1, 3, 4, 5, 7, 6, 5, 7, 8, 1];

/// Represents a position on a 2D map.
///
/// Uses signed integers to allow for offsetting.
#[derive(Clone, Copy, Debug, PartialEq, Eq, Hash, Default, Structural)]
pub struct MapPosition {
    /// Horizontal position on the map.
    pub x: i32,
    /// Vertical position on the map.
    pub y: i32,
}

/// Does `v` fit in a 32-bit signed integer?
pub open spec fn fits_i32(v: int) -> bool {
    i32::MIN <= v <= i32::MAX
}

/// Absolute value.
pub open spec fn abs_int(v: int) -> int {
    if v < 0 {
        -v
    } else {
        v
    }
}

/// Sign of `v`, or `neutral` when `v` is zero.
pub open spec fn unit_of(v: int, neutral: int) -> int {
    if v > 0 {
        1
    } else if v < 0 {
        -1
    } else {
        neutral
    }
}

/// Index into the direction table for a displacement `(dx, dy)`.
pub open spec fn direction_table_index(dx: int, dy: int) -> int {
    let z = if dx < 0 {
        if dy < 0 {
            11int
        } else {
            8int
        }
    } else {
        if dy < 0 {
            2int
        } else {
            5int
        }
    };
    if abs_int(dx) * 2 < abs_int(dy) {
        z + 1
    } else {
        z
    }
}

/// Direction stored at a given index of the direction table (index 11 has none).
pub open spec fn direction_of_table_index(z: int) -> MapPositionOffset {
    if z == 0 {
        MapPositionOffset::North
    } else if z == 1 || z == 4 {
        MapPositionOffset::SouthEast
    } else if z == 2 {
        MapPositionOffset::East
    } else if z == 3 || z == 12 {
        MapPositionOffset::NorthEast
    } else if z == 5 {
        MapPositionOffset::South
    } else if z == 6 || z == 9 {
        MapPositionOffset::SouthWest
    } else if z == 7 || z == 10 {
        MapPositionOffset::NorthWest
    } else {
        MapPositionOffset::West
    }
}

impl MapPosition {
    pub fn new(x: i32, y: i32) -> (r: Self)
        ensures
            r.x == x && r.y == y,
    {
        Self { x, y }
    }

    /// A random position, each coordinate drawn in `[0, dimension]` with the
    /// dimension cast to a 16-bit signed integer.
    pub fn new_random(rng: &mut MicropolisRandom, bounds: &MapRectangle) -> (r: Self)
        requires
            bounds.width as i16 != -1,
            bounds.height as i16 != -1,
        ensures
            final(rng).state() == lcg_next(lcg_next(old(rng).state())),
            final(rng).creation_seed() == old(rng).creation_seed(),
            r.x == trunc_rem(draw_bits(lcg_next(old(rng).state())), bounds.width as i16 + 1),
            r.y == trunc_rem(draw_bits(final(rng).state()), bounds.height as i16 + 1),
    {
        let x = rng.get_random(bounds.width as i16) as i32;
        let y = rng.get_random(bounds.height as i16) as i32;
        Self { x, y }
    }

    pub fn get_x(&self) -> (r: i32)
        ensures
            r == self.x,
    {
        self.x
    }

    pub fn get_y(&self) -> (r: i32)
        ensures
            r == self.y,
    {
        self.y
    }

    pub fn set_x(&mut self, x: i32)
        ensures
            *final(self) == (MapPosition { x, y: old(self).y }),
    {
        self.x = x;
    }

    pub fn set_y(&mut self, y: i32)
        ensures
            *final(self) == (MapPosition { x: old(self).x, y }),
    {
        self.y = y;
    }

    pub fn as_tuple(&self) -> (r: (i32, i32))
        ensures
            r == (self.x, self.y),
    {
        (self.x, self.y)
    }

    pub fn with_offset(&self, offset_x: i8, offset_y: i8) -> (r: Self)
        requires
            fits_i32(self.x + offset_x),
            fits_i32(self.y + offset_y),
        ensures
            r.x == self.x + offset_x,
            r.y == self.y + offset_y,
    {
        Self { x: self.x + offset_x as i32, y: self.y + offset_y as i32 }
    }

    pub fn with_x_offset(&self, offset_x: i8) -> (r: Self)
        requires
            fits_i32(self.x + offset_x),
        ensures
            r.x == self.x + offset_x,
            r.y == self.y,
    {
        Self { x: self.x + offset_x as i32, y: self.y }
    }

    pub fn with_y_offset(&self, offset_y: i8) -> (r: Self)
        requires
            fits_i32(self.y + offset_y),
        ensures
            r.x == self.x,
            r.y == self.y + offset_y,
    {
        Self { x: self.x, y: self.y + offset_y as i32 }
    }

    /// Sign of each coordinate, with `neutral_value` for a zero coordinate.
    pub fn unitary(&self, neutral_value: i32) -> (r: MapPosition)
        ensures
            r.x == unit_of(self.x as int, neutral_value as int),
            r.y == unit_of(self.y as int, neutral_value as int),
    {
        Self {
            x: if self.x > 0 {
                1
            } else if self.x < 0 {
                -1
            } else {
                neutral_value
            },
            y: if self.y > 0 {
                1
            } else if self.y < 0 {
                -1
            } else {
                neutral_value
            },
        }
    }

    pub fn absolute(&self) -> (r: MapPosition)
        requires
            self.x != i32::MIN,
            self.y != i32::MIN,
        ensures
            r.x == abs_int(self.x as int),
            r.y == abs_int(self.y as int),
    {
        Self {
            x: if self.x < 0 {
                -self.x
            } else {
                self.x
            },
            y: if self.y < 0 {
                -self.y
            } else {
                self.y
            },
        }
    }

    pub fn minimum_axis(&self) -> (r: i32)
        ensures
            r == if self.x <= self.y {
                self.x
            } else {
                self.y
            },
    {
        if self.x <= self.y {
            self.x
        } else {
            self.y
        }
    }

    pub fn maximum_axis(&self) -> (r: i32)
        ensures
            r == if self.x >= self.y {
                self.x
            } else {
                self.y
            },
    {
        if self.x >= self.y {
            self.x
        } else {
            self.y
        }
    }

    pub fn axis_equalities_with(&self, other: &MapPosition) -> (r: (bool, bool))
        ensures
            r == (self.x == other.x, self.y == other.y),
    {
        (self.x == other.x, self.y == other.y)
    }

    /// Compute the Manhattan distance between the two positions.
    pub fn distance_with(&self, other: &MapPosition) -> (r: u32)
        requires
            fits_i32(self.x - other.x) && self.x - other.x != i32::MIN,
            fits_i32(self.y - other.y) && self.y - other.y != i32::MIN,
            fits_i32(abs_int(self.x - other.x) + abs_int(self.y - other.y)),
        ensures
            r == abs_int(self.x - other.x) + abs_int(self.y - other.y),
    {
        let diff = (*self - *other).absolute();
        (diff.x + diff.y) as u32
    }

    /// Compute the distance & direction to get from this position to the given destination.
    pub fn direction_towards(&self, destination: &MapPosition) -> (r: (u32, MapPositionOffset))
        requires
            fits_i32(destination.x - self.x) && destination.x - self.x != i32::MIN,
            fits_i32(destination.y - self.y) && destination.y - self.y != i32::MIN,
            fits_i32(2 * abs_int(destination.x - self.x)),
            fits_i32(2 * abs_int(destination.y - self.y)),
            fits_i32(abs_int(destination.x - self.x) + abs_int(destination.y - self.y)),
            direction_table_index(destination.x - self.x, destination.y - self.y) != 11,
        ensures
            r.0 == abs_int(destination.x - self.x) + abs_int(destination.y - self.y),
            r.1 == direction_of_table_index(
                direction_table_index(destination.x - self.x, destination.y - self.y),
            ),
    {
        let diff = *destination - *self;
        let mut z: usize = if diff.x < 0 {
            if diff.y < 0 {
                11
            } else {
                8
            }
        } else {
            if diff.y < 0 {
                2
            } else {
                5
            }
        };

        let (diff_x, diff_y) = diff.absolute().as_tuple();
        z = if diff_x * 2 < diff_y {
            z + 1
        } else if diff_y * 2 < diff_y {
            z - 1
        } else if z > 12 {
            0
        } else {
            z
        };

        let direction_index = DIRECTION_GD_TAB[z];
        ((diff_x + diff_y) as u32, direction_at(direction_index))
    }

    pub fn add_assign(&mut self, rhs: MapPosition)
        requires
            fits_i32(old(self).x + rhs.x),
            fits_i32(old(self).y + rhs.y),
        ensures
            final(self).x == old(self).x + rhs.x,
            final(self).y == old(self).y + rhs.y,
    {
        self.x = self.x + rhs.x;
        self.y = self.y + rhs.y;
    }

    pub fn sub_assign(&mut self, rhs: MapPosition)
        requires
            fits_i32(old(self).x - rhs.x),
            fits_i32(old(self).y - rhs.y),
        ensures
            final(self).x == old(self).x - rhs.x,
            final(self).y == old(self).y - rhs.y,
    {
        self.x = self.x - rhs.x;
        self.y = self.y - rhs.y;
    }
}

/// Direction at the given index of `MAP_POSITION_DIRECTIONS`.
pub fn direction_at(index: usize) -> (r: MapPositionOffset)
    requires
        index < 8,
    ensures
        r == MAP_POSITION_DIRECTIONS@[index as int],
{
    MAP_POSITION_DIRECTIONS[index]
}

impl core::ops::Add for MapPosition {
    type Output = Self;

    fn add(self, other: Self) -> (r: Self::Output) {
        Self { x: self.x + other.x, y: self.y + other.y }
    }
}

impl vstd::std_specs::ops::AddSpecImpl for MapPosition {
    open spec fn obeys_add_spec() -> bool {
        true
    }

    open spec fn add_req(self, rhs: MapPosition) -> bool {
        fits_i32(self.x + rhs.x) && fits_i32(self.y + rhs.y)
    }

    open spec fn add_spec(self, rhs: MapPosition) -> MapPosition {
        MapPosition { x: (self.x + rhs.x) as i32, y: (self.y + rhs.y) as i32 }
    }
}

impl core::ops::Sub for MapPosition {
    type Output = Self;

    fn sub(self, other: Self) -> (r: Self::Output) {
        Self { x: self.x - other.x, y: self.y - other.y }
    }
}

impl vstd::std_specs::ops::SubSpecImpl for MapPosition {
    open spec fn obeys_sub_spec() -> bool {
        true
    }

    open spec fn sub_req(self, rhs: MapPosition) -> bool {
        fits_i32(self.x - rhs.x) && fits_i32(self.y - rhs.y)
    }

    open spec fn sub_spec(self, rhs: MapPosition) -> MapPosition {
        MapPosition { x: (self.x - rhs.x) as i32, y: (self.y - rhs.y) as i32 }
    }
}

/// Subtracting a position undoes adding it, and adding positions does not
/// depend on their order.
pub proof fn law_add_sub(a: MapPosition, b: MapPosition)
    requires
        fits_i32(a.x + b.x),
        fits_i32(a.y + b.y),
    ensures
        SubSpec::sub_spec(AddSpec::add_spec(a, b), b) == a,
        AddSpec::add_spec(a, b) == AddSpec::add_spec(b, a),
        SubSpec::sub_req(AddSpec::add_spec(a, b), b),
{
}

impl core::ops::Mul<i32> for MapPosition {
    type Output = Self;

    fn mul(self, rhs: i32) -> (r: Self::Output) {
        Self { x: self.x * rhs, y: self.y * rhs }
    }
}

impl vstd::std_specs::ops::MulSpecImpl<i32> for MapPosition {
    open spec fn obeys_mul_spec() -> bool {
        true
    }

    open spec fn mul_req(self, rhs: i32) -> bool {
        fits_i32(self.x * rhs) && fits_i32(self.y * rhs)
    }

    open spec fn mul_spec(self, rhs: i32) -> MapPosition {
        MapPosition { x: (self.x * rhs) as i32, y: (self.y * rhs) as i32 }
    }
}

/// Quotient of the truncated division, for a positive divisor.
pub open spec fn trunc_div_pos(a: int, b: int) -> int {
    if a >= 0 {
        a / b
    } else {
        -((-a) / b)
    }
}

impl core::ops::Div<i32> for MapPosition {
    type Output = Self;

    fn div(self, rhs: i32) -> (r: Self::Output) {
        Self { x: self.x / rhs, y: self.y / rhs }
    }
}

impl vstd::std_specs::ops::DivSpecImpl<i32> for MapPosition {
    open spec fn obeys_div_spec() -> bool {
        true
    }

    open spec fn div_req(self, rhs: i32) -> bool {
        rhs > 0
    }

    open spec fn div_spec(self, rhs: i32) -> MapPosition {
        MapPosition {
            x: trunc_div_pos(self.x as int, rhs as int) as i32,
            y: trunc_div_pos(self.y as int, rhs as int) as i32,
        }
    }
}

impl core::ops::Shl<usize> for MapPosition {
    type Output = Self;

    fn shl(self, rhs: usize) -> (r: Self::Output) {
        Self { x: self.x << rhs, y: self.y << rhs }
    }
}

impl vstd::std_specs::ops::ShlSpecImpl<usize> for MapPosition {
    open spec fn obeys_shl_spec() -> bool {
        true
    }

    open spec fn shl_req(self, rhs: usize) -> bool {
        rhs < 32
    }

    open spec fn shl_spec(self, rhs: usize) -> MapPosition {
        MapPosition { x: self.x << rhs, y: self.y << rhs }
    }
}

impl core::ops::Shr<usize> for MapPosition {
    type Output = Self;

    fn shr(self, rhs: usize) -> (r: Self::Output) {
        Self { x: self.x >> rhs, y: self.y >> rhs }
    }
}

impl vstd::std_specs::ops::ShrSpecImpl<usize> for MapPosition {
    open spec fn obeys_shr_spec() -> bool {
        true
    }

    open spec fn shr_req(self, rhs: usize) -> bool {
        rhs < 32
    }

    open spec fn shr_spec(self, rhs: usize) -> MapPosition {
        MapPosition { x: self.x >> rhs, y: self.y >> rhs }
    }
}

impl From<(i32, i32)> for MapPosition {
    fn from(val: (i32, i32)) -> (r: Self) {
        MapPosition { x: val.0, y: val.1 }
    }
}

impl vstd::std_specs::convert::FromSpecImpl<(i32, i32)> for MapPosition {
    open spec fn obeys_from_spec() -> bool {
        true
    }

    open spec fn from_spec(val: (i32, i32)) -> MapPosition {
        MapPosition { x: val.0, y: val.1 }
    }
}

impl From<(i16, i16)> for MapPosition {
    fn from(val: (i16, i16)) -> (r: Self) {
        MapPosition { x: val.0 as i32, y: val.1 as i32 }
    }
}

impl vstd::std_specs::convert::FromSpecImpl<(i16, i16)> for MapPosition {
    open spec fn obeys_from_spec() -> bool {
        true
    }

    open spec fn from_spec(val: (i16, i16)) -> MapPosition {
        MapPosition { x: val.0 as i32, y: val.1 as i32 }
    }
}

impl From<(usize, usize)> for MapPosition {
    fn from(val: (usize, usize)) -> (r: Self) {
        MapPosition { x: val.0 as i32, y: val.1 as i32 }
    }
}

impl vstd::std_specs::convert::FromSpecImpl<(usize, usize)> for MapPosition {
    open spec fn obeys_from_spec() -> bool {
        true
    }

    open spec fn from_spec(val: (usize, usize)) -> MapPosition {
        MapPosition { x: val.0 as i32, y: val.1 as i32 }
    }
}

/// Describes the width and height of a rectangle section of a Metropolis city.
#[derive(Clone, Copy, Debug, PartialEq, Eq, Structural)]
pub struct MapRectangle {
    pub width: usize,
    pub height: usize,
}

impl MapRectangle {
    pub fn new(width: usize, height: usize) -> (r: Self)
        ensures
            r.width == width && r.height == height,
    {
        MapRectangle { width, height }
    }

    pub fn get_width(&self) -> (r: usize)
        ensures
            r == self.width,
    {
        self.width
    }

    pub fn get_height(&self) -> (r: usize)
        ensures
            r == self.height,
    {
        self.height
    }

    /// Width and height, each cast to a 32-bit signed integer.
    pub fn get_tuple(&self) -> (r: (i32, i32))
        ensures
            r == (self.width as i32, self.height as i32),
    {
        (self.width as i32, self.height as i32)
    }

    pub fn is_inside(&self, position: &MapPosition) -> (r: bool)
        ensures
            r == (0 <= position.x && position.x < self.width as i32 && 0 <= position.y
                && position.y < self.height as i32),
    {
        0 <= position.x && position.x < self.width as i32 && 0 <= position.y && position.y
            < self.height as i32
    }

    /// True as soon as one of the four sides of the area at `top_left` of the
    /// given size is on the inner side of the matching border of the rectangle.
    pub fn is_contained(&self, top_left: &MapPosition, size: &Self) -> (r: bool)
        requires
            fits_i32(top_left.x + size.width as i32),
            fits_i32(top_left.y + size.height as i32),
        ensures
            r == (top_left.x >= 0 || top_left.x + size.width as i32 <= self.width as i32
                || top_left.y >= 0 || top_left.y + size.height as i32 <= self.height as i32),
    {
        let (width, height) = (size.width as i32, size.height as i32);
        top_left.x >= 0 || top_left.x + width <= self.width as i32 || top_left.y >= 0 || top_left.y
            + height <= self.height as i32
    }
}

impl From<(usize, usize)> for MapRectangle {
    fn from(val: (usize, usize)) -> (r: Self) {
        MapRectangle::new(val.0, val.1)
    }
}

impl vstd::std_specs::convert::FromSpecImpl<(usize, usize)> for MapRectangle {
    open spec fn obeys_from_spec() -> bool {
        true
    }

    open spec fn from_spec(val: (usize, usize)) -> MapRectangle {
        MapRectangle { width: val.0, height: val.1 }
    }
}

/// Describes a tile position relative to an adjacent tile.
#[derive(Clone, Copy, Debug, PartialEq, Eq, Structural)]
pub enum MapPositionOffset {
    NoDirection,
    NorthWest,
    North,
    NorthEast,
    East,
    SouthEast,
    South,
    SouthWest,
    West,
}

pub const MAP_POSITION_DIRECTIONS: [MapPositionOffset; 8] = [
    MapPositionOffset::North,
    MapPositionOffset::NorthEast,
    MapPositionOffset::East,
    MapPositionOffset::SouthEast,
    MapPositionOffset::South,
    MapPositionOffset::SouthWest,
    MapPositionOffset::West,
    MapPositionOffset::NorthWest,
];

/// Direction with the given number (1 for North, then clockwise up to 8 for
/// North-West, 0 for none).
pub open spec fn direction_of_code(code: int) -> MapPositionOffset {
    if code == 1 {
        MapPositionOffset::North
    } else if code == 2 {
        MapPositionOffset::NorthEast
    } else if code == 3 {
        MapPositionOffset::East
    } else if code == 4 {
        MapPositionOffset::SouthEast
    } else if code == 5 {
        MapPositionOffset::South
    } else if code == 6 {
        MapPositionOffset::SouthWest
    } else if code == 7 {
        MapPositionOffset::West
    } else if code == 8 {
        MapPositionOffset::NorthWest
    } else {
        MapPositionOffset::NoDirection
    }
}

impl MapPositionOffset {
    /// The direction turned clockwise by `eighths` eighths of a turn (no
    /// direction stays no direction).
    pub open spec fn rotated(self, eighths: int) -> MapPositionOffset {
        if self == MapPositionOffset::NoDirection {
            MapPositionOffset::NoDirection
        } else {
            direction_of_code(1 + ((self.code() - 1 + eighths) % 8))
        }
    }

    /// Turning clockwise by `a` then by `b` eighths is turning by `a + b`
    /// eighths; a whole turn gives back the direction; a half turn reverses
    /// the displacement.
    pub proof fn law_rotations(self, a: int, b: int)
        requires
            a >= 0,
            b >= 0,
        ensures
            self.rotated(a).rotated(b) == self.rotated(a + b),
            self.rotated(8) == self,
            self.rotated(0) == self,
            self.rotated(4).delta().0 == -self.delta().0,
            self.rotated(4).delta().1 == -self.delta().1,
    {
        if self != MapPositionOffset::NoDirection {
            let k = (self.code() - 1 + a) % 8;
            assert(self.rotated(a).code() == 1 + k);
            assert((k + b) % 8 == (self.code() - 1 + a + b) % 8) by {
                vstd::arithmetic::div_mod::lemma_add_mod_noop(self.code() - 1 + a, b, 8);
                vstd::arithmetic::div_mod::lemma_mod_twice(self.code() - 1 + a, 8);
                vstd::arithmetic::div_mod::lemma_add_mod_noop(k, b, 8);
            }
        }
    }

    /// Number of the direction: 1 for North, then clockwise up to 8 for
    /// North-West, 0 for none.
    pub open spec fn code(self) -> int {
        match self {
            MapPositionOffset::NoDirection => 0,
            MapPositionOffset::NorthWest => 8,
            MapPositionOffset::North => 1,
            MapPositionOffset::NorthEast => 2,
            MapPositionOffset::East => 3,
            MapPositionOffset::SouthEast => 4,
            MapPositionOffset::South => 5,
            MapPositionOffset::SouthWest => 6,
            MapPositionOffset::West => 7,
        }
    }

    /// Horizontal and vertical displacement of the direction.
    pub open spec fn delta(self) -> (int, int) {
        match self {
            MapPositionOffset::NoDirection => (0, 0),
            MapPositionOffset::NorthWest => (-1, -1),
            MapPositionOffset::North => (0, -1),
            MapPositionOffset::NorthEast => (1, -1),
            MapPositionOffset::East => (1, 0),
            MapPositionOffset::SouthEast => (1, 1),
            MapPositionOffset::South => (0, 1),
            MapPositionOffset::SouthWest => (-1, 1),
            MapPositionOffset::West => (-1, 0),
        }
    }

    /// Apply the relative position offset of this instance to an absolute position.
    pub fn apply(&self, position: &MapPosition) -> (r: MapPosition)
        requires
            fits_i32(position.x + self.delta().0),
            fits_i32(position.y + self.delta().1),
        ensures
            r.x == position.x + self.delta().0,
            r.y == position.y + self.delta().1,
    {
        let (offset_x, offset_y) = self.offset();
        MapPosition { x: position.x + offset_x as i32, y: position.y + offset_y as i32 }
    }

    /// Apply the relative position offset of this instance to an absolute position,
    /// constrained to the given bounds.
    pub fn apply_with_bounds(&self, position: &MapPosition, bounds: &MapRectangle) -> (r: Option<
        MapPosition,
    >)
        requires
            fits_i32(position.x + self.delta().0),
            fits_i32(position.y + self.delta().1),
        ensures
            ({
                let ax = position.x + self.delta().0;
                let ay = position.y + self.delta().1;
                if 0 <= ax < bounds.width as i32 && 0 <= ay < bounds.height as i32 {
                    r == Some(MapPosition { x: ax as i32, y: ay as i32 })
                } else {
                    r is None
                }
            }),
    {
        let applied = self.apply(position);
        if 0 <= applied.x && applied.x < bounds.width as i32 && 0 <= applied.y && applied.y
            < bounds.height as i32 {
            Some(applied)
        } else {
            None
        }
    }

    /// Get the relative position offset described by this instance.
    pub fn offset(&self) -> (r: (i8, i8))
        ensures
            r.0 == self.delta().0,
            r.1 == self.delta().1,
    {
        match self {
            MapPositionOffset::NoDirection => (0, 0),
            MapPositionOffset::NorthWest => (-1, -1),
            MapPositionOffset::North => (0, -1),
            MapPositionOffset::NorthEast => (1, -1),
            MapPositionOffset::East => (1, 0),
            MapPositionOffset::SouthEast => (1, 1),
            MapPositionOffset::South => (0, 1),
            MapPositionOffset::SouthWest => (-1, 1),
            MapPositionOffset::West => (-1, 0),
        }
    }

    /// Number of the direction.
    fn number(&self) -> (r: u8)
        ensures
            r == self.code(),
    {
        match self {
            MapPositionOffset::NoDirection => 0,
            MapPositionOffset::NorthWest => 8,
            MapPositionOffset::North => 1,
            MapPositionOffset::NorthEast => 2,
            MapPositionOffset::East => 3,
            MapPositionOffset::SouthEast => 4,
            MapPositionOffset::South => 5,
            MapPositionOffset::SouthWest => 6,
            MapPositionOffset::West => 7,
        }
    }

    /// Get the direction rotated by 45 degrees clock-wise.
    pub fn rotated_45(&self) -> (r: MapPositionOffset)
        requires
            *self != MapPositionOffset::NoDirection,
        ensures
            r.code() == 1 + (self.code() % 8),
            r == self.rotated(1),
    {
        self.rotated_45_times(1)
    }

    /// Get the direction rotated by 45 degrees `count` times.
    pub fn rotated_45_times(&self, count: u8) -> (r: MapPositionOffset)
        requires
            *self != MapPositionOffset::NoDirection,
            self.code() - 1 + count <= u8::MAX,
        ensures
            r.code() == 1 + ((self.code() - 1 + count) % 8),
            r == direction_of_code(1 + ((self.code() - 1 + count) % 8)),
            r == self.rotated(count as int),
    {
        let direction_number = self.number();
        let n = (direction_number - 1 + count) & 7;
        proof {
            let v = (direction_number - 1 + count) as u8;
            lemma_u8_low_bits(v);
        }
        match 1 + n {
            1 => MapPositionOffset::North,
            2 => MapPositionOffset::NorthEast,
            3 => MapPositionOffset::East,
            4 => MapPositionOffset::SouthEast,
            5 => MapPositionOffset::South,
            6 => MapPositionOffset::SouthWest,
            7 => MapPositionOffset::West,
            _ => MapPositionOffset::NorthWest,
        }
    }

    /// Get the direction rotated by 90 degrees clock-wise.
    pub fn rotated_90(&self) -> (r: MapPositionOffset)
        ensures
            *self == MapPositionOffset::NoDirection ==> r == MapPositionOffset::NoDirection,
            *self != MapPositionOffset::NoDirection ==> r.code() == 1 + ((self.code() + 1) % 8),
            r == self.rotated(2),
    {
        match self {
            MapPositionOffset::NoDirection => MapPositionOffset::NoDirection,
            MapPositionOffset::NorthWest => MapPositionOffset::NorthEast,
            MapPositionOffset::North => MapPositionOffset::East,
            MapPositionOffset::NorthEast => MapPositionOffset::SouthEast,
            MapPositionOffset::East => MapPositionOffset::South,
            MapPositionOffset::SouthEast => MapPositionOffset::SouthWest,
            MapPositionOffset::South => MapPositionOffset::West,
            MapPositionOffset::SouthWest => MapPositionOffset::NorthWest,
            MapPositionOffset::West => MapPositionOffset::North,
        }
    }

    /// Get the direction rotated by 180 degrees clock-wise.
    pub fn rotated_180(&self) -> (r: MapPositionOffset)
        ensures
            *self == MapPositionOffset::NoDirection ==> r == MapPositionOffset::NoDirection,
            *self != MapPositionOffset::NoDirection ==> r.code() == 1 + ((self.code() + 3) % 8),
            r.delta().0 == -self.delta().0,
            r.delta().1 == -self.delta().1,
            r == self.rotated(4),
    {
        match self {
            MapPositionOffset::NoDirection => MapPositionOffset::NoDirection,
            MapPositionOffset::NorthWest => MapPositionOffset::SouthEast,
            MapPositionOffset::North => MapPositionOffset::South,
            MapPositionOffset::NorthEast => MapPositionOffset::SouthWest,
            MapPositionOffset::East => MapPositionOffset::West,
            MapPositionOffset::SouthEast => MapPositionOffset::NorthWest,
            MapPositionOffset::South => MapPositionOffset::North,
            MapPositionOffset::SouthWest => MapPositionOffset::NorthEast,
            MapPositionOffset::West => MapPositionOffset::East,
        }
    }

    /// Direction with the given number (0 for none, 1 for North, ... 8 for North-West).
    pub fn from_usize(value: usize) -> (r: Option<Self>)
        ensures
            value <= 8 ==> r == Some(direction_of_code(value as int)),
            value > 8 ==> r is None,
    {
        match value {
            0 => Some(MapPositionOffset::NoDirection),
            1 => Some(MapPositionOffset::North),
            2 => Some(MapPositionOffset::NorthEast),
            3 => Some(MapPositionOffset::East),
            4 => Some(MapPositionOffset::SouthEast),
            5 => Some(MapPositionOffset::South),
            6 => Some(MapPositionOffset::SouthWest),
            7 => Some(MapPositionOffset::West),
            8 => Some(MapPositionOffset::NorthWest),
            _ => None,
        }
    }

    /// Number of the direction, `None` for no direction.
    pub fn to_usize(&self) -> (r: Option<usize>)
        ensures
            *self == MapPositionOffset::NoDirection ==> r is None,
            *self != MapPositionOffset::NoDirection ==> r == Some(self.code() as usize),
    {
        match self {
            MapPositionOffset::NoDirection => None,
            _ => Some(self.number() as usize),
        }
    }

    pub fn is_cardinal(&self) -> (r: bool)
        ensures
            r == (*self == MapPositionOffset::North || *self == MapPositionOffset::East || *self
                == MapPositionOffset::South || *self == MapPositionOffset::West),
    {
        match self {
            MapPositionOffset::North | MapPositionOffset::East | MapPositionOffset::South
            | MapPositionOffset::West => true,
            _ => false,
        }
    }
}

} // verus!
