use std::rc::Rc;

use vstd::prelude::*;

use super::buildings::BuildingInfo;
use super::tiles_type::{tile_type_of, TileType, WOODS_HIGH, WOODS_LOW};
use crate::utils::bits::{lemma_u16_tile_bits, lemma_u16_type_bits_pair};

verus! {

/// Static description of a kind of tile.
#[derive(Clone, Debug)]
pub struct TileSpec {
    name: String,
    bulldozable: bool,
    burnable: bool,
    conductive: bool,
    over_water: bool,
    zone: bool,
    building_info: Option<BuildingInfo>,
    parent: Option<Rc<TileSpec>>,
    parent_offset_x: Option<i8>,
    parent_offset_y: Option<i8>,
    images_keys: Vec<String>,
}

impl TileSpec {
    pub closed spec fn name_of(&self) -> String {
        self.name
    }

    pub closed spec fn flags(&self) -> (bool, bool, bool, bool) {
        (self.bulldozable, self.burnable, self.conductive, self.over_water)
    }

    pub closed spec fn building_info_of(&self) -> Option<BuildingInfo> {
        self.building_info
    }

    pub fn get_name(&self) -> (r: &String)
        ensures
            *r == self.name_of(),
    {
        &self.name
    }

    pub fn can_bulldoze(&self) -> (r: bool)
        ensures
            r == self.flags().0,
    {
        self.bulldozable
    }

    pub fn can_burn(&self) -> (r: bool)
        ensures
            r == self.flags().1,
    {
        self.burnable
    }

    pub fn can_conduct(&self) -> (r: bool)
        ensures
            r == self.flags().2,
    {
        self.conductive
    }

    pub fn is_over_water(&self) -> (r: bool)
        ensures
            r == self.flags().3,
    {
        self.over_water
    }

    pub fn get_building_info(&self) -> (r: &Option<BuildingInfo>)
        ensures
            *r == self.building_info_of(),
    {
        &self.building_info
    }
}

/// The tile has power if bit 15 is set.
pub const TILE_POWER_BIT: u16 = 0b_1000_0000_0000_0000;
/// The tile conducts electricity if bit 14 is set.
pub const TILE_CONDUCT_BIT: u16 = 0b_0100_0000_0000_0000;
/// The tile is burnable if bit 13 is set.
pub const TILE_BURN_BIT: u16 = 0b_0010_0000_0000_0000;
/// The tile is bulldozable if bit 12 is set.
pub const TILE_BULL_BIT: u16 = 0b_0001_0000_0000_0000;
/// Burnable and bulldozable bits.
pub const TILE_BURN_BULL_BIT: u16 = 0x3000;
/// Conductive, burnable and bulldozable bits.
pub const TILE_BURN_BULL_CONDUCT_BIT: u16 = 0x7000;
/// The tile is animated if bit 11 is set.
pub const TILE_ANIM_BIT: u16 = 0b_0000_1000_0000_0000;
/// The tile is the center of its zone if bit 10 is set.
pub const TILE_ZONE_BIT: u16 = 0b_0000_0100_0000_0000;
/// Bulldozable and burnable bits.
pub const TILE_BLBNBIT_MASK: u16 = 0x3000;
/// Bits containing the type of the tile.
pub const TILE_TYPE_MASK: u16 = 0b_0000_0011_1111_1111;
/// Bits containing the status of the tile.
pub const TILE_STATUS_MASK: u16 = 0xFC00;
/// Mask for the bits-part of the tile.
pub const TILE_ALL_BITS: u16 = 0xFC00;
/// Mask for the `MapTileCharacters` part of the tile.
pub const TILE_LOW_MASK: u16 = 0x03ff;

/// Type part (the low 10 bits) of a raw tile value.
pub open spec fn type_bits(raw: u16) -> u16 {
    raw & 0x03ffu16
}

/// A tile of the map: a raw 16-bit value (type and status bits) and its cached type.
#[derive(Clone, Copy, Debug, PartialEq, Eq, Structural)]
pub struct Tile {
    /// Raw integer describing the type and status of the tile.
    raw: u16,
    /// Cached tile type value.
    tile_type: Option<TileType>,
}

impl Tile {
    /// Raw integer value of the tile.
    pub closed spec fn raw(self) -> u16 {
        self.raw
    }

    /// Cached type of the tile.
    pub closed spec fn kind(self) -> Option<TileType> {
        self.tile_type
    }

    /// The cached type is the type of the type bits of the raw value.
    pub open spec fn wf(self) -> bool {
        self.kind() == tile_type_of(type_bits(self.raw()) as int)
    }

    /// The tile with the given raw value.
    pub open spec fn of_raw(raw: u16) -> Tile {
        choose|t: Tile| t.raw() == raw && t.wf()
    }

    /// The tile of a raw value has that raw value and is well formed.
    pub proof fn lemma_of_raw_value(raw: u16)
        ensures
            Tile::of_raw(raw).raw() == raw,
            Tile::of_raw(raw).wf(),
    {
        let w = Tile { raw, tile_type: tile_type_of(type_bits(raw) as int) };
        assert(w.raw() == raw && w.wf());
    }

    /// Two tiles are equal when their raw values and cached types are equal.
    pub proof fn lemma_ext_equal(a: Tile, b: Tile)
        requires
            a.raw() == b.raw(),
            a.kind() == b.kind(),
        ensures
            a == b,
    {
    }

    /// A well-formed tile is the tile of its raw value.
    pub proof fn lemma_of_raw(t: Tile)
        requires
            t.wf(),
        ensures
            Tile::of_raw(t.raw()) == t,
    {
        let c = Tile::of_raw(t.raw());
        assert(c.raw() == t.raw() && c.wf());
    }

    pub fn from_raw(raw: u16) -> (r: Result<Self, String>)
        ensures
            r matches Ok(t) && t.raw() == raw && t.wf(),
    {
        Ok(Self { raw, tile_type: TileType::from_u16(raw & TILE_TYPE_MASK) })
    }

    pub fn from_type(tile_type: TileType) -> (r: Result<Self, String>)
        ensures
            tile_type == TileType::Invalid <==> r is Err,
            r matches Ok(t) ==> t.raw() as int == tile_type.code() && t.kind() == Some(tile_type)
                && t.wf(),
    {
        match tile_type.to_u16() {
            None => Err(String::from_str("Tile::from_type invalid type")),
            Some(raw) => {
                proof {
                    lemma_u16_tile_bits(raw);
                    lemma_type_of_code(tile_type);
                }
                Ok(Tile { raw, tile_type: Some(tile_type) })
            },
        }
    }

    pub fn get_raw(&self) -> (r: u16)
        ensures
            r == self.raw(),
    {
        self.raw
    }

    pub fn set_raw(&mut self, raw: u16)
        ensures
            final(self).raw() == raw,
            final(self).wf(),
    {
        self.tile_type = TileType::from_u16(raw & TILE_TYPE_MASK);
        self.raw = raw;
    }

    pub fn get_type(&self) -> (r: &Option<TileType>)
        ensures
            *r == self.kind(),
    {
        &self.tile_type
    }

    pub fn set_type(&mut self, tile_type: TileType) -> (r: Result<(), String>)
        ensures
            tile_type == TileType::Invalid <==> r is Err,
            r is Err ==> *final(self) == *old(self),
            r is Ok ==> final(self).raw() == (old(self).raw() & TILE_STATUS_MASK) | (
            tile_type.code() as u16) && final(self).kind() == Some(tile_type),
            r is Ok && old(self).wf() ==> final(self).wf(),
    {
        let type_raw = match tile_type.to_u16() {
            None => {
                return Err(String::from_str("Tile.set_type cannot cast type to raw"));
            },
            Some(v) => v,
        };
        let status_raw = self.raw & TILE_STATUS_MASK;
        proof {
            let old_raw = self.raw;
            lemma_u16_type_bits_pair(old_raw, type_raw);
            lemma_type_of_code(tile_type);
        }
        self.raw = status_raw | type_raw;
        self.tile_type = Some(tile_type);
        Ok(())
    }

    pub fn get_type_raw(&self) -> (r: u16)
        ensures
            r == type_bits(self.raw()),
            r <= 0x03ff,
    {
        proof {
            let raw = self.raw;
            lemma_u16_tile_bits(raw);
        }
        self.raw & TILE_TYPE_MASK
    }

    /// Replace the type bits: the new raw value keeps only those of the old
    /// raw value's bits that are set in the new (masked) type bits, so the
    /// status bits are cleared.
    pub fn set_type_raw(&mut self, type_raw: u16)
        ensures
            final(self).raw() == old(self).raw() & (type_raw & TILE_TYPE_MASK),
            final(self).raw() & TILE_STATUS_MASK == 0,
            final(self).kind() == tile_type_of((type_raw & TILE_TYPE_MASK) as int),
    {
        let type_raw_filtered = type_raw & TILE_TYPE_MASK;
        let status_raw = self.raw | TILE_STATUS_MASK;
        proof {
            let r = self.raw;
            lemma_u16_type_bits_pair(r, type_raw);
            assert((r & (type_raw & 0x03ffu16)) & 0xFC00u16 == 0) by (bit_vector);
        }
        self.raw = status_raw & type_raw_filtered;
        self.tile_type = TileType::from_u16(type_raw_filtered);
    }

    pub fn is_dirt(&self) -> (r: bool)
        ensures
            r == (self.kind() == Some(TileType::Dirt)),
    {
        match self.tile_type {
            Some(TileType::Dirt) => true,
            _ => false,
        }
    }

    pub fn is_tree(&self) -> (r: bool)
        ensures
            r == (WOODS_LOW <= type_bits(self.raw()) <= WOODS_HIGH),
    {
        let type_raw = self.get_type_raw();
        WOODS_LOW <= type_raw && type_raw <= WOODS_HIGH
    }

    pub fn is_of_type(&self, tile_type: &TileType) -> (r: bool)
        ensures
            r == (self.kind() == Some(*tile_type)),
    {
        match self.tile_type {
            Some(t) => t == *tile_type,
            None => false,
        }
    }

    pub fn is_any_of_types(&self, tile_types: &[TileType]) -> (r: bool)
        ensures
            r == (self.kind() is Some && tile_types@.contains(self.kind().unwrap())),
    {
        match self.tile_type {
            Some(tile_type) => {
                let mut i: usize = 0;
                while i < tile_types.len()
                    invariant
                        self.kind() == Some(tile_type),
                        i <= tile_types@.len(),
                        forall|j: int| 0 <= j < i ==> tile_types@[j] != tile_type,
                    decreases tile_types@.len() - i,
                {
                    if tile_types[i] == tile_type {
                        assert(tile_types@[i as int] == tile_type);
                        return true;
                    }
                    i = i + 1;
                }
                assert(!tile_types@.contains(tile_type));
                false
            },
            None => false,
        }
    }

    /// Does the tile conduct electricity (its conduct bit is set)?
    pub fn is_conductive(&self) -> (r: bool)
        ensures
            r == (self.raw() & TILE_CONDUCT_BIT != 0),
    {
        self.raw & TILE_CONDUCT_BIT != 0
    }

    /// Can the current tile be used as a road?
    pub fn is_driveable(&self) -> (r: bool)
        ensures
            r == (64 <= type_bits(self.raw()) <= 238 && (type_bits(self.raw()) < 208
                || type_bits(self.raw()) >= 222)),
    {
        let tile_value = self.get_type_raw() & TILE_LOW_MASK;
        proof {
            let v = type_bits(self.raw);
            lemma_u16_tile_bits(v);
        }
        tile_value >= 64 && tile_value <= 238 && (tile_value < 208 || tile_value >= 222)
    }

    /// Is the current tile vulnerable to an earthquake?
    pub fn is_vulnerable(&self) -> (r: bool)
        ensures
            r == (240 <= type_bits(self.raw()) <= 826),
    {
        let tile_value = self.get_type_raw() & TILE_LOW_MASK;
        proof {
            let v = type_bits(self.raw);
            lemma_u16_tile_bits(v);
        }
        tile_value >= 240 && tile_value <= 826 && tile_value & TILE_ZONE_BIT == 0x00
    }

    /// Is the current tile floodable?
    pub fn is_floodable(&self) -> (r: bool)
        ensures
            r == (type_bits(self.raw()) == 0),
    {
        let tile_value = self.get_type_raw() & TILE_LOW_MASK;
        proof {
            let v = type_bits(self.raw);
            lemma_u16_tile_bits(v);
        }
        tile_value == 0 || (tile_value & TILE_BURN_BULL_BIT == TILE_BURN_BULL_BIT)
    }
}

/// The type of the raw value of a valid tile type is that tile type.
pub proof fn lemma_type_of_code(t: TileType)
    requires
        t != TileType::Invalid,
    ensures
        tile_type_of(t.code()) == Some(t),
{
    assert(exists|u: TileType| #[trigger] u.code() == t.code());
    let c = choose|u: TileType| #[trigger] u.code() == t.code();
    super::tiles_type::lemma_code_injective(c, t);
}

/// A well-formed tile is of a valid type exactly when its type bits are that type's raw value.
pub proof fn lemma_kind_is(t: Tile, ty: TileType)
    requires
        t.wf(),
        ty != TileType::Invalid,
    ensures
        (t.kind() == Some(ty)) == (type_bits(t.raw()) as int == ty.code()),
{
    lemma_type_of_code(ty);
    let v = type_bits(t.raw()) as int;
    if t.kind() == Some(ty) {
        let c = choose|u: TileType| #[trigger] u.code() == v;
        assert(exists|u: TileType| #[trigger] u.code() == v);
        assert(c.code() == v);
    }
}

} // verus!
