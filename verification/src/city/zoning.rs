use vstd::prelude::*;

verus! {

#[derive(Clone, Copy, Debug, PartialEq, Eq, Structural)]
pub enum ZoneType {
    Commercial,
    Industrial,
    Residential,
}

impl ZoneType {
    /// Number of the zone type (in declaration order, from 0).
    pub open spec fn index(self) -> int {
        match self {
            ZoneType::Commercial => 0,
            ZoneType::Industrial => 1,
            ZoneType::Residential => 2,
        }
    }

    pub fn from_usize(value: usize) -> (r: Option<Self>)
        ensures
            value < 3 ==> (r matches Some(z) && z.index() == value),
            value >= 3 ==> r is None,
    {
        match value {
            0 => Some(ZoneType::Commercial),
            1 => Some(ZoneType::Industrial),
            2 => Some(ZoneType::Residential),
            _ => None,
        }
    }

    pub fn to_usize(&self) -> (r: Option<usize>)
        ensures
            r == Some(self.index() as usize),
    {
        match self {
            ZoneType::Commercial => Some(0),
            ZoneType::Industrial => Some(1),
            ZoneType::Residential => Some(2),
        }
    }
}

} // verus!
