pub mod bits;
pub mod random;

use vstd::prelude::*;

use random::{draw_bits, lcg_next, MicropolisRandom};

verus! {

/// Clamp a value between [lower, upper].
pub fn clamp(value: i64, lower: i64, upper: i64) -> (r: i64)
    requires
        lower <= upper,
    ensures
        r == if value < lower {
            lower
        } else if value > upper {
            upper
        } else {
            value
        },
{
    if value < lower {
        lower
    } else if value > upper {
        upper
    } else {
        value
    }
}

/// Draw a number in `[lower, upper]` from one 16-bit draw of the generator.
pub fn random_in_range(rng: &mut MicropolisRandom, lower: u16, upper: u16) -> (r: u16)
    requires
        lower <= upper,
    ensures
        final(rng).state() == lcg_next(old(rng).state()),
        final(rng).creation_seed() == old(rng).creation_seed(),
        r == lower + draw_bits(final(rng).state()) % (upper - lower + 1),
        lower <= r <= upper,
{
    let draw = rng.get_random_16_signed();
    let span: u32 = (upper - lower) as u32 + 1;
    let offset = (draw as u32 % span) as u16;
    lower + offset
}

/// A ratio, counted in hundredths (percent).
#[derive(Clone, Copy, Debug, PartialEq, Eq, Structural)]
pub struct Percentage {
    percent: u32,
}

impl Percentage {
    /// Number of hundredths.
    pub closed spec fn hundredths(self) -> u32 {
        self.percent
    }

    /// The given number of percent, up to 100.
    pub fn from_integer(percentage: u8) -> (r: Option<Self>)
        ensures
            percentage <= 100 ==> (r matches Some(p) && p.hundredths() == percentage),
            percentage > 100 ==> r is None,
    {
        if percentage <= 100 {
            Some(Percentage { percent: percentage as u32 })
        } else {
            None
        }
    }

    /// The ratio of the given number of hundredths.
    pub fn from_hundredths(hundredths: u32) -> (r: Self)
        ensures
            r.hundredths() == hundredths,
    {
        Percentage { percent: hundredths }
    }

    /// Value, in hundredths.
    pub fn percent(&self) -> (r: u32)
        ensures
            r == self.hundredths(),
    {
        self.percent
    }

    /// Increment by 1%.
    pub fn increment(&mut self)
        requires
            old(self).hundredths() < u32::MAX,
        ensures
            final(self).hundredths() == old(self).hundredths() + 1,
    {
        self.percent = self.percent + 1;
    }
}

} // verus!
