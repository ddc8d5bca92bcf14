use vstd::prelude::*;

verus! {

/// Remainder of the truncated division (rounding towards zero), which is what
/// `%` computes on Rust's signed integers: the sign follows the dividend.
pub open spec fn trunc_rem(a: int, b: int) -> int {
    let m = if b < 0 { -b } else { b };
    if a >= 0 {
        a % m
    } else {
        -((-a) % m)
    }
}

/// Multiplier of the linear congruential generator.
pub const LCG_MULTIPLIER: u64 = 1103515245;
/// Increment of the linear congruential generator.
pub const LCG_INCREMENT: u64 = 12345;

/// One step of the generator: `state * 1103515245 + 12345`, modulo 2^64.
#[verifier::opaque]
pub open spec fn lcg_next(state: u64) -> u64 {
    ((state as int * LCG_MULTIPLIER as int + LCG_INCREMENT as int) % 0x1_0000_0000_0000_0000) as u64
}

/// The 16 bits (8 to 23) of a generator state that make up a random draw.
#[verifier::opaque]
pub open spec fn draw_bits(state: u64) -> int {
    ((state & 0xFFFF00u64) >> 8u64) as int
}

/// A 16-bit draw read as a signed 16-bit integer.
pub open spec fn signed16(bits: int) -> int {
    if bits < 0x8000 {
        bits
    } else {
        bits - 0x10000
    }
}

/// The value of `get_random_16` when the generator steps to `state`.
pub open spec fn random16_at(state: u64) -> int {
    signed16(draw_bits(state))
}

/// Stateful pseudo-random number generator of the simulation
/// (a linear congruential generator).
pub struct MicropolisRandom {
    seed: i32,
    next_random: u64,
}

pub proof fn lemma_draw_bits_range(state: u64)
    ensures
        0 <= draw_bits(state) <= 0xFFFF,
{
    reveal(draw_bits);
    assert(((state & 0xFFFF00u64) >> 8u64) <= 0xFFFFu64) by (bit_vector);
}

proof fn lemma_signed16(b: i32)
    requires
        0 <= b <= 0xFFFF,
    ensures
        ((b & 0xFFFFi32) as i16) as int == signed16(b as int),
        (((b & 0xFFFFi32) as i16) as u16) as int == b as int,
{
    assert((0 <= b <= 0xFFFF ==> ((b as i16) as u16) as i32 == b) && (0 <= b <= 0xFFFF ==> (b
        & 0xFFFFi32) == b) && (0 <= b < 0x8000 ==> (b as i16) as i32 == b) && (0x8000 <= b
        <= 0xFFFF ==> (b as i16) as i32 == b - 0x10000)) by (bit_vector);
}

proof fn lemma_lcg_step(s: u64)
    ensures
        s.wrapping_mul(LCG_MULTIPLIER).wrapping_add(LCG_INCREMENT) == lcg_next(s),
{
    reveal(lcg_next);
    let r: int = 0x1_0000_0000_0000_0000;
    let p = s as int * LCG_MULTIPLIER as int;
    let w = s.wrapping_mul(LCG_MULTIPLIER);
    assert(w as int == p % r);
    vstd::arithmetic::div_mod::lemma_add_mod_noop(p, LCG_INCREMENT as int, r);
    vstd::arithmetic::div_mod::lemma_small_mod(LCG_INCREMENT as nat, r as nat);
    vstd::arithmetic::div_mod::lemma_mod_twice(p, r);
    let x = w as int + LCG_INCREMENT as int;
    if x < r {
        vstd::arithmetic::div_mod::lemma_small_mod(x as nat, r as nat);
    } else {
        let y = x - r;
        vstd::arithmetic::div_mod::lemma_mod_add_multiples_vanish(y, r);
        vstd::arithmetic::div_mod::lemma_small_mod(y as nat, r as nat);
    }
}

proof fn lemma_max_multiple(m: int)
    requires
        1 <= m <= 0x8000,
    ensures
        (0xFFFFint / m) * m >= 0x8000,
        (0xFFFFint / m) * m <= 0xFFFF,
{
    let n: int = 0xFFFF;
    assert((n / m) * m + n % m == n) by (nonlinear_arith)
        requires
            m > 0,
    ;
    assert(0 <= n % m < m) by (nonlinear_arith)
        requires
            m > 0,
    ;
}

impl MicropolisRandom {
    /// Current internal state of the generator.
    pub closed spec fn state(&self) -> u64 {
        self.next_random
    }

    /// Seed the generator was created with.
    pub closed spec fn creation_seed(&self) -> i32 {
        self.seed
    }

    /// Build a generator from the given seed.
    pub fn from_seed(seed: i32) -> (rng: Self)
        ensures
            rng.state() == seed as u64,
            rng.creation_seed() == seed,
    {
        Self { seed, next_random: seed as u64 }
    }

    /// Reset the generator state to the given seed.
    pub fn seed(&mut self, seed: i32)
        ensures
            final(self).state() == seed as u64,
            final(self).creation_seed() == old(self).creation_seed(),
    {
        self.next_random = seed as u64;
    }

    /// Draw a random number in the given upper inclusive range: the 16-bit
    /// draw, read as an unsigned number, modulo the size of the range.
    pub fn get_random(&mut self, range: i16) -> (r: i16)
        requires
            range >= 0 || range < -1,
        ensures
            final(self).state() == lcg_next(old(self).state()),
            final(self).creation_seed() == old(self).creation_seed(),
            r as int == trunc_rem(draw_bits(final(self).state()), range as int + 1),
            range >= 0 ==> 0 <= r <= range,
    {
        let local_range: i32 = range as i32 + 1;
        let modulus: i32 = if local_range < 0 {
            -local_range
        } else {
            local_range
        };
        let r_number: i32 = self.get_random_16_signed() as i32;
        proof {
            lemma_draw_bits_range(self.state());
        }
        let r = r_number % modulus;
        r as i16
    }

    /// Draw a random number in the given upper inclusive range,
    /// with a preference towards smaller values.
    pub fn get_e_random(&mut self, range: i16) -> (r: i16)
        requires
            range >= 0 || range < -1,
        ensures
            final(self).state() == lcg_next(lcg_next(old(self).state())),
            final(self).creation_seed() == old(self).creation_seed(),
            ({
                let first = trunc_rem(draw_bits(lcg_next(old(self).state())), range as int + 1);
                let second = trunc_rem(draw_bits(final(self).state()), range as int + 1);
                r as int == if first <= second { first } else { second }
            }),
    {
        let first = self.get_random(range);
        let second = self.get_random(range);
        if first <= second {
            first
        } else {
            second
        }
    }

    /// Draw a random 16-bit number.
    pub fn get_random_16(&mut self) -> (r: i16)
        ensures
            final(self).state() == lcg_next(old(self).state()),
            final(self).creation_seed() == old(self).creation_seed(),
            r as int == random16_at(final(self).state()),
    {
        let bits = self.sim_random();
        proof {
            lemma_signed16(bits);
        }
        (bits & 0x0000FFFF) as i16
    }

    /// Draw a random signed 16-bit number.
    ///
    /// A signed 16-bit draw is never above 0x7FFF, so the draw is returned as
    /// it is, reinterpreted as an unsigned value.
    pub fn get_random_16_signed(&mut self) -> (r: u16)
        ensures
            final(self).state() == lcg_next(old(self).state()),
            final(self).creation_seed() == old(self).creation_seed(),
            r as int == draw_bits(final(self).state()),
    {
        let ghost before = self.state();
        let random = self.get_random_16();
        proof {
            lemma_draw_bits_range(self.state());
            let b = draw_bits(self.state());
            assert(((b as i32 & 0xFFFFi32) as i16) as int == random as int) by {
                lemma_signed16(b as i32);
            }
            lemma_signed16(b as i32);
        }
        if random > 0x7FFF {
            (0x7FFF - random) as u16
        } else {
            random as u16
        }
    }

    /// Draw a random 32-bit number (internal function).
    fn sim_random(&mut self) -> (r: i32)
        ensures
            final(self).state() == lcg_next(old(self).state()),
            final(self).creation_seed() == old(self).creation_seed(),
            r as int == draw_bits(final(self).state()),
            0 <= r <= 0xFFFF,
    {
        proof {
            lemma_lcg_step(self.next_random);
        }
        self.next_random = self.next_random.wrapping_mul(LCG_MULTIPLIER).wrapping_add(LCG_INCREMENT);
        proof {
            lemma_draw_bits_range(self.next_random);
            reveal(draw_bits);
        }
        ((self.next_random & 0xFFFF00) >> 8) as i32
    }
}

} // verus!
