use vstd::prelude::*;
use vstd::arithmetic::div_mod::{lemma_add_mod_noop, lemma_mul_mod_noop_left};

verus! {

/// The number of distinct `u32` values.
pub open spec fn u32_modulus() -> int {
    0x1_0000_0000
}

/// The `u32` whose value is `v` reduced modulo 2^32 (the low 32 bits of `v`).
pub open spec fn wrap32(v: int) -> u32 {
    (v % u32_modulus()) as u32
}

/// The `i32` that has the same 32 bits as `v`.
pub open spec fn as_signed(v: u32) -> i32 {
    if v < 0x8000_0000 { v as i32 } else { (v - u32_modulus()) as i32 }
}

/// The seed of the generator for the column `(x, z)`.
pub open spec fn column_seed(x: int, z: int) -> u32 {
    wrap32(x * 374761393 + z * 668265263)
}

/// The seed of the generator for the block `(x, y, z)`.
pub open spec fn block_seed(x: int, y: int, z: int) -> u32 {
    wrap32(x * 374761393 + y * 715827883 + z * 668265263)
}

/// One step of the linear congruential generator.
pub open spec fn lcg(seed: u32) -> u32 {
    wrap32(seed * 1664525 + 1013904223)
}

/// The plant selector in `0..100` drawn from a seed.
pub open spec fn plant_selector(seed: u32) -> u32 {
    (wrap32(seed * 109739919) % 100) as u32
}

/// A `u32` is its own reduction.
pub proof fn lemma_wrap32_of_u32(v: u32)
    ensures
        wrap32(v as int) == v,
{
    vstd::arithmetic::div_mod::lemma_small_mod(v as nat, u32_modulus() as nat);
}

/// Reducing a summand first does not change the reduced sum.
pub proof fn lemma_wrap32_add(a: int, b: int)
    ensures
        wrap32(wrap32(a) + wrap32(b)) == wrap32(a + b),
{
    lemma_add_mod_noop(a, b, u32_modulus());
}

/// Reducing a factor first does not change the reduced product.
pub proof fn lemma_wrap32_mul(a: int, k: int)
    ensures
        wrap32(wrap32(a) * k) == wrap32(a * k),
{
    lemma_mul_mod_noop_left(a, k, u32_modulus());
}

proof fn lemma_i32_as_u32(x: i32)
    ensures
        (x as u32) == wrap32(x as int),
{
    if x >= 0 {
        assert((x as u32) as int == x as int) by (bit_vector)
            requires
                x >= 0,
        ;
    } else {
        assert((x as u32) as int == x as int + 0x1_0000_0000) by (bit_vector)
            requires
                x < 0,
        ;
    }
}

proof fn lemma_u32_as_i32(v: u32)
    ensures
        (v as i32) == as_signed(v),
{
    if v < 0x8000_0000 {
        assert((v as i32) as int == v as int) by (bit_vector)
            requires
                v < 0x8000_0000u32,
        ;
    } else {
        assert((v as i32) as int == v as int - 0x1_0000_0000) by (bit_vector)
            requires
                v >= 0x8000_0000u32,
        ;
    }
}

/// `a * b` reduced to 32 bits.
pub(crate) fn mul32(a: u32, b: u32) -> (r: u32)
    ensures
        r == wrap32(a * b),
{
    a.wrapping_mul(b)
}

/// `a + b` reduced to 32 bits.
pub(crate) fn add32(a: u32, b: u32) -> (r: u32)
    ensures
        r == wrap32(a + b),
{
    let r = a.wrapping_add(b);
    proof {
        if a + b > u32::MAX {
            vstd::arithmetic::div_mod::lemma_fundamental_div_mod_converse(
                a + b,
                u32_modulus(),
                1,
                a + b - u32_modulus(),
            );
        } else {
            vstd::arithmetic::div_mod::lemma_small_mod((a + b) as nat, u32_modulus() as nat);
        }
    }
    r
}

/// A deterministic pseudo-random source whose whole state is one seed.
pub struct SeededRng {
    pub seed: u32,
}

impl SeededRng {
    /// Seeds the generator from a column position.
    pub fn new(x: i32, z: i32) -> (r: SeededRng)
        ensures
            r.seed == column_seed(x as int, z as int),
    {
        proof {
            lemma_i32_as_u32(x);
            lemma_i32_as_u32(z);
        }
        let a = mul32(x as u32, 374761393);
        let b = mul32(z as u32, 668265263);
        let seed = add32(a, b);
        proof {
            lemma_wrap32_mul(x as int, 374761393);
            lemma_wrap32_mul(z as int, 668265263);
            lemma_wrap32_add(x * 374761393, z * 668265263);
        }
        SeededRng { seed }
    }

    /// Wraps a seed as it is.
    pub fn from_seed(seed: u32) -> (r: SeededRng)
        ensures
            r.seed == seed,
    {
        SeededRng { seed }
    }

    /// The next value of the generator's sequence: one step of the congruential map.
    pub fn next_u32(&self) -> (r: u32)
        ensures
            r == lcg(self.seed),
    {
        let m = mul32(self.seed, 1664525);
        let r = add32(m, 1013904223);
        proof {
            lemma_wrap32_of_u32(1013904223);
            lemma_wrap32_add(self.seed * 1664525, 1013904223);
        }
        r
    }

    /// A generator whose seed is this one's moved on by `offset`.
    pub fn variant(&self, offset: u32) -> (r: SeededRng)
        ensures
            r.seed == wrap32(self.seed + offset),
    {
        SeededRng { seed: add32(self.seed, offset) }
    }

    /// The plant selector in `0..100`.
    pub fn plant_type_seed(&self) -> (r: u32)
        ensures
            r == plant_selector(self.seed),
            r < 100,
    {
        mul32(self.seed, 109739919) % 100
    }

    /// Seeds the generator from a block position.
    pub fn new_with_y(x: i32, y: i32, z: i32) -> (r: SeededRng)
        ensures
            r.seed == block_seed(x as int, y as int, z as int),
    {
        proof {
            lemma_i32_as_u32(x);
            lemma_i32_as_u32(y);
            lemma_i32_as_u32(z);
        }
        let a = mul32(x as u32, 374761393);
        let b = mul32(y as u32, 715827883);
        let c = mul32(z as u32, 668265263);
        let ab = add32(a, b);
        let seed = add32(ab, c);
        proof {
            lemma_wrap32_mul(x as int, 374761393);
            lemma_wrap32_mul(y as int, 715827883);
            lemma_wrap32_mul(z as int, 668265263);
            lemma_wrap32_add(x * 374761393, y * 715827883);
            lemma_wrap32_add(x * 374761393 + y * 715827883, z * 668265263);
            lemma_wrap32_of_u32(c);
        }
        SeededRng { seed }
    }

    /// The next value of the sequence reduced modulo `modulo`.
    pub fn next_mod(&self, modulo: u32) -> (r: u32)
        requires
            modulo > 0,
        ensures
            r == lcg(self.seed) % modulo,
            r < modulo,
    {
        self.next_u32() % modulo
    }

    /// The next value below `max`, where `max` is read as an unsigned bound and the
    /// result is read back as a signed number.
    pub fn next_range(&self, max: i32) -> (r: i32)
        requires
            max != 0,
        ensures
            r == as_signed((lcg(self.seed) % wrap32(max as int)) as u32),
    {
        proof {
            lemma_i32_as_u32(max);
        }
        let v = self.next_mod(max as u32);
        proof {
            lemma_u32_as_i32(v);
        }
        v as i32
    }

    /// `min` plus the next value below `max - min`.
    pub fn next_range_between(&self, min: i32, max: i32) -> (r: i32)
        requires
            i32::MIN <= max - min <= i32::MAX,
            max != min,
            i32::MIN <= min + as_signed(
                (lcg(self.seed) % wrap32(max - min)) as u32,
            ) <= i32::MAX,
        ensures
            r == min + as_signed((lcg(self.seed) % wrap32(max - min)) as u32),
    {
        min + self.next_range(max - min)
    }
}

/// On a positive bound the draw of `next_range` lies in `0..max`.
pub proof fn lemma_next_range_in_bounds(seed: u32, max: i32)
    requires
        max > 0,
    ensures
        0 <= as_signed((lcg(seed) % wrap32(max as int)) as u32) < max,
{
    lemma_wrap32_of_u32(max as u32);
}

/// For `min < max`, the draw of `next_range_between` lies in `min..max`.
pub proof fn law_next_range_between_in_bounds(seed: u32, min: i32, max: i32)
    requires
        min < max,
        max - min <= i32::MAX,
    ensures
        min <= min + as_signed((lcg(seed) % wrap32(max - min)) as u32) < max,
{
    lemma_next_range_in_bounds(seed, (max - min) as i32);
}

/// The `u32` with the same bits as `v`.
pub fn i32_bits(v: i32) -> (r: u32)
    ensures
        r == wrap32(v as int),
{
    proof {
        lemma_i32_as_u32(v);
    }
    v as u32
}

}
