//! Small numeric helpers shared by the CPU, memory map and picture
//! processor: 16-bit wrapping arithmetic, single-bit tests and updates on
//! bytes, and sign extension of 8-bit displacements.

use vstd::prelude::*;

verus! {

/// `x` reduced into the 16-bit address space.
pub open spec fn wrap16(x: int) -> u16 {
    (x % 0x10000) as u16
}

/// 16-bit addition that wraps around the address space.
pub fn wadd16(a: u16, b: u16) -> (r: u16)
    ensures
        r == wrap16(a + b),
{
    ((a as u32 + b as u32) % 0x10000) as u16
}

/// 16-bit subtraction that wraps around the address space.
pub fn wsub16(a: u16, b: u16) -> (r: u16)
    ensures
        r == wrap16(a - b),
{
    ((a as u32 + 0x10000 - b as u32) % 0x10000) as u16
}

/// 8-bit addition that wraps around the 256-pixel surface.
pub fn wadd8(a: u8, b: u8) -> (r: u8)
    ensures
        r == ((a + b) % 256) as u8,
{
    ((a as u16 + b as u16) % 256) as u8
}

/// Bit `i` of `x`.
pub open spec fn bit_get(x: u8, i: u8) -> bool
    recommends
        i < 8,
{
    x >> i & 1 == 1
}

/// `x` with bit `i` set.
pub open spec fn bit_set(x: u8, i: u8) -> u8
    recommends
        i < 8,
{
    x | (1u8 << i)
}

/// `x` with bit `i` cleared.
pub open spec fn bit_clear(x: u8, i: u8) -> u8
    recommends
        i < 8,
{
    x & !(1u8 << i)
}

/// Setting or clearing one bit drives that bit and leaves every other bit
/// unchanged.
pub proof fn lemma_bit_ops(x: u8, i: u8, j: u8)
    by (bit_vector)
    requires
        i < 8,
        j < 8,
    ensures
        bit_get(bit_set(x, i), i),
        !bit_get(bit_clear(x, i), i),
        i != j ==> bit_get(bit_set(x, i), j) == bit_get(x, j),
        i != j ==> bit_get(bit_clear(x, i), j) == bit_get(x, j),
        bit_clear(x, i) <= x,
        i < 4 && x < 16 ==> bit_set(x, i) < 16,
{
}

/// Tests bit `i` of `x`.
pub fn test_bit(x: u8, i: u8) -> (r: bool)
    requires
        i < 8,
    ensures
        r == bit_get(x, i),
{
    x >> i & 1 == 1
}

/// Returns `x` with bit `i` set.
pub fn with_bit_set(x: u8, i: u8) -> (r: u8)
    requires
        i < 8,
    ensures
        r == bit_set(x, i),
{
    x | (1u8 << i)
}

/// Returns `x` with bit `i` cleared.
pub fn with_bit_clear(x: u8, i: u8) -> (r: u8)
    requires
        i < 8,
    ensures
        r == bit_clear(x, i),
{
    x & !(1u8 << i)
}

/// Stepping the 16-bit address space down and back up returns to the
/// start.
pub proof fn lemma_wrap16_cancel(a: u16, d: u16)
    ensures
        wrap16(wrap16(a - d) + d) == a,
{
    if a >= d {
        assert(wrap16(a - d) == a - d);
    } else {
        assert(wrap16(a - d) == a - d + 0x10000);
        vstd::arithmetic::div_mod::lemma_mod_add_multiples_vanish(a as int, 0x10000);
    }
}

/// The signed value of a byte used as a displacement.
pub open spec fn sext8(n: u8) -> int {
    if n < 128 {
        n as int
    } else {
        n - 256
    }
}

/// The address `n` bytes away from `pc`, with `n` read as signed and the
/// sum wrapping in 16 bits.
pub fn disp_target(pc: u16, n: u8) -> (r: u16)
    ensures
        r == wrap16(pc + sext8(n)),
{
    let off: u32 = if n < 128 {
        n as u32
    } else {
        n as u32 + 0xff00
    };
    ((pc as u32 + off) % 0x10000) as u16
}

} // verus!
