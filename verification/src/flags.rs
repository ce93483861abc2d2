//! The CPU flag register F.
//!
//! F keeps the four SM83 condition flags in its high nibble: Z (bit 7),
//! N (bit 6), H (bit 5), C (bit 4). The low nibble does not exist in
//! hardware and always reads as zero.
//!
//! The flag byte is modelled arithmetically: a flag byte is a sum of the
//! powers of two of the set flags, and a single flag is read back with
//! division and remainder. This keeps every proof about flags within
//! linear arithmetic.

use vstd::prelude::*;

verus! {

pub const FLAG_Z: u8 = 0x80;

pub const FLAG_N: u8 = 0x40;

pub const FLAG_H: u8 = 0x20;

pub const FLAG_C: u8 = 0x10;

/// The flag byte with exactly the given flags set; its low nibble is zero.
pub open spec fn flags_byte(z: bool, n: bool, h: bool, c: bool) -> u8 {
    ((if z {
        0x80int
    } else {
        0
    }) + (if n {
        0x40int
    } else {
        0
    }) + (if h {
        0x20int
    } else {
        0
    }) + (if c {
        0x10int
    } else {
        0
    })) as u8
}

pub open spec fn flag_z(f: u8) -> bool {
    f / 0x80 % 2 == 1
}

pub open spec fn flag_n(f: u8) -> bool {
    f / 0x40 % 2 == 1
}

pub open spec fn flag_h(f: u8) -> bool {
    f / 0x20 % 2 == 1
}

pub open spec fn flag_c(f: u8) -> bool {
    f / 0x10 % 2 == 1
}

/// Reading a flag out of a freshly built flag byte gives back the flag,
/// and the low nibble of a built flag byte is zero.
pub broadcast proof fn lemma_flags_byte(z: bool, n: bool, h: bool, c: bool)
    ensures
        #![trigger flags_byte(z, n, h, c)]
        flag_z(flags_byte(z, n, h, c)) == z,
        flag_n(flags_byte(z, n, h, c)) == n,
        flag_h(flags_byte(z, n, h, c)) == h,
        flag_c(flags_byte(z, n, h, c)) == c,
        flags_byte(z, n, h, c) % 16 == 0,
{
}

/// Builds the flag byte with exactly the given flags set.
pub fn make_flags(z: bool, n: bool, h: bool, c: bool) -> (f: u8)
    ensures
        f == flags_byte(z, n, h, c),
{
    let mut f: u8 = 0;
    if z {
        f += 0x80;
    }
    if n {
        f += 0x40;
    }
    if h {
        f += 0x20;
    }
    if c {
        f += 0x10;
    }
    f
}

/// Reads the Z flag.
pub fn z_of(f: u8) -> (r: bool)
    ensures
        r == flag_z(f),
{
    f / 0x80 % 2 == 1
}

/// Reads the N flag.
pub fn n_of(f: u8) -> (r: bool)
    ensures
        r == flag_n(f),
{
    f / 0x40 % 2 == 1
}

/// Reads the H flag.
pub fn h_of(f: u8) -> (r: bool)
    ensures
        r == flag_h(f),
{
    f / 0x20 % 2 == 1
}

/// Reads the C flag.
pub fn c_of(f: u8) -> (r: bool)
    ensures
        r == flag_c(f),
{
    f / 0x10 % 2 == 1
}

} // verus!
