//! The arithmetic and logic unit: the 8-bit operations of the main opcode
//! table and the rotate/shift family of the CB table, each with its exact
//! result and flag semantics.
//!
//! Every operation is given twice: a spec function stating the value and
//! the flag byte it produces, and an executable function proved to return
//! exactly that pair.

use crate::arith::bit_get;
use crate::flags::{c_of, flag_c, flag_h, flag_n, flag_z, flags_byte, h_of, make_flags, n_of};
use vstd::prelude::*;

verus! {

/// ADD: the wrapped sum; H is the carry out of bit 3, C out of bit 7.
pub open spec fn spec_add(a: u8, x: u8) -> (u8, u8) {
    let v = ((a + x) % 256) as u8;
    (v, flags_byte(v == 0, false, a % 16 + x % 16 > 15, a + x > 255))
}

/// ADC: ADD with the carry flag added in.
pub open spec fn spec_adc(a: u8, x: u8, cin: bool) -> (u8, u8) {
    let k = if cin {
        1int
    } else {
        0
    };
    let v = ((a + x + k) % 256) as u8;
    (v, flags_byte(v == 0, false, a % 16 + x % 16 + k > 15, a + x + k > 255))
}

/// SUB: the wrapped difference; H is the borrow into bit 4, C the borrow
/// into bit 8.
pub open spec fn spec_sub(a: u8, x: u8) -> (u8, u8) {
    let v = ((a - x) % 256) as u8;
    (v, flags_byte(v == 0, true, a % 16 < x % 16, a < x))
}

/// SBC: SUB with the carry flag borrowed in addition.
pub open spec fn spec_sbc(a: u8, x: u8, cin: bool) -> (u8, u8) {
    let k = if cin {
        1int
    } else {
        0
    };
    let v = ((a - x - k) % 256) as u8;
    (v, flags_byte(v == 0, true, a % 16 < x % 16 + k, a < x + k))
}

/// AND: sets H, clears N and C.
pub open spec fn spec_and(a: u8, x: u8) -> (u8, u8) {
    let v = a & x;
    (v, flags_byte(v == 0, false, true, false))
}

/// OR: clears N, H and C.
pub open spec fn spec_or(a: u8, x: u8) -> (u8, u8) {
    let v = a | x;
    (v, flags_byte(v == 0, false, false, false))
}

/// XOR: clears N, H and C.
pub open spec fn spec_xor(a: u8, x: u8) -> (u8, u8) {
    let v = a ^ x;
    (v, flags_byte(v == 0, false, false, false))
}

/// CP: the flags of SUB with the accumulator left unchanged.
pub open spec fn spec_cp(a: u8, x: u8) -> u8 {
    spec_sub(a, x).1
}

/// INC on a byte: C is untouched; H is the carry out of bit 3.
pub open spec fn spec_inc8(v: u8, f: u8) -> (u8, u8) {
    let r = ((v + 1) % 256) as u8;
    (r, flags_byte(r == 0, false, v % 16 == 15, flag_c(f)))
}

/// DEC on a byte: C is untouched; H is the borrow into bit 4.
pub open spec fn spec_dec8(v: u8, f: u8) -> (u8, u8) {
    let r = ((v - 1) % 256) as u8;
    (r, flags_byte(r == 0, true, v % 16 == 0, flag_c(f)))
}

/// RLC: rotate left; bit 7 goes to both bit 0 and C.
pub open spec fn spec_rlc(v: u8) -> (u8, u8) {
    let r = ((v * 2 + v / 128) % 256) as u8;
    (r, flags_byte(r == 0, false, false, v >= 128))
}

/// RRC: rotate right; bit 0 goes to both bit 7 and C.
pub open spec fn spec_rrc(v: u8) -> (u8, u8) {
    let r = (v / 2 + v % 2 * 128) as u8;
    (r, flags_byte(r == 0, false, false, v % 2 == 1))
}

/// RL: rotate left through the carry flag.
pub open spec fn spec_rl(v: u8, cin: bool) -> (u8, u8) {
    let r = ((v * 2 + (if cin {
        1int
    } else {
        0
    })) % 256) as u8;
    (r, flags_byte(r == 0, false, false, v >= 128))
}

/// RR: rotate right through the carry flag.
pub open spec fn spec_rr(v: u8, cin: bool) -> (u8, u8) {
    let r = (v / 2 + (if cin {
        128int
    } else {
        0
    })) as u8;
    (r, flags_byte(r == 0, false, false, v % 2 == 1))
}

/// SLA: shift left; bit 0 becomes zero.
pub open spec fn spec_sla(v: u8) -> (u8, u8) {
    let r = ((v * 2) % 256) as u8;
    (r, flags_byte(r == 0, false, false, v >= 128))
}

/// SRA: shift right keeping bit 7.
pub open spec fn spec_sra(v: u8) -> (u8, u8) {
    let r = (v / 2 + v / 128 * 128) as u8;
    (r, flags_byte(r == 0, false, false, v % 2 == 1))
}

/// SRL: shift right; bit 7 becomes zero.
pub open spec fn spec_srl(v: u8) -> (u8, u8) {
    let r = v / 2;
    (r, flags_byte(r == 0, false, false, v % 2 == 1))
}

/// SWAP: exchanges the two nibbles; clears N, H and C.
pub open spec fn spec_swap(v: u8) -> (u8, u8) {
    let r = (v % 16 * 16 + v / 16) as u8;
    (r, flags_byte(r == 0, false, false, false))
}

/// BIT: Z is the complement of the tested bit; C is untouched.
pub open spec fn spec_bit(v: u8, b: u8, f: u8) -> u8 {
    flags_byte(!bit_get(v, b), false, true, flag_c(f))
}

/// DAA: decimal adjust after an addition (N clear) or a subtraction
/// (N set), driven by the N, H and C flags.
pub open spec fn spec_daa(a: u8, f: u8) -> (u8, u8) {
    if !flag_n(f) {
        let carry = flag_c(f) || a > 0x99;
        let adjust = (if flag_h(f) || a % 16 > 9 {
            6int
        } else {
            0
        }) + (if carry {
            0x60int
        } else {
            0
        });
        let r = ((a + adjust) % 256) as u8;
        (r, flags_byte(r == 0, false, false, carry))
    } else {
        let adjust = (if flag_h(f) {
            6int
        } else {
            0
        }) + (if flag_c(f) {
            0x60int
        } else {
            0
        });
        let r = ((a - adjust) % 256) as u8;
        (r, flags_byte(r == 0, true, false, flag_c(f)))
    }
}

/// CPL: the bitwise complement; sets N and H, keeps Z and C.
pub open spec fn spec_cpl(a: u8, f: u8) -> (u8, u8) {
    ((255 - a) as u8, flags_byte(flag_z(f), true, true, flag_c(f)))
}

/// ADD HL,rr: Z is untouched; H is the carry out of bit 11, C out of
/// bit 15.
pub open spec fn spec_add16(hl: u16, x: u16, f: u8) -> (u16, u8) {
    let v = ((hl + x) % 0x10000) as u16;
    (v, flags_byte(flag_z(f), false, hl % 4096 + x % 4096 > 4095, hl + x > 65535))
}

/// The signed-displacement additions on SP (ADD SP,n and LD HL,SP+n):
/// H and C reflect the carries out of bits 3 and 7 of the unsigned low
/// byte; Z and N are cleared.
pub open spec fn spec_sp_offset(sp: u16, n: u8) -> (u16, u8) {
    let v = crate::arith::wrap16(sp + crate::arith::sext8(n));
    (v, flags_byte(false, false, sp % 16 + n % 16 > 15, sp % 256 + n > 255))
}

/// The accumulator operation selected by an opcode's bits 3-5: ADD, ADC,
/// SUB, SBC, AND, XOR, OR, CP. The result is the new accumulator and flag
/// byte; CP leaves the accumulator unchanged.
pub open spec fn spec_acc_op(y: int, a: u8, f: u8, x: u8) -> (u8, u8) {
    if y == 0 {
        spec_add(a, x)
    } else if y == 1 {
        spec_adc(a, x, flag_c(f))
    } else if y == 2 {
        spec_sub(a, x)
    } else if y == 3 {
        spec_sbc(a, x, flag_c(f))
    } else if y == 4 {
        spec_and(a, x)
    } else if y == 5 {
        spec_xor(a, x)
    } else if y == 6 {
        spec_or(a, x)
    } else {
        (a, spec_cp(a, x))
    }
}

/// The rotate/shift operation selected by a CB opcode's bits 3-5: RLC,
/// RRC, RL, RR, SLA, SRA, SWAP, SRL.
pub open spec fn spec_rot_op(y: int, v: u8, f: u8) -> (u8, u8) {
    if y == 0 {
        spec_rlc(v)
    } else if y == 1 {
        spec_rrc(v)
    } else if y == 2 {
        spec_rl(v, flag_c(f))
    } else if y == 3 {
        spec_rr(v, flag_c(f))
    } else if y == 4 {
        spec_sla(v)
    } else if y == 5 {
        spec_sra(v)
    } else if y == 6 {
        spec_swap(v)
    } else {
        spec_srl(v)
    }
}

/// Performs ADD.
pub fn add(a: u8, x: u8) -> (r: (u8, u8))
    ensures
        r == spec_add(a, x),
{
    let s: u16 = a as u16 + x as u16;
    let v: u8 = (s % 256) as u8;
    (v, make_flags(v == 0, false, a % 16 + x % 16 > 15, s > 255))
}

/// Performs ADC.
pub fn adc(a: u8, x: u8, cin: bool) -> (r: (u8, u8))
    ensures
        r == spec_adc(a, x, cin),
{
    let k: u16 = if cin {
        1
    } else {
        0
    };
    let s: u16 = a as u16 + x as u16 + k;
    let v: u8 = (s % 256) as u8;
    (v, make_flags(v == 0, false, a as u16 % 16 + x as u16 % 16 + k > 15, s > 255))
}

/// Performs SUB.
pub fn sub(a: u8, x: u8) -> (r: (u8, u8))
    ensures
        r == spec_sub(a, x),
{
    let s: u16 = (a as u16 + 256 - x as u16) % 256;
    let v: u8 = s as u8;
    (v, make_flags(v == 0, true, a % 16 < x % 16, a < x))
}

/// Performs SBC.
pub fn sbc(a: u8, x: u8, cin: bool) -> (r: (u8, u8))
    ensures
        r == spec_sbc(a, x, cin),
{
    let k: u16 = if cin {
        1
    } else {
        0
    };
    let s: u16 = (a as u16 + 512 - x as u16 - k) % 256;
    let v: u8 = s as u8;
    let half: bool = ((a % 16) as u16) < (x % 16) as u16 + k;
    let borrow: bool = (a as u16) < x as u16 + k;
    (v, make_flags(v == 0, true, half, borrow))
}

/// Performs AND.
pub fn and(a: u8, x: u8) -> (r: (u8, u8))
    ensures
        r == spec_and(a, x),
{
    let v = a & x;
    (v, make_flags(v == 0, false, true, false))
}

/// Performs OR.
pub fn or(a: u8, x: u8) -> (r: (u8, u8))
    ensures
        r == spec_or(a, x),
{
    let v = a | x;
    (v, make_flags(v == 0, false, false, false))
}

/// Performs XOR.
pub fn xor(a: u8, x: u8) -> (r: (u8, u8))
    ensures
        r == spec_xor(a, x),
{
    let v = a ^ x;
    (v, make_flags(v == 0, false, false, false))
}

/// Performs CP: only the flag byte is produced.
pub fn cp(a: u8, x: u8) -> (r: u8)
    ensures
        r == spec_cp(a, x),
{
    let s: u16 = (a as u16 + 256 - x as u16) % 256;
    make_flags(s == 0, true, a % 16 < x % 16, a < x)
}

/// Performs INC on a byte.
pub fn inc8(v: u8, f: u8) -> (r: (u8, u8))
    ensures
        r == spec_inc8(v, f),
{
    let s: u16 = (v as u16 + 1) % 256;
    (s as u8, make_flags(s == 0, false, v % 16 == 15, c_of(f)))
}

/// Performs DEC on a byte.
pub fn dec8(v: u8, f: u8) -> (r: (u8, u8))
    ensures
        r == spec_dec8(v, f),
{
    let s: u16 = (v as u16 + 255) % 256;
    (s as u8, make_flags(s == 0, true, v % 16 == 0, c_of(f)))
}

/// Performs RLC.
pub fn rlc(v: u8) -> (r: (u8, u8))
    ensures
        r == spec_rlc(v),
{
    let s: u16 = (v as u16 * 2 + v as u16 / 128) % 256;
    (s as u8, make_flags(s == 0, false, false, v >= 128))
}

/// Performs RRC.
pub fn rrc(v: u8) -> (r: (u8, u8))
    ensures
        r == spec_rrc(v),
{
    let s: u8 = v / 2 + v % 2 * 128;
    (s, make_flags(s == 0, false, false, v % 2 == 1))
}

/// Performs RL.
pub fn rl(v: u8, cin: bool) -> (r: (u8, u8))
    ensures
        r == spec_rl(v, cin),
{
    let k: u16 = if cin {
        1
    } else {
        0
    };
    let s: u16 = (v as u16 * 2 + k) % 256;
    (s as u8, make_flags(s == 0, false, false, v >= 128))
}

/// Performs RR.
pub fn rr(v: u8, cin: bool) -> (r: (u8, u8))
    ensures
        r == spec_rr(v, cin),
{
    let k: u8 = if cin {
        128
    } else {
        0
    };
    let s: u8 = v / 2 + k;
    (s, make_flags(s == 0, false, false, v % 2 == 1))
}

/// Performs SLA.
pub fn sla(v: u8) -> (r: (u8, u8))
    ensures
        r == spec_sla(v),
{
    let s: u16 = (v as u16 * 2) % 256;
    (s as u8, make_flags(s == 0, false, false, v >= 128))
}

/// Performs SRA.
pub fn sra(v: u8) -> (r: (u8, u8))
    ensures
        r == spec_sra(v),
{
    let s: u8 = v / 2 + v / 128 * 128;
    (s, make_flags(s == 0, false, false, v % 2 == 1))
}

/// Performs SRL.
pub fn srl(v: u8) -> (r: (u8, u8))
    ensures
        r == spec_srl(v),
{
    let s: u8 = v / 2;
    (s, make_flags(s == 0, false, false, v % 2 == 1))
}

/// Performs SWAP.
pub fn swap(v: u8) -> (r: (u8, u8))
    ensures
        r == spec_swap(v),
{
    let s: u8 = v % 16 * 16 + v / 16;
    (s, make_flags(s == 0, false, false, false))
}

/// Performs DAA.
pub fn daa(a: u8, f: u8) -> (r: (u8, u8))
    ensures
        r == spec_daa(a, f),
{
    if !n_of(f) {
        let carry = c_of(f) || a > 0x99;
        let adjust: u16 = (if h_of(f) || a % 16 > 9 {
            6u16
        } else {
            0
        }) + (if carry {
            0x60u16
        } else {
            0
        });
        let s: u16 = (a as u16 + adjust) % 256;
        (s as u8, make_flags(s == 0, false, false, carry))
    } else {
        let adjust: u16 = (if h_of(f) {
            6u16
        } else {
            0
        }) + (if c_of(f) {
            0x60u16
        } else {
            0
        });
        let s: u16 = (a as u16 + 256 - adjust) % 256;
        (s as u8, make_flags(s == 0, true, false, c_of(f)))
    }
}

/// Performs CPL.
pub fn cpl(a: u8, f: u8) -> (r: (u8, u8))
    ensures
        r == spec_cpl(a, f),
{
    (255 - a, make_flags(crate::flags::z_of(f), true, true, c_of(f)))
}

/// Performs ADD HL,rr.
pub fn add16(hl: u16, x: u16, f: u8) -> (r: (u16, u8))
    ensures
        r == spec_add16(hl, x, f),
{
    let s: u32 = (hl as u32 + x as u32) % 0x10000;
    (
        s as u16,
        make_flags(
            crate::flags::z_of(f),
            false,
            hl % 4096 + x % 4096 > 4095,
            hl as u32 + x as u32 > 65535,
        ),
    )
}

/// Performs ADD SP,n / LD HL,SP+n.
pub fn sp_offset(sp: u16, n: u8) -> (r: (u16, u8))
    ensures
        r == spec_sp_offset(sp, n),
{
    let off: u32 = if n < 128 {
        n as u32
    } else {
        n as u32 + 0xff00
    };
    let s: u32 = (sp as u32 + off) % 0x10000;
    (s as u16, make_flags(false, false, sp % 16 + (n % 16) as u16 > 15, sp % 256 + n as u16 > 255))
}

/// A valid BCD byte: both nibbles are decimal digits.
pub open spec fn is_bcd(a: u8) -> bool {
    a % 16 <= 9 && a / 16 <= 9
}

/// The number a BCD byte denotes.
pub open spec fn bcd_val(a: u8) -> int {
    10 * (a / 16) + a % 16
}

/// DAA after ADD of two valid BCD bytes leaves the BCD representation of
/// the decimal sum in the accumulator, with C as the decimal carry.
pub proof fn lemma_daa_add(a: u8, b: u8)
    requires
        is_bcd(a),
        is_bcd(b),
    ensures
        ({
            let added = spec_add(a, b);
            let adjusted = spec_daa(added.0, added.1);
            &&& is_bcd(adjusted.0)
            &&& bcd_val(adjusted.0) == (bcd_val(a) + bcd_val(b)) % 100
            &&& flag_c(adjusted.1) == (bcd_val(a) + bcd_val(b) >= 100)
        }),
{
    let added = spec_add(a, b);
    let v = added.0;
    let cy = a + b > 255;
    let h6 = flag_h(added.1) || v % 16 > 9;
    crate::flags::lemma_flags_byte(v == 0, false, a % 16 + b % 16 > 15, a + b > 255);
    let carry = cy || v > 0x99;
    let adjust = (if h6 {
        6int
    } else {
        0
    }) + (if carry {
        0x60int
    } else {
        0
    });
    let r = spec_daa(v, added.1).0;
    crate::flags::lemma_flags_byte(r == 0, false, false, carry);
    assert(is_bcd(r) && bcd_val(r) == (bcd_val(a) + bcd_val(b)) % 100 && carry == (bcd_val(a)
        + bcd_val(b) >= 100)) by (nonlinear_arith)
        requires
            a % 16 <= 9,
            a / 16 <= 9,
            b % 16 <= 9,
            b / 16 <= 9,
            v == (a + b) % 256,
            cy == (a + b > 255),
            h6 == (a % 16 + b % 16 > 15 || v % 16 > 9),
            carry == (cy || v > 0x99),
            adjust == (if h6 {
                6int
            } else {
                0
            }) + (if carry {
                0x60int
            } else {
                0
            }),
            r == (v + adjust) % 256,
            is_bcd(r) == (r % 16 <= 9 && r / 16 <= 9),
            bcd_val(r) == 10 * (r / 16) + r % 16,
            bcd_val(a) == 10 * (a / 16) + a % 16,
            bcd_val(b) == 10 * (b / 16) + b % 16,
    ;
}

/// DAA after SUB of two valid BCD bytes leaves the BCD representation of
/// the decimal difference in the accumulator, with C as the decimal
/// borrow.
pub proof fn lemma_daa_sub(a: u8, b: u8)
    requires
        is_bcd(a),
        is_bcd(b),
    ensures
        ({
            let subbed = spec_sub(a, b);
            let adjusted = spec_daa(subbed.0, subbed.1);
            &&& is_bcd(adjusted.0)
            &&& bcd_val(adjusted.0) == (100 + bcd_val(a) - bcd_val(b)) % 100
            &&& flag_c(adjusted.1) == (bcd_val(a) < bcd_val(b))
        }),
{
    let subbed = spec_sub(a, b);
    let v = subbed.0;
    let borrow = a < b;
    let hb = a % 16 < b % 16;
    crate::flags::lemma_flags_byte(v == 0, true, a % 16 < b % 16, a < b);
    let adjust = (if hb {
        6int
    } else {
        0
    }) + (if borrow {
        0x60int
    } else {
        0
    });
    let r = spec_daa(v, subbed.1).0;
    crate::flags::lemma_flags_byte(r == 0, true, false, borrow);
    assert(is_bcd(r) && bcd_val(r) == (100 + bcd_val(a) - bcd_val(b)) % 100 && borrow == (bcd_val(
        a,
    ) < bcd_val(b))) by (nonlinear_arith)
        requires
            a % 16 <= 9,
            a / 16 <= 9,
            b % 16 <= 9,
            b / 16 <= 9,
            v == (a - b) % 256,
            borrow == (a < b),
            hb == (a % 16 < b % 16),
            adjust == (if hb {
                6int
            } else {
                0
            }) + (if borrow {
                0x60int
            } else {
                0
            }),
            r == (v - adjust) % 256,
            is_bcd(r) == (r % 16 <= 9 && r / 16 <= 9),
            bcd_val(r) == 10 * (r / 16) + r % 16,
            bcd_val(a) == 10 * (a / 16) + a % 16,
            bcd_val(b) == 10 * (b / 16) + b % 16,
    ;
}

/// Adding a valid BCD byte and subtracting it again, adjusting with DAA
/// after each step, restores the accumulator exactly.
pub proof fn lemma_daa_round_trip(a: u8, b: u8)
    requires
        is_bcd(a),
        is_bcd(b),
    ensures
        ({
            let added = spec_add(a, b);
            let sum = spec_daa(added.0, added.1);
            let subbed = spec_sub(sum.0, b);
            let back = spec_daa(subbed.0, subbed.1);
            back.0 == a
        }),
{
    lemma_daa_add(a, b);
    let added = spec_add(a, b);
    let sum = spec_daa(added.0, added.1);
    lemma_daa_sub(sum.0, b);
    let subbed = spec_sub(sum.0, b);
    let back = spec_daa(subbed.0, subbed.1);
    assert(bcd_val(back.0) == bcd_val(a) && back.0 == a) by (nonlinear_arith)
        requires
            a % 16 <= 9,
            a / 16 <= 9,
            b % 16 <= 9,
            b / 16 <= 9,
            back.0 % 16 <= 9,
            back.0 / 16 <= 9,
            bcd_val(a) == 10 * (a / 16) + a % 16,
            bcd_val(b) == 10 * (b / 16) + b % 16,
            bcd_val(back.0) == 10 * (back.0 / 16) + back.0 % 16,
            bcd_val(sum.0) == (bcd_val(a) + bcd_val(b)) % 100,
            bcd_val(back.0) == (100 + bcd_val(sum.0) - bcd_val(b)) % 100,
    ;
}

/// CPL twice restores the accumulator; each CPL sets only N and H, so the
/// pair leaves Z and C as they were with N and H set.
pub proof fn lemma_cpl_involution(a: u8, f: u8)
    ensures
        spec_cpl(spec_cpl(a, f).0, spec_cpl(a, f).1).0 == a,
        spec_cpl(spec_cpl(a, f).0, spec_cpl(a, f).1).1 == flags_byte(
            flag_z(f),
            true,
            true,
            flag_c(f),
        ),
{
    crate::flags::lemma_flags_byte(flag_z(f), true, true, flag_c(f));
}

/// Performs the accumulator operation selected by `y`.
pub fn acc_op(y: u8, a: u8, f: u8, x: u8) -> (r: (u8, u8))
    requires
        y < 8,
    ensures
        r == spec_acc_op(y as int, a, f, x),
{
    if y == 0 {
        crate::alu::add(a, x)
    } else if y == 1 {
        adc(a, x, c_of(f))
    } else if y == 2 {
        crate::alu::sub(a, x)
    } else if y == 3 {
        sbc(a, x, c_of(f))
    } else if y == 4 {
        and(a, x)
    } else if y == 5 {
        xor(a, x)
    } else if y == 6 {
        or(a, x)
    } else {
        (a, cp(a, x))
    }
}

/// Performs the rotate/shift operation selected by `y`.
pub fn rot_op(y: u8, v: u8, f: u8) -> (r: (u8, u8))
    requires
        y < 8,
    ensures
        r == spec_rot_op(y as int, v, f),
{
    if y == 0 {
        rlc(v)
    } else if y == 1 {
        rrc(v)
    } else if y == 2 {
        rl(v, c_of(f))
    } else if y == 3 {
        rr(v, c_of(f))
    } else if y == 4 {
        sla(v)
    } else if y == 5 {
        sra(v)
    } else if y == 6 {
        swap(v)
    } else {
        srl(v)
    }
}

} // verus!
