//! Arithmetic and flag semantics on concrete values.

use mcugb::alu;
use mcugb::flags::{FLAG_C, FLAG_H, FLAG_N, FLAG_Z};

#[test]
fn inc_wraps_to_zero() {
    // INC 0xFF -> 0 with Z=1, H=1, N=0; C is untouched.
    assert_eq!(alu::inc8(0xff, 0), (0x00, FLAG_Z | FLAG_H));
    assert_eq!(alu::inc8(0xff, FLAG_C), (0x00, FLAG_Z | FLAG_H | FLAG_C));
}

#[test]
fn dec_wraps_to_ff() {
    // DEC 0x00 -> 0xFF with Z=0, H=1, N=1; C is untouched.
    assert_eq!(alu::dec8(0x00, 0), (0xff, FLAG_N | FLAG_H));
    assert_eq!(alu::dec8(0x00, FLAG_C), (0xff, FLAG_N | FLAG_H | FLAG_C));
}

#[test]
fn add_a_a_with_80() {
    // ADD of 0x80 to itself overflows to zero: C=1 and Z=1; the low
    // nibbles are zero, so no half-carry arises.
    assert_eq!(alu::add(0x80, 0x80), (0x00, FLAG_Z | FLAG_C));
}

#[test]
fn add_half_carry() {
    assert_eq!(alu::add(0x0f, 0x01), (0x10, FLAG_H));
    assert_eq!(alu::add(0x3a, 0xc6), (0x00, FLAG_Z | FLAG_H | FLAG_C));
}

#[test]
fn adc_uses_carry() {
    assert_eq!(alu::adc(0x10, 0x01, true), (0x12, 0x00));
    assert_eq!(alu::adc(0xff, 0x00, true), (0x00, FLAG_Z | FLAG_H | FLAG_C));
}

#[test]
fn sub_and_cp() {
    assert_eq!(alu::sub(0x3e, 0x3e), (0x00, FLAG_Z | FLAG_N));
    assert_eq!(alu::sub(0x3e, 0x40), (0xfe, FLAG_N | FLAG_C));
    assert_eq!(alu::cp(0x3c, 0x2f), FLAG_N | FLAG_H);
}

#[test]
fn sbc_borrows() {
    assert_eq!(alu::sbc(0x3b, 0x2a, true), (0x10, FLAG_N));
    assert_eq!(alu::sbc(0x3b, 0x4f, true), (0xeb, FLAG_N | FLAG_H | FLAG_C));
}

#[test]
fn logic_ops() {
    assert_eq!(alu::and(0x5a, 0x3f), (0x1a, FLAG_H));
    assert_eq!(alu::and(0x5a, 0x00), (0x00, FLAG_Z | FLAG_H));
    assert_eq!(alu::or(0x5a, 0x0f), (0x5f, 0x00));
    assert_eq!(alu::xor(0xff, 0x0f), (0xf0, 0x00));
    assert_eq!(alu::xor(0xff, 0xff), (0x00, FLAG_Z));
}

#[test]
fn rotates() {
    // RLC 0x85: bit 7 wraps to bit 0 and to C.
    assert_eq!(alu::rlc(0x85), (0x0b, FLAG_C));
    // RRC 0x01: bit 0 wraps to bit 7 and to C.
    assert_eq!(alu::rrc(0x01), (0x80, FLAG_C));
    // RL through a clear carry drops bit 7 into C.
    assert_eq!(alu::rl(0x80, false), (0x00, FLAG_Z | FLAG_C));
    // RR pulls the carry into bit 7.
    assert_eq!(alu::rr(0x01, true), (0x80, FLAG_C));
    assert_eq!(alu::sla(0xff), (0xfe, FLAG_C));
    assert_eq!(alu::sra(0x8a), (0xc5, 0x00));
    assert_eq!(alu::srl(0x01), (0x00, FLAG_Z | FLAG_C));
}

#[test]
fn swap_nibbles() {
    assert_eq!(alu::swap(0xab), (0xba, 0x00));
    assert_eq!(alu::swap(0x00), (0x00, FLAG_Z));
}

#[test]
fn daa_after_add() {
    // 0x19 + 0x28 = 0x41 with a half-carry; DAA corrects to 0x47.
    let (v, f) = alu::add(0x19, 0x28);
    assert_eq!(v, 0x41);
    let (adj, f2) = alu::daa(v, f);
    assert_eq!(adj, 0x47);
    assert_eq!(f2 & FLAG_C, 0);
    // 0x90 + 0x20 = 0xB0; DAA corrects to 0x10 with the decimal carry.
    let (v, f) = alu::add(0x90, 0x20);
    let (adj, f2) = alu::daa(v, f);
    assert_eq!(adj, 0x10);
    assert_ne!(f2 & FLAG_C, 0);
}

#[test]
fn daa_round_trip() {
    // Adding BCD 0x28 and subtracting it again, adjusting after each
    // step, restores the accumulator.
    let (v, f) = alu::add(0x19, 0x28);
    let (sum, _) = alu::daa(v, f);
    assert_eq!(sum, 0x47);
    let (v2, f2) = alu::sub(sum, 0x28);
    let (back, _) = alu::daa(v2, f2);
    assert_eq!(back, 0x19);
    // the same trip through a decimal carry
    let (v, f) = alu::add(0x91, 0x23);
    let (sum, _) = alu::daa(v, f);
    assert_eq!(sum, 0x14);
    let (v2, f2) = alu::sub(sum, 0x23);
    let (back, _) = alu::daa(v2, f2);
    assert_eq!(back, 0x91);
}

#[test]
fn cpl_twice_restores() {
    let (v, f) = alu::cpl(0x3c, FLAG_Z);
    assert_eq!(v, 0xc3);
    assert_eq!(f, FLAG_Z | FLAG_N | FLAG_H);
    let (v2, f2) = alu::cpl(v, f);
    assert_eq!(v2, 0x3c);
    assert_eq!(f2, FLAG_Z | FLAG_N | FLAG_H);
}

#[test]
fn add16_carries() {
    // ADD HL,rr: H from bit 11, C from bit 15, Z untouched.
    assert_eq!(alu::add16(0x8a23, 0x0605, FLAG_Z), (0x9028, FLAG_Z | FLAG_H));
    assert_eq!(alu::add16(0x8a23, 0x8a23, 0), (0x1446, FLAG_H | FLAG_C));
}

#[test]
fn sp_offset_flags() {
    // Carries come from bits 3 and 7 of the unsigned low byte.
    assert_eq!(alu::sp_offset(0xfff8, 0x08), (0x0000, FLAG_H | FLAG_C));
    assert_eq!(alu::sp_offset(0x0000, 0xff), (0xffff, 0x00));
    assert_eq!(alu::sp_offset(0x0001, 0xff), (0x0000, FLAG_H | FLAG_C));
}
