//! More opcode behaviors driven through whole-system steps.

use mcugb::gb::GB;

fn rom_with(program: &[u8]) -> Vec<u8> {
    let mut rom = vec![0u8; 0x8000];
    rom[0x100..0x100 + program.len()].copy_from_slice(program);
    rom
}

fn boot(program: &[u8]) -> (GB, Vec<u8>) {
    let mut gb = GB::with_rom(rom_with(program)).unwrap();
    gb.reset();
    (gb, vec![0u8; 0x20000])
}

#[test]
fn interrupt_priority_picks_lowest_bit() {
    let (mut gb, mut buf) = boot(&[]);
    gb.mem.write8(0xffff, 0x1f);
    gb.mem.write8(0xff0f, 0x06);
    gb.cpu.interrupts = true;
    gb.step(&mut buf);
    // LCD STAT (bit 1) outranks Timer (bit 2)
    assert_eq!(gb.cpu.pc, 0x0048);
    assert_eq!(gb.mem.read8(0xff0f), 0x04);
    // the master enable dropped, so the next step runs code instead
    gb.step(&mut buf);
    assert_ne!(gb.cpu.pc, 0x0050);
}

#[test]
fn reti_reenables_interrupts() {
    // at 0x48 (the LCD STAT vector): RETI
    let mut rom = rom_with(&[]);
    rom[0x48] = 0xd9;
    let mut gb = GB::with_rom(rom).unwrap();
    gb.reset();
    let mut buf = vec![0u8; 0x20000];
    gb.mem.write8(0xffff, 0x02);
    gb.mem.write8(0xff0f, 0x02);
    gb.cpu.interrupts = true;
    gb.cpu.pc = 0x1000;
    gb.step(&mut buf);
    assert_eq!(gb.cpu.pc, 0x0048);
    gb.step(&mut buf);
    assert_eq!(gb.cpu.pc, 0x1000);
    assert!(gb.cpu.interrupts);
    assert_eq!(gb.cpu.sp, 0xfffe);
}

#[test]
fn ldi_and_ldd_move_hl() {
    // LD HL,0x8000; LD A,0x11; LDI (HL),A; LDD (HL),A
    let (mut gb, mut buf) = boot(&[0x21, 0x00, 0x80, 0x3e, 0x11, 0x22, 0x32]);
    for _ in 0..4 {
        gb.step(&mut buf);
    }
    assert_eq!(gb.mem.read8(0x8000), 0x11);
    assert_eq!(gb.mem.read8(0x8001), 0x11);
    assert_eq!(gb.cpu.hl(), 0x8000);
}

#[test]
fn ldi_a_reads_and_increments() {
    // LD HL,0x8005; LDI A,(HL)
    let (mut gb, mut buf) = boot(&[0x21, 0x05, 0x80, 0x2a]);
    gb.mem.write8(0x8005, 0x66);
    gb.step(&mut buf);
    gb.step(&mut buf);
    assert_eq!(gb.cpu.reg.a, 0x66);
    assert_eq!(gb.cpu.hl(), 0x8006);
}

#[test]
fn add_hl_rr_sets_carries() {
    // LD HL,0x8A23; LD BC,0x0605; ADD HL,BC
    let (mut gb, mut buf) = boot(&[0x21, 0x23, 0x8a, 0x01, 0x05, 0x06, 0x09]);
    for _ in 0..3 {
        gb.step(&mut buf);
    }
    assert_eq!(gb.cpu.hl(), 0x9028);
    // H rose out of bit 11, C did not rise out of bit 15, Z was kept
    assert_eq!(gb.cpu.reg.f & 0x20, 0x20);
    assert!(!gb.cpu.c());
}

#[test]
fn inc_dec_rr_wrap() {
    // LD BC,0xFFFF; INC BC; LD DE,0x0000; DEC DE
    let (mut gb, mut buf) = boot(&[0x01, 0xff, 0xff, 0x03, 0x11, 0x00, 0x00, 0x1b]);
    for _ in 0..4 {
        gb.step(&mut buf);
    }
    assert_eq!(gb.cpu.bc(), 0x0000);
    assert_eq!(gb.cpu.de(), 0xffff);
}

#[test]
fn daa_opcode_adjusts_accumulator() {
    // LD A,0x19; LD B,0x28; ADD A,B; DAA
    let (mut gb, mut buf) = boot(&[0x3e, 0x19, 0x06, 0x28, 0x80, 0x27]);
    for _ in 0..4 {
        gb.step(&mut buf);
    }
    assert_eq!(gb.cpu.reg.a, 0x47);
}

#[test]
fn scf_and_ccf() {
    // SCF; CCF
    let (mut gb, mut buf) = boot(&[0x37, 0x3f]);
    gb.step(&mut buf);
    assert!(gb.cpu.c());
    gb.step(&mut buf);
    assert!(!gb.cpu.c());
}

#[test]
fn conditional_call_and_ret() {
    // XOR A; CALL NZ,0x0150 (not taken); CALL Z,0x0150; at 0x150: RET NZ
    // (not taken); RET Z
    let mut rom = rom_with(&[0xaf, 0xc4, 0x50, 0x01, 0xcc, 0x50, 0x01]);
    rom[0x150] = 0xc0;
    rom[0x151] = 0xc8;
    let mut gb = GB::with_rom(rom).unwrap();
    gb.reset();
    let mut buf = vec![0u8; 0x20000];
    gb.step(&mut buf);
    let (c1, _) = gb.step(&mut buf);
    assert_eq!(c1, 12);
    assert_eq!(gb.cpu.pc, 0x0104);
    let (c2, _) = gb.step(&mut buf);
    assert_eq!(c2, 16);
    assert_eq!(gb.cpu.pc, 0x0150);
    let (c3, _) = gb.step(&mut buf);
    assert_eq!(c3, 8);
    assert_eq!(gb.cpu.pc, 0x0151);
    let (c4, _) = gb.step(&mut buf);
    assert_eq!(c4, 12);
    assert_eq!(gb.cpu.pc, 0x0107);
    assert_eq!(gb.cpu.sp, 0xfffe);
}

#[test]
fn sp_displacement_ops() {
    // LD SP,0xFFF8; LD HL,SP+0x08; ADD SP,0xF8 (-8)
    let (mut gb, mut buf) = boot(&[0x31, 0xf8, 0xff, 0xf8, 0x08, 0xe8, 0xf8]);
    gb.step(&mut buf);
    gb.step(&mut buf);
    assert_eq!(gb.cpu.hl(), 0x0000);
    assert!(gb.cpu.c());
    gb.step(&mut buf);
    assert_eq!(gb.cpu.sp, 0xfff0);
}

#[test]
fn jp_hl_and_ld_sp_hl() {
    // LD HL,0x2345; LD SP,HL; JP HL
    let (mut gb, mut buf) = boot(&[0x21, 0x45, 0x23, 0xf9, 0xe9]);
    for _ in 0..3 {
        gb.step(&mut buf);
    }
    assert_eq!(gb.cpu.sp, 0x2345);
    assert_eq!(gb.cpu.pc, 0x2345);
}

#[test]
fn ld_a_nn_and_back() {
    // LD A,0x7E; LD (0x8123),A; LD A,0x00; LD A,(0x8123)
    let (mut gb, mut buf) = boot(&[0x3e, 0x7e, 0xea, 0x23, 0x81, 0x3e, 0x00, 0xfa, 0x23, 0x81]);
    for _ in 0..4 {
        gb.step(&mut buf);
    }
    assert_eq!(gb.cpu.reg.a, 0x7e);
}

#[test]
fn ld_c_indirect() {
    // LD C,0x81; LD A,0x55; LD (0xFF00+C),A; LD A,(0xFF00+C)
    let (mut gb, mut buf) = boot(&[0x0e, 0x81, 0x3e, 0x55, 0xe2, 0xf2]);
    for _ in 0..4 {
        gb.step(&mut buf);
    }
    assert_eq!(gb.mem.read8(0xff81), 0x55);
    assert_eq!(gb.cpu.reg.a, 0x55);
}

#[test]
fn full_title_without_nul() {
    let mut rom = vec![0u8; 0x8000];
    rom[0x134..0x144].copy_from_slice(b"ABCDEFGHIJKLMNOP");
    let gb = GB::with_rom(rom).unwrap();
    assert_eq!(gb.title().as_slice(), b"ABCDEFGHIJKLMNOP");
}

#[test]
fn sp_and_pc_wrap_around() {
    // DEC SP at zero wraps to 0xFFFF; INC SP wraps back
    let (mut gb, mut buf) = boot(&[0x3b, 0x33]);
    gb.cpu.sp = 0;
    gb.step(&mut buf);
    assert_eq!(gb.cpu.sp, 0xffff);
    gb.step(&mut buf);
    assert_eq!(gb.cpu.sp, 0x0000);
    // fetching past 0xFFFF wraps the program counter to zero
    gb.cpu.pc = 0xffff;
    gb.step(&mut buf);
    assert_eq!(gb.cpu.pc, 0x0000);
}

#[test]
fn ld_nn_sp_stores_the_stack_pointer() {
    // LD (0x8100),SP
    let (mut gb, mut buf) = boot(&[0x08, 0x00, 0x81]);
    let (cycles, _) = gb.step(&mut buf);
    assert_eq!(cycles, 20);
    assert_eq!(gb.mem.read16(0x8100), 0xfffe);
}
