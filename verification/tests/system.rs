//! Whole-system scenarios: reset state, instruction execution, interrupt
//! dispatch, the timers, the frame cadence and the joypad.

use mcugb::gb::GB;

fn rom_with(program: &[u8]) -> Vec<u8> {
    let mut rom = vec![0u8; 0x8000];
    rom[0x100..0x100 + program.len()].copy_from_slice(program);
    rom
}

fn boot(program: &[u8]) -> (GB, Vec<u8>) {
    let mut gb = GB::with_rom(rom_with(program)).unwrap();
    gb.reset();
    (gb, vec![0u8; 0x20000])
}

#[test]
fn reset_matches_documented_state() {
    let (gb, _) = boot(&[]);
    assert_eq!(gb.cpu.pc, 0x0100);
    assert_eq!(gb.cpu.sp, 0xfffe);
    assert_eq!(gb.cpu.af(), 0x01b0);
    assert_eq!(gb.cpu.bc(), 0x0013);
    assert_eq!(gb.cpu.de(), 0x00d8);
    assert_eq!(gb.cpu.hl(), 0x014d);
    assert!(!gb.cpu.interrupts);
    assert_eq!(gb.mem.read8(0xff40), 0x91);
    assert_eq!(gb.mem.read8(0xff47), 0xfc);
    assert_eq!(gb.mem.read8(0xff48), 0xff);
    assert_eq!(gb.mem.read8(0xff49), 0xff);
    assert_eq!(gb.mem.read8(0xff0f), 0xe1);
    assert_eq!(gb.mem.joypad_action, 0x0f);
    assert_eq!(gb.mem.joypad_direction, 0x0f);
    assert_eq!(gb.gpu.mode, 2);
    assert_eq!(gb.gpu.clock, 0);
}

#[test]
fn title_comes_from_the_header() {
    let mut rom = vec![0u8; 0x8000];
    rom[0x134..0x139].copy_from_slice(b"HELLO");
    let gb = GB::with_rom(rom).unwrap();
    assert_eq!(gb.title().as_slice(), b"HELLO");
}

#[test]
fn jp_lands_and_costs_12_cycles() {
    // JP 0x0150
    let (mut gb, mut buf) = boot(&[0xc3, 0x50, 0x01]);
    let (cycles, _) = gb.step(&mut buf);
    assert_eq!(gb.cpu.pc, 0x0150);
    assert_eq!(cycles, 12);
}

#[test]
fn ld_a_immediate() {
    // LD A, 0x42
    let (mut gb, mut buf) = boot(&[0x3e, 0x42]);
    gb.step(&mut buf);
    assert_eq!(gb.cpu.reg.a, 0x42);
    assert_eq!(gb.cpu.pc, 0x0102);
}

#[test]
fn ld_hl_indirect_stores() {
    // LD (HL), 0xAB with HL = 0x8000
    let (mut gb, mut buf) = boot(&[0x36, 0xab]);
    gb.cpu.set_hl(0x8000);
    gb.step(&mut buf);
    assert_eq!(gb.mem.read8(0x8000), 0xab);
}

#[test]
fn interrupt_dispatch_pushes_and_vectors() {
    let (mut gb, mut buf) = boot(&[]);
    gb.mem.write8(0xffff, 0x01);
    gb.mem.write8(0xff0f, 0x01);
    gb.cpu.interrupts = true;
    gb.cpu.pc = 0x1000;
    gb.cpu.sp = 0xfffe;
    gb.step(&mut buf);
    assert_eq!(gb.cpu.sp, 0xfffc);
    assert_eq!(gb.mem.read16(0xfffc), 0x1000);
    assert_eq!(gb.cpu.pc, 0x0040);
    assert_eq!(gb.mem.read8(0xff0f) & 0x01, 0);
    assert!(!gb.cpu.interrupts);
}

#[test]
fn push_then_pop_restores_pair_and_sp() {
    // PUSH BC; POP BC
    let (mut gb, mut buf) = boot(&[0xc5, 0xc1]);
    gb.cpu.set_bc(0x1234);
    gb.step(&mut buf);
    assert_eq!(gb.cpu.sp, 0xfffc);
    gb.step(&mut buf);
    assert_eq!(gb.cpu.bc(), 0x1234);
    assert_eq!(gb.cpu.sp, 0xfffe);
}

#[test]
fn push_pop_af_keeps_flag_low_nibble_clear() {
    // PUSH AF; POP AF round-trips because F's low nibble reads zero
    let (mut gb, mut buf) = boot(&[0xf5, 0xf1]);
    gb.cpu.set_af(0x12ff);
    assert_eq!(gb.cpu.af(), 0x12f0);
    gb.step(&mut buf);
    gb.step(&mut buf);
    assert_eq!(gb.cpu.af(), 0x12f0);
}

#[test]
fn jr_backwards_wraps_to_itself() {
    // JR -2 jumps back onto the JR opcode
    let (mut gb, mut buf) = boot(&[0x18, 0xfe]);
    gb.step(&mut buf);
    assert_eq!(gb.cpu.pc, 0x0100);
}

#[test]
fn cb_rlc_on_memory_operand() {
    // LD HL, 0x8000; LD (HL), 0x81; RLC (HL)
    let (mut gb, mut buf) = boot(&[0x21, 0x00, 0x80, 0x36, 0x81, 0xcb, 0x06]);
    gb.step(&mut buf);
    gb.step(&mut buf);
    let (cycles, _) = gb.step(&mut buf);
    assert_eq!(gb.mem.read8(0x8000), 0x03);
    assert_eq!(cycles, 16);
    assert!(gb.cpu.c());
}

#[test]
fn cb_bit_set_res() {
    // LD A, 0x00; SET 3,A; BIT 3,A; RES 3,A
    let (mut gb, mut buf) = boot(&[0x3e, 0x00, 0xcb, 0xdf, 0xcb, 0x5f, 0xcb, 0x9f]);
    gb.step(&mut buf);
    gb.step(&mut buf);
    assert_eq!(gb.cpu.reg.a, 0x08);
    gb.step(&mut buf);
    assert!(!gb.cpu.z());
    gb.step(&mut buf);
    assert_eq!(gb.cpu.reg.a, 0x00);
}

#[test]
fn undefined_opcode_locks_the_processor() {
    let (mut gb, mut buf) = boot(&[0xd3]);
    gb.step(&mut buf);
    assert!(gb.cpu.halt);
    let pc = gb.cpu.pc;
    let (cycles, _) = gb.step(&mut buf);
    assert_eq!(cycles, 4);
    assert_eq!(gb.cpu.pc, pc);
}

#[test]
fn halt_wakes_on_pending_interrupt() {
    // HALT; INC A — the INC runs only once IE and IF share a bit
    let (mut gb, mut buf) = boot(&[0x76, 0x3c]);
    gb.mem.write8(0xff0f, 0x00);
    gb.step(&mut buf);
    assert!(gb.cpu.halt);
    gb.step(&mut buf);
    assert!(gb.cpu.halt);
    assert_eq!(gb.cpu.reg.a, 0x01);
    gb.mem.write8(0xffff, 0x04);
    gb.mem.write8(0xff0f, 0x04);
    gb.step(&mut buf);
    assert!(!gb.cpu.halt);
    assert_eq!(gb.cpu.reg.a, 0x02);
}

#[test]
fn div_advances_every_256_cycles() {
    let (mut gb, mut buf) = boot(&[]);
    // 64 NOPs are 256 cycles
    for _ in 0..64 {
        gb.step(&mut buf);
    }
    assert_eq!(gb.mem.read8(0xff04), 1);
    for _ in 0..128 {
        gb.step(&mut buf);
    }
    assert_eq!(gb.mem.read8(0xff04), 3);
}

#[test]
fn tima_reloads_and_requests_timer_interrupt() {
    let (mut gb, mut buf) = boot(&[]);
    gb.mem.write8(0xff05, 0xff);
    gb.mem.write8(0xff06, 0x10);
    gb.mem.write8(0xff07, 0x05);
    gb.mem.write8(0xff0f, 0x00);
    // four NOPs are 16 cycles: one tick of the 16-cycle timer
    for _ in 0..4 {
        gb.step(&mut buf);
    }
    assert_eq!(gb.mem.read8(0xff05), 0x10);
    assert_eq!(gb.mem.read8(0xff0f) & 0x04, 0x04);
}

#[test]
fn frame_takes_70224_cycles_with_one_vblank() {
    let (mut gb, mut buf) = boot(&[]);
    gb.mem.write8(0xff0f, 0x00);
    let mut total: u32 = 0;
    let mut redraws: u32 = 0;
    let mut max_ly: u8 = 0;
    let mut seen_153_then_0 = false;
    while total < 70224 {
        let (cycles, redraw) = gb.step(&mut buf);
        total += cycles as u32;
        if redraw {
            redraws += 1;
        }
        let ly = gb.mem.read8(0xff44);
        if ly > max_ly {
            max_ly = ly;
        }
        if max_ly == 153 && ly == 0 {
            seen_153_then_0 = true;
        }
    }
    assert_eq!(total, 70224);
    assert_eq!(redraws, 1);
    assert_eq!(max_ly, 153);
    assert!(seen_153_then_0);
    assert_eq!(gb.mem.read8(0xff44), 0);
    assert_eq!(gb.gpu.mode, 2);
    assert_eq!(gb.gpu.clock, 0);
    // the V-Blank interrupt was requested
    assert_eq!(gb.mem.read8(0xff0f) & 0x01, 0x01);
    // the frame was composited: an all-zero tile map shows shade 0
    assert_eq!(buf[0], 0x9c);
    assert_eq!(buf[1], 0xe7);
}

#[test]
fn ppu_walks_modes_in_order() {
    let (mut gb, mut buf) = boot(&[]);
    let mut modes: Vec<u8> = vec![gb.gpu.mode];
    for _ in 0..456 / 4 + 30 {
        gb.step(&mut buf);
        let m = gb.gpu.mode;
        if *modes.last().unwrap() != m {
            modes.push(m);
        }
    }
    // one full line and the start of the next: 2, 3, 0, 2, 3, ...
    assert_eq!(&modes[0..4], &[2, 3, 0, 2]);
}

#[test]
fn joypad_press_requests_interrupt_once() {
    let (mut gb, mut buf) = boot(&[]);
    gb.mem.write8(0xff0f, 0x00);
    gb.set_joypad(0, 1);
    assert_eq!(gb.mem.joypad_action, 0x0d);
    assert_eq!(gb.mem.read8(0xff0f) & 0x10, 0x10);
    gb.mem.write8(0xff0f, 0x00);
    // pressing a held button requests nothing further
    gb.set_joypad(0, 1);
    assert_eq!(gb.mem.read8(0xff0f) & 0x10, 0x00);
    gb.unset_joypad(0, 1);
    assert_eq!(gb.mem.joypad_action, 0x0f);
    // the multiplex shows the held row
    gb.set_joypad(1, 2);
    gb.mem.write8(0xff00, 0x20);
    assert_eq!(gb.mem.read8(0xff00), 0xeb);
    let _ = buf;
}

#[test]
fn ldh_and_indirect_loads() {
    // LD A,0x21; LDH (0x80),A; LD A,0x00; LDH A,(0x80)
    let (mut gb, mut buf) = boot(&[0x3e, 0x21, 0xe0, 0x80, 0x3e, 0x00, 0xf0, 0x80]);
    for _ in 0..4 {
        gb.step(&mut buf);
    }
    assert_eq!(gb.cpu.reg.a, 0x21);
    assert_eq!(gb.mem.read8(0xff80), 0x21);
}

#[test]
fn call_and_ret() {
    // CALL 0x0150; at 0x0150: RET
    let mut rom = rom_with(&[0xcd, 0x50, 0x01]);
    rom[0x150] = 0xc9;
    let mut gb = GB::with_rom(rom).unwrap();
    gb.reset();
    let mut buf = vec![0u8; 0x20000];
    gb.step(&mut buf);
    assert_eq!(gb.cpu.pc, 0x0150);
    assert_eq!(gb.cpu.sp, 0xfffc);
    assert_eq!(gb.mem.read16(0xfffc), 0x0103);
    gb.step(&mut buf);
    assert_eq!(gb.cpu.pc, 0x0103);
    assert_eq!(gb.cpu.sp, 0xfffe);
}

#[test]
fn rst_vectors() {
    // RST 0x28
    let (mut gb, mut buf) = boot(&[0xef]);
    let (cycles, _) = gb.step(&mut buf);
    assert_eq!(gb.cpu.pc, 0x0028);
    assert_eq!(cycles, 16);
    assert_eq!(gb.mem.read16(0xfffc), 0x0101);
}

#[test]
fn conditional_jump_costs_extra_only_when_taken() {
    // XOR A (sets Z); JR NZ,+2; JR Z,+2
    let (mut gb, mut buf) = boot(&[0xaf, 0x20, 0x02, 0x28, 0x02]);
    gb.step(&mut buf);
    let (c1, _) = gb.step(&mut buf);
    assert_eq!(c1, 8);
    assert_eq!(gb.cpu.pc, 0x0103);
    let (c2, _) = gb.step(&mut buf);
    assert_eq!(c2, 12);
    assert_eq!(gb.cpu.pc, 0x0107);
}
