//! The instruction-set semantics: a specification-level interpreter for
//! the full opcode space (main table and CB prefix), the halt state and
//! interrupt dispatch. The executable interpreter in `exec` is proved to
//! produce exactly these transitions.
//!
//! Conventions: a `Step` is the processor and memory after one opcode plus
//! its machine-cycle cost. The processor handed to `spec_execute` has its
//! program counter already advanced past the opcode byte. The cycle unit
//! is the 4-per-M-cycle scale; conditional jumps, calls and returns pay 4
//! extra cycles when taken. The opcodes the SM83 leaves undefined lock the
//! processor (the halt latch rises and nothing can clear it, as on
//! hardware).

use crate::alu::{spec_add16, spec_bit, spec_cpl, spec_daa, spec_rlc, spec_rrc, spec_rl, spec_rr,
    spec_sp_offset, spec_acc_op, spec_rot_op, spec_inc8, spec_dec8};
use crate::arith::{bit_clear, bit_set, sext8, wrap16};
use crate::cpu::{first_pending, spec_service, spec_timer, CPU, Registers};
use crate::flags::{flag_c, flag_z, flags_byte};
use crate::memory::MemV;
use vstd::prelude::*;

verus! {

/// The outcome of one instruction: the processor, the memory, and the
/// machine cycles it took.
pub struct Step {
    pub cpu: CPU,
    pub mem: MemV,
    pub cycles: u16,
}

/// The operand selected by the low three bits of an opcode: the registers
/// B, C, D, E, H, L, the byte at (HL), then A.
pub open spec fn spec_r8(c: CPU, m: MemV, z: int) -> u8 {
    if z == 0 {
        c.reg.b
    } else if z == 1 {
        c.reg.c
    } else if z == 2 {
        c.reg.d
    } else if z == 3 {
        c.reg.e
    } else if z == 4 {
        c.reg.h
    } else if z == 5 {
        c.reg.l
    } else if z == 6 {
        m.read8s(c.spec_hl())
    } else {
        c.reg.a
    }
}

/// Writes the operand selected by `z`: a register write, or for 6 a byte
/// store at (HL).
pub open spec fn spec_w8(c: CPU, m: MemV, z: int, v: u8) -> (CPU, MemV) {
    if z == 0 {
        (CPU { reg: Registers { b: v, ..c.reg }, ..c }, m)
    } else if z == 1 {
        (CPU { reg: Registers { c: v, ..c.reg }, ..c }, m)
    } else if z == 2 {
        (CPU { reg: Registers { d: v, ..c.reg }, ..c }, m)
    } else if z == 3 {
        (CPU { reg: Registers { e: v, ..c.reg }, ..c }, m)
    } else if z == 4 {
        (CPU { reg: Registers { h: v, ..c.reg }, ..c }, m)
    } else if z == 5 {
        (CPU { reg: Registers { l: v, ..c.reg }, ..c }, m)
    } else if z == 6 {
        (c, m.write8s(c.spec_hl(), v))
    } else {
        (CPU { reg: Registers { a: v, ..c.reg }, ..c }, m)
    }
}

/// The 16-bit register pair selected by an opcode's bits 4-5: BC, DE, HL,
/// SP.
pub open spec fn spec_rr16(c: CPU, i: int) -> u16 {
    if i == 0 {
        c.spec_bc()
    } else if i == 1 {
        c.spec_de()
    } else if i == 2 {
        c.spec_hl()
    } else {
        c.sp
    }
}

/// Writes the 16-bit register pair selected by `i`.
pub open spec fn spec_set_rr16(c: CPU, i: int, v: u16) -> CPU {
    if i == 0 {
        CPU { reg: Registers { b: (v / 256) as u8, c: (v % 256) as u8, ..c.reg }, ..c }
    } else if i == 1 {
        CPU { reg: Registers { d: (v / 256) as u8, e: (v % 256) as u8, ..c.reg }, ..c }
    } else if i == 2 {
        CPU { reg: Registers { h: (v / 256) as u8, l: (v % 256) as u8, ..c.reg }, ..c }
    } else {
        CPU { sp: v, ..c }
    }
}

/// The condition selected by an opcode's bits 3-4: NZ, Z, NC, C.
pub open spec fn spec_cond(c: CPU, i: int) -> bool {
    if i == 0 {
        !flag_z(c.reg.f)
    } else if i == 1 {
        flag_z(c.reg.f)
    } else if i == 2 {
        !flag_c(c.reg.f)
    } else {
        flag_c(c.reg.f)
    }
}

/// An undefined opcode locks the processor, as it does in hardware: the
/// halt latch rises with no wake condition ever delivered for it.
pub open spec fn spec_lock(c: CPU, m: MemV) -> Step {
    Step { cpu: CPU { halt: true, ..c }, mem: m, cycles: 4 }
}

/// The opcodes 0x00-0x3F: loads, 16-bit arithmetic, relative jumps,
/// rotates of A and the flag instructions.
pub open spec fn spec_q0(c: CPU, m: MemV, op: u8) -> Step {
    let y = op as int / 8;
    let f = c.reg.f;
    if op % 8 == 0 {
        if op == 0x00 {
            // NOP
            Step { cpu: c, mem: m, cycles: 4 }
        } else if op == 0x08 {
            // LD (nn), SP
            let addr = m.read16s(c.pc);
            Step {
                cpu: CPU { pc: wrap16(c.pc + 2), ..c },
                mem: m.write16s(addr, c.sp),
                cycles: 20,
            }
        } else if op == 0x10 {
            // STOP is treated as HALT
            Step { cpu: CPU { halt: true, ..c }, mem: m, cycles: 4 }
        } else {
            // JR n and JR cc, n
            let taken = if op == 0x18 {
                true
            } else {
                spec_cond(c, y - 4)
            };
            let n = m.read8s(c.pc);
            let pc1 = wrap16(c.pc + 1);
            if taken {
                Step {
                    cpu: CPU { pc: wrap16(pc1 + sext8(n)), ..c },
                    mem: m,
                    cycles: if op == 0x18 {
                        8
                    } else {
                        12
                    },
                }
            } else {
                Step { cpu: CPU { pc: pc1, ..c }, mem: m, cycles: 8 }
            }
        }
    } else if op % 8 == 1 {
        if y % 2 == 0 {
            // LD rr, nn
            let v = m.read16s(c.pc);
            let c2 = spec_set_rr16(c, y / 2, v);
            Step { cpu: CPU { pc: wrap16(c.pc + 2), ..c2 }, mem: m, cycles: 12 }
        } else {
            // ADD HL, rr
            let vf = spec_add16(c.spec_hl(), spec_rr16(c, y / 2), f);
            let c2 = spec_set_rr16(c, 2, vf.0);
            Step {
                cpu: CPU { reg: Registers { f: vf.1, ..c2.reg }, ..c2 },
                mem: m,
                cycles: 8,
            }
        }
    } else if op % 8 == 2 {
        if y % 2 == 0 {
            // LD (BC)/(DE)/(HL+)/(HL-), A
            let addr = if y == 0 {
                c.spec_bc()
            } else if y == 2 {
                c.spec_de()
            } else {
                c.spec_hl()
            };
            let m2 = m.write8s(addr, c.reg.a);
            let c2 = if y == 4 {
                spec_set_rr16(c, 2, wrap16(c.spec_hl() + 1))
            } else if y == 6 {
                spec_set_rr16(c, 2, wrap16(c.spec_hl() - 1))
            } else {
                c
            };
            Step { cpu: c2, mem: m2, cycles: 8 }
        } else {
            // LD A, (BC)/(DE)/(HL+)/(HL-)
            let addr = if y == 1 {
                c.spec_bc()
            } else if y == 3 {
                c.spec_de()
            } else {
                c.spec_hl()
            };
            let v = m.read8s(addr);
            let c2 = if y == 5 {
                spec_set_rr16(c, 2, wrap16(c.spec_hl() + 1))
            } else if y == 7 {
                spec_set_rr16(c, 2, wrap16(c.spec_hl() - 1))
            } else {
                c
            };
            Step {
                cpu: CPU { reg: Registers { a: v, ..c2.reg }, ..c2 },
                mem: m,
                cycles: 8,
            }
        }
    } else if op % 8 == 3 {
        // INC rr / DEC rr
        let i = y / 2;
        let v = spec_rr16(c, i);
        let c2 = if y % 2 == 0 {
            spec_set_rr16(c, i, wrap16(v + 1))
        } else {
            spec_set_rr16(c, i, wrap16(v - 1))
        };
        Step { cpu: c2, mem: m, cycles: 8 }
    } else if op % 8 == 4 {
        // INC r
        let vf = spec_inc8(spec_r8(c, m, y), f);
        let cm = spec_w8(CPU { reg: Registers { f: vf.1, ..c.reg }, ..c }, m, y, vf.0);
        Step {
            cpu: cm.0,
            mem: cm.1,
            cycles: if y == 6 {
                12
            } else {
                4
            },
        }
    } else if op % 8 == 5 {
        // DEC r
        let vf = spec_dec8(spec_r8(c, m, y), f);
        let cm = spec_w8(CPU { reg: Registers { f: vf.1, ..c.reg }, ..c }, m, y, vf.0);
        Step {
            cpu: cm.0,
            mem: cm.1,
            cycles: if y == 6 {
                12
            } else {
                4
            },
        }
    } else if op % 8 == 6 {
        // LD r, n
        let n = m.read8s(c.pc);
        let c1 = CPU { pc: wrap16(c.pc + 1), ..c };
        let cm = spec_w8(c1, m, y, n);
        Step {
            cpu: cm.0,
            mem: cm.1,
            cycles: if y == 6 {
                12
            } else {
                8
            },
        }
    } else {
        // rotates of A, DAA, CPL, SCF, CCF
        if y < 4 {
            let vf = if y == 0 {
                spec_rlc(c.reg.a)
            } else if y == 1 {
                spec_rrc(c.reg.a)
            } else if y == 2 {
                spec_rl(c.reg.a, flag_c(f))
            } else {
                spec_rr(c.reg.a, flag_c(f))
            };
            // the fast accumulator forms clear Z
            let f2 = flags_byte(false, false, false, flag_c(vf.1));
            Step {
                cpu: CPU { reg: Registers { a: vf.0, f: f2, ..c.reg }, ..c },
                mem: m,
                cycles: 4,
            }
        } else if y == 4 {
            let vf = spec_daa(c.reg.a, f);
            Step {
                cpu: CPU { reg: Registers { a: vf.0, f: vf.1, ..c.reg }, ..c },
                mem: m,
                cycles: 4,
            }
        } else if y == 5 {
            let vf = spec_cpl(c.reg.a, f);
            Step {
                cpu: CPU { reg: Registers { a: vf.0, f: vf.1, ..c.reg }, ..c },
                mem: m,
                cycles: 4,
            }
        } else if y == 6 {
            let f2 = flags_byte(flag_z(f), false, false, true);
            Step { cpu: CPU { reg: Registers { f: f2, ..c.reg }, ..c }, mem: m, cycles: 4 }
        } else {
            let f2 = flags_byte(flag_z(f), false, false, !flag_c(f));
            Step { cpu: CPU { reg: Registers { f: f2, ..c.reg }, ..c }, mem: m, cycles: 4 }
        }
    }
}

/// The opcodes 0x40-0x7F: the register-to-register load block, with HALT
/// in the (HL),(HL) slot.
pub open spec fn spec_q1(c: CPU, m: MemV, op: u8) -> Step {
    if op == 0x76 {
        Step { cpu: CPU { halt: true, ..c }, mem: m, cycles: 4 }
    } else {
        let y = (op as int / 8) % 8;
        let z = op as int % 8;
        let v = spec_r8(c, m, z);
        let cm = spec_w8(c, m, y, v);
        Step {
            cpu: cm.0,
            mem: cm.1,
            cycles: if y == 6 || z == 6 {
                8
            } else {
                4
            },
        }
    }
}

/// The opcodes 0x80-0xBF: the accumulator arithmetic block.
pub open spec fn spec_q2(c: CPU, m: MemV, op: u8) -> Step {
    let y = (op as int / 8) % 8;
    let z = op as int % 8;
    let x = spec_r8(c, m, z);
    let vf = spec_acc_op(y, c.reg.a, c.reg.f, x);
    Step {
        cpu: CPU { reg: Registers { a: vf.0, f: vf.1, ..c.reg }, ..c },
        mem: m,
        cycles: if z == 6 {
            8
        } else {
            4
        },
    }
}

/// The opcodes 0xC0-0xFF: stack, jumps, calls, returns, restarts,
/// immediate arithmetic, the high loads and the interrupt enables.
pub open spec fn spec_q3(c: CPU, m: MemV, op: u8) -> Step {
    let y = (op as int / 8) % 8;
    let f = c.reg.f;
    if op % 8 == 0 {
        if y < 4 {
            // RET cc
            if spec_cond(c, y) {
                Step {
                    cpu: CPU { pc: m.read16s(c.sp), sp: wrap16(c.sp + 2), ..c },
                    mem: m,
                    cycles: 12,
                }
            } else {
                Step { cpu: c, mem: m, cycles: 8 }
            }
        } else if y == 4 {
            // LD (0xFF00+n), A
            let n = m.read8s(c.pc);
            Step {
                cpu: CPU { pc: wrap16(c.pc + 1), ..c },
                mem: m.write8s((0xff00 + n) as u16, c.reg.a),
                cycles: 12,
            }
        } else if y == 5 {
            // ADD SP, n
            let n = m.read8s(c.pc);
            let vf = spec_sp_offset(c.sp, n);
            Step {
                cpu: CPU {
                    pc: wrap16(c.pc + 1),
                    sp: vf.0,
                    reg: Registers { f: vf.1, ..c.reg },
                    ..c
                },
                mem: m,
                cycles: 16,
            }
        } else if y == 6 {
            // LD A, (0xFF00+n)
            let n = m.read8s(c.pc);
            let v = m.read8s((0xff00 + n) as u16);
            Step {
                cpu: CPU { pc: wrap16(c.pc + 1), reg: Registers { a: v, ..c.reg }, ..c },
                mem: m,
                cycles: 12,
            }
        } else {
            // LD HL, SP+n
            let n = m.read8s(c.pc);
            let vf = spec_sp_offset(c.sp, n);
            let c2 = spec_set_rr16(c, 2, vf.0);
            Step {
                cpu: CPU {
                    pc: wrap16(c.pc + 1),
                    reg: Registers { f: vf.1, ..c2.reg },
                    ..c2
                },
                mem: m,
                cycles: 12,
            }
        }
    } else if op % 8 == 1 {
        if y % 2 == 0 {
            // POP rr (AF masks the low nibble of F)
            let v = m.read16s(c.sp);
            let c2 = if y == 0 {
                spec_set_rr16(c, 0, v)
            } else if y == 2 {
                spec_set_rr16(c, 1, v)
            } else if y == 4 {
                spec_set_rr16(c, 2, v)
            } else {
                CPU {
                    reg: Registers {
                        a: (v / 256) as u8,
                        f: (v % 256 / 16 * 16) as u8,
                        ..c.reg
                    },
                    ..c
                }
            };
            Step { cpu: CPU { sp: wrap16(c.sp + 2), ..c2 }, mem: m, cycles: 12 }
        } else if y == 1 {
            // RET
            Step {
                cpu: CPU { pc: m.read16s(c.sp), sp: wrap16(c.sp + 2), ..c },
                mem: m,
                cycles: 8,
            }
        } else if y == 3 {
            // RETI
            Step {
                cpu: CPU { pc: m.read16s(c.sp), sp: wrap16(c.sp + 2), interrupts: true, ..c },
                mem: m,
                cycles: 8,
            }
        } else if y == 5 {
            // JP HL
            Step { cpu: CPU { pc: c.spec_hl(), ..c }, mem: m, cycles: 4 }
        } else {
            // LD SP, HL
            Step { cpu: CPU { sp: c.spec_hl(), ..c }, mem: m, cycles: 8 }
        }
    } else if op % 8 == 2 {
        if y < 4 {
            // JP cc, nn
            let addr = m.read16s(c.pc);
            let pc2 = wrap16(c.pc + 2);
            if spec_cond(c, y) {
                Step { cpu: CPU { pc: addr, ..c }, mem: m, cycles: 16 }
            } else {
                Step { cpu: CPU { pc: pc2, ..c }, mem: m, cycles: 12 }
            }
        } else if y == 4 {
            // LD (0xFF00+C), A
            Step {
                cpu: c,
                mem: m.write8s((0xff00 + c.reg.c) as u16, c.reg.a),
                cycles: 8,
            }
        } else if y == 5 {
            // LD (nn), A
            let addr = m.read16s(c.pc);
            Step {
                cpu: CPU { pc: wrap16(c.pc + 2), ..c },
                mem: m.write8s(addr, c.reg.a),
                cycles: 16,
            }
        } else if y == 6 {
            // LD A, (0xFF00+C)
            let v = m.read8s((0xff00 + c.reg.c) as u16);
            Step { cpu: CPU { reg: Registers { a: v, ..c.reg }, ..c }, mem: m, cycles: 8 }
        } else {
            // LD A, (nn)
            let addr = m.read16s(c.pc);
            let v = m.read8s(addr);
            Step {
                cpu: CPU { pc: wrap16(c.pc + 2), reg: Registers { a: v, ..c.reg }, ..c },
                mem: m,
                cycles: 16,
            }
        }
    } else if op % 8 == 3 {
        if op == 0xc3 {
            // JP nn
            Step { cpu: CPU { pc: m.read16s(c.pc), ..c }, mem: m, cycles: 12 }
        } else if op == 0xf3 {
            // DI
            Step { cpu: CPU { interrupts: false, ..c }, mem: m, cycles: 4 }
        } else if op == 0xfb {
            // EI
            Step { cpu: CPU { interrupts: true, ..c }, mem: m, cycles: 4 }
        } else {
            spec_lock(c, m)
        }
    } else if op % 8 == 4 {
        if y < 4 {
            // CALL cc, nn
            let addr = m.read16s(c.pc);
            let pc2 = wrap16(c.pc + 2);
            if spec_cond(c, y) {
                let sp2 = wrap16(c.sp - 2);
                Step {
                    cpu: CPU { pc: addr, sp: sp2, ..c },
                    mem: m.write16s(sp2, pc2),
                    cycles: 16,
                }
            } else {
                Step { cpu: CPU { pc: pc2, ..c }, mem: m, cycles: 12 }
            }
        } else {
            spec_lock(c, m)
        }
    } else if op % 8 == 5 {
        if y % 2 == 0 {
            // PUSH rr (AF for y == 6)
            let v = if y == 0 {
                c.spec_bc()
            } else if y == 2 {
                c.spec_de()
            } else if y == 4 {
                c.spec_hl()
            } else {
                c.spec_af()
            };
            let sp2 = wrap16(c.sp - 2);
            Step { cpu: CPU { sp: sp2, ..c }, mem: m.write16s(sp2, v), cycles: 16 }
        } else if y == 1 {
            // CALL nn
            let addr = m.read16s(c.pc);
            let pc2 = wrap16(c.pc + 2);
            let sp2 = wrap16(c.sp - 2);
            Step {
                cpu: CPU { pc: addr, sp: sp2, ..c },
                mem: m.write16s(sp2, pc2),
                cycles: 12,
            }
        } else {
            spec_lock(c, m)
        }
    } else if op % 8 == 6 {
        // immediate accumulator arithmetic
        let n = m.read8s(c.pc);
        let vf = spec_acc_op(y, c.reg.a, f, n);
        Step {
            cpu: CPU {
                pc: wrap16(c.pc + 1),
                reg: Registers { a: vf.0, f: vf.1, ..c.reg },
                ..c
            },
            mem: m,
            cycles: 8,
        }
    } else {
        // RST
        let sp2 = wrap16(c.sp - 2);
        Step {
            cpu: CPU { pc: (y * 8) as u16, sp: sp2, ..c },
            mem: m.write16s(sp2, c.pc),
            cycles: 16,
        }
    }
}

/// One opcode of the main table, decoded with the program counter already
/// past the opcode byte.
pub open spec fn spec_execute(c: CPU, m: MemV, op: u8) -> Step {
    if op < 0x40 {
        spec_q0(c, m, op)
    } else if op < 0x80 {
        spec_q1(c, m, op)
    } else if op < 0xc0 {
        spec_q2(c, m, op)
    } else {
        spec_q3(c, m, op)
    }
}

/// One opcode of the CB table: the rotate/shift family, BIT, RES and SET,
/// over the operand selected by the low three bits.
pub open spec fn spec_execute_cb(c: CPU, m: MemV, op: u8) -> Step {
    let x = op as int / 64;
    let y = ((op as int / 8) % 8) as u8;
    let z = op as int % 8;
    let v = spec_r8(c, m, z);
    let cyc: u16 = if z == 6 {
        16
    } else {
        8
    };
    if x == 0 {
        let vf = spec_rot_op(y as int, v, c.reg.f);
        let cm = spec_w8(CPU { reg: Registers { f: vf.1, ..c.reg }, ..c }, m, z, vf.0);
        Step { cpu: cm.0, mem: cm.1, cycles: cyc }
    } else if x == 1 {
        Step {
            cpu: CPU { reg: Registers { f: spec_bit(v, y, c.reg.f), ..c.reg }, ..c },
            mem: m,
            cycles: cyc,
        }
    } else if x == 2 {
        let cm = spec_w8(c, m, z, bit_clear(v, y));
        Step { cpu: cm.0, mem: cm.1, cycles: cyc }
    } else {
        let cm = spec_w8(c, m, z, bit_set(v, y));
        Step { cpu: cm.0, mem: cm.1, cycles: cyc }
    }
}

/// The stack bytes a push at stack pointer `sp` writes live in plain
/// read/write memory.
pub open spec fn stack_plain(sp: u16) -> bool {
    crate::memory::plain_rw(wrap16(sp - 2)) && crate::memory::plain_rw(
        wrap16(wrap16(sp - 2) + 1),
    )
}

/// PUSH BC then POP BC restores BC and the stack pointer, whenever the
/// two stack bytes live in plain read/write memory.
#[verifier::rlimit(100)]
#[verifier::spinoff_prover]
pub proof fn lemma_push_pop_bc(c: CPU, m: MemV)
    requires
        m.wf(),
        stack_plain(c.sp),
    ensures
        ({
            let s1 = spec_execute(c, m, 0xc5);
            let s2 = spec_execute(s1.cpu, s1.mem, 0xc1);
            s2.cpu.sp == c.sp && s2.cpu.pc == c.pc && s2.cpu.spec_bc() == c.spec_bc()
        }),
{
    let v = c.spec_bc();
    let sp2 = wrap16(c.sp - 2);
    let m1 = m.write16s(sp2, v);
    crate::memory::lemma_write16_read16(m, sp2, v);
    let s1 = spec_execute(c, m, 0xc5);
    assert(s1.cpu == (CPU { sp: sp2, ..c }) && s1.mem == m1);
    let s2 = spec_execute(s1.cpu, s1.mem, 0xc1);
    assert(s2.cpu == (CPU { sp: wrap16(sp2 + 2), ..spec_set_rr16(s1.cpu, 0, v) }));
    crate::arith::lemma_wrap16_cancel(c.sp, 2);
    assert((v / 256) * 256 + v % 256 == v) by (nonlinear_arith)
        requires
            0 <= v,
    ;
}

/// PUSH DE then POP DE restores DE and the stack pointer, whenever the
/// two stack bytes live in plain read/write memory.
#[verifier::rlimit(100)]
#[verifier::spinoff_prover]
pub proof fn lemma_push_pop_de(c: CPU, m: MemV)
    requires
        m.wf(),
        stack_plain(c.sp),
    ensures
        ({
            let s1 = spec_execute(c, m, 0xd5);
            let s2 = spec_execute(s1.cpu, s1.mem, 0xd1);
            s2.cpu.sp == c.sp && s2.cpu.pc == c.pc && s2.cpu.spec_de() == c.spec_de()
        }),
{
    let v = c.spec_de();
    let sp2 = wrap16(c.sp - 2);
    let m1 = m.write16s(sp2, v);
    crate::memory::lemma_write16_read16(m, sp2, v);
    let s1 = spec_execute(c, m, 0xd5);
    assert(s1.cpu == (CPU { sp: sp2, ..c }) && s1.mem == m1);
    let s2 = spec_execute(s1.cpu, s1.mem, 0xd1);
    assert(s2.cpu == (CPU { sp: wrap16(sp2 + 2), ..spec_set_rr16(s1.cpu, 1, v) }));
    crate::arith::lemma_wrap16_cancel(c.sp, 2);
    assert((v / 256) * 256 + v % 256 == v) by (nonlinear_arith)
        requires
            0 <= v,
    ;
}

/// PUSH HL then POP HL restores HL and the stack pointer, whenever the
/// two stack bytes live in plain read/write memory.
#[verifier::rlimit(100)]
#[verifier::spinoff_prover]
pub proof fn lemma_push_pop_hl(c: CPU, m: MemV)
    requires
        m.wf(),
        stack_plain(c.sp),
    ensures
        ({
            let s1 = spec_execute(c, m, 0xe5);
            let s2 = spec_execute(s1.cpu, s1.mem, 0xe1);
            s2.cpu.sp == c.sp && s2.cpu.pc == c.pc && s2.cpu.spec_hl() == c.spec_hl()
        }),
{
    let v = c.spec_hl();
    let sp2 = wrap16(c.sp - 2);
    let m1 = m.write16s(sp2, v);
    crate::memory::lemma_write16_read16(m, sp2, v);
    let s1 = spec_execute(c, m, 0xe5);
    assert(s1.cpu == (CPU { sp: sp2, ..c }) && s1.mem == m1);
    let s2 = spec_execute(s1.cpu, s1.mem, 0xe1);
    assert(s2.cpu == (CPU { sp: wrap16(sp2 + 2), ..spec_set_rr16(s1.cpu, 2, v) }));
    crate::arith::lemma_wrap16_cancel(c.sp, 2);
    assert((v / 256) * 256 + v % 256 == v) by (nonlinear_arith)
        requires
            0 <= v,
    ;
}

/// PUSH AF then POP AF restores AF and the stack pointer, whenever the
/// two stack bytes live in plain read/write memory; the flag register's
/// low nibble reads as zero on both sides, so AF round-trips exactly.
#[verifier::rlimit(100)]
#[verifier::spinoff_prover]
pub proof fn lemma_push_pop_af(c: CPU, m: MemV)
    requires
        m.wf(),
        c.wf(),
        stack_plain(c.sp),
    ensures
        ({
            let s1 = spec_execute(c, m, 0xf5);
            let s2 = spec_execute(s1.cpu, s1.mem, 0xf1);
            s2.cpu.sp == c.sp && s2.cpu.pc == c.pc && s2.cpu.spec_af() == c.spec_af()
        }),
{
    let a = c.reg.a;
    let f = c.reg.f;
    let v = c.spec_af();
    let sp2 = wrap16(c.sp - 2);
    let m1 = m.write16s(sp2, v);
    crate::memory::lemma_write16_read16(m, sp2, v);
    let s1 = spec_execute(c, m, 0xf5);
    assert(s1.cpu == (CPU { sp: sp2, ..c }) && s1.mem == m1);
    let s2 = spec_execute(s1.cpu, s1.mem, 0xf1);
    assert(s2.cpu == (CPU {
        sp: wrap16(sp2 + 2),
        reg: Registers { a: (v / 256) as u8, f: (v % 256 / 16 * 16) as u8, ..s1.cpu.reg },
        ..s1.cpu
    }));
    crate::arith::lemma_wrap16_cancel(c.sp, 2);
    assert((a * 256 + f) / 256 == a && (a * 256 + f) % 256 == f) by (nonlinear_arith)
        requires
            0 <= a < 256,
            0 <= f < 256,
    ;
    assert(f as int % 256 / 16 * 16 == f) by (nonlinear_arith)
        requires
            0 <= f < 256,
            f as int % 16 == 0,
    ;
}

/// One fetched instruction: the opcode byte at the program counter, with
/// the CB prefix selecting the second table.
pub open spec fn spec_instr(c: CPU, m: MemV) -> Step {
    let op = m.read8s(c.pc);
    let c1 = CPU { pc: wrap16(c.pc + 1), ..c };
    if op == 0xcb {
        let op2 = m.read8s(c1.pc);
        let c2 = CPU { pc: wrap16(c1.pc + 1), ..c1 };
        spec_execute_cb(c2, m, op2)
    } else {
        spec_execute(c1, m, op)
    }
}

/// One full processor step. A pending enabled interrupt is dispatched
/// first (20 cycles) instead of executing an instruction. A halted
/// processor idles for 4 cycles until an interrupt is pending in IE and
/// IF, which clears the halt. The cycles are then charged to the timers.
pub open spec fn spec_step(c: CPU, m: MemV) -> Step {
    if c.interrupts && first_pending(m.data[0xffff], m.data[0xff0f]) >= 0 {
        let cm = spec_service(c, m);
        let ct = spec_timer(cm.0, cm.1, 20);
        Step { cpu: ct.0, mem: ct.1, cycles: 20 }
    } else if c.halt && first_pending(m.data[0xffff], m.data[0xff0f]) < 0 {
        let ct = spec_timer(c, m, 4);
        Step { cpu: ct.0, mem: ct.1, cycles: 4 }
    } else {
        let c0 = CPU { halt: false, ..c };
        let s = spec_instr(c0, m);
        let ct = spec_timer(s.cpu, s.mem, s.cycles);
        Step { cpu: ct.0, mem: ct.1, cycles: s.cycles }
    }
}

} // verus!
