//! The executable instruction interpreter. Each dispatcher is proved to
//! produce exactly the transition that the specification interpreter in
//! `isa` defines for its opcode range.

use crate::alu;
use crate::arith::{disp_target, test_bit, wadd16, with_bit_clear, with_bit_set, wsub16};
use crate::cpu::{CPU, first_pending};
use crate::flags::{c_of, make_flags, z_of};
use crate::isa::{spec_cond, spec_execute, spec_execute_cb, spec_q0, spec_q1, spec_q2, spec_q3,
    spec_r8, spec_rr16, spec_set_rr16, spec_step, spec_w8};
use crate::memory::Memory;
use vstd::prelude::*;

verus! {

broadcast use crate::flags::lemma_flags_byte;

impl CPU {
    /// Reads the operand selected by the low three bits of an opcode.
    fn get_r8(&self, mem: &Memory, z: u8) -> (r: u8)
        requires
            z < 8,
            mem@.wf(),
        ensures
            r == spec_r8(*self, mem@, z as int),
    {
        if z == 0 {
            self.reg.b
        } else if z == 1 {
            self.reg.c
        } else if z == 2 {
            self.reg.d
        } else if z == 3 {
            self.reg.e
        } else if z == 4 {
            self.reg.h
        } else if z == 5 {
            self.reg.l
        } else if z == 6 {
            mem.read8(self.hl())
        } else {
            self.reg.a
        }
    }

    /// Writes the operand selected by the low three bits of an opcode.
    fn put_r8(&mut self, mem: &mut Memory, z: u8, v: u8)
        requires
            z < 8,
            old(mem)@.wf(),
        ensures
            ({
                let cm = spec_w8(*old(self), old(mem)@, z as int, v);
                *final(self) == cm.0 && final(mem)@ == cm.1
            }),
            final(mem)@.wf(),
    {
        if z == 0 {
            self.reg.b = v;
        } else if z == 1 {
            self.reg.c = v;
        } else if z == 2 {
            self.reg.d = v;
        } else if z == 3 {
            self.reg.e = v;
        } else if z == 4 {
            self.reg.h = v;
        } else if z == 5 {
            self.reg.l = v;
        } else if z == 6 {
            let a = self.hl();
            mem.write8(a, v);
        } else {
            self.reg.a = v;
        }
    }

    /// Reads the 16-bit register pair selected by `i`.
    fn get_rr16(&self, i: u8) -> (r: u16)
        requires
            i < 4,
        ensures
            r == spec_rr16(*self, i as int),
    {
        if i == 0 {
            self.bc()
        } else if i == 1 {
            self.de()
        } else if i == 2 {
            self.hl()
        } else {
            self.sp
        }
    }

    /// Writes the 16-bit register pair selected by `i`.
    fn set_rr16(&mut self, i: u8, v: u16)
        requires
            i < 4,
        ensures
            *final(self) == spec_set_rr16(*old(self), i as int, v),
    {
        if i == 0 {
            self.set_bc(v);
        } else if i == 1 {
            self.set_de(v);
        } else if i == 2 {
            self.set_hl(v);
        } else {
            self.sp = v;
        }
    }

    /// Evaluates the condition selected by `i`: NZ, Z, NC, C.
    fn cond(&self, i: u8) -> (r: bool)
        requires
            i < 4,
        ensures
            r == spec_cond(*self, i as int),
    {
        if i == 0 {
            !z_of(self.reg.f)
        } else if i == 1 {
            z_of(self.reg.f)
        } else if i == 2 {
            !c_of(self.reg.f)
        } else {
            c_of(self.reg.f)
        }
    }

    /// Executes one opcode of the 0x00-0x3F range.
    #[verifier::rlimit(100)]
    #[verifier::spinoff_prover]
    fn exec_q0(&mut self, mem: &mut Memory, op: u8) -> (cycles: u16)
        requires
            op < 0x40,
            old(self).wf(),
            old(mem)@.wf(),
        ensures
            ({
                let s = spec_q0(*old(self), old(mem)@, op);
                *final(self) == s.cpu && final(mem)@ == s.mem && cycles == s.cycles
            }),
            final(self).wf(),
            final(mem)@.wf(),
    {
        let y = op / 8;
        if op % 8 == 0 {
            if op == 0x00 {
                // NOP
                4
            } else if op == 0x08 {
                // LD (nn), SP
                let addr = self.fetch16(mem);
                mem.write16(addr, self.sp);
                20
            } else if op == 0x10 {
                // STOP waits like HALT
                self.halt = true;
                4
            } else {
                // JR n and JR cc, n
                let taken = if op == 0x18 {
                    true
                } else {
                    self.cond(y - 4)
                };
                let n = self.fetch8(mem);
                if taken {
                    self.pc = disp_target(self.pc, n);
                    if op == 0x18 {
                        8
                    } else {
                        12
                    }
                } else {
                    8
                }
            }
        } else if op % 8 == 1 {
            if y % 2 == 0 {
                // LD rr, nn
                let v = self.fetch16(mem);
                self.set_rr16(y / 2, v);
                12
            } else {
                // ADD HL, rr
                let hl = self.hl();
                let x = self.get_rr16(y / 2);
                let vf = alu::add16(hl, x, self.reg.f);
                self.set_hl(vf.0);
                self.reg.f = vf.1;
                8
            }
        } else if op % 8 == 2 {
            if y % 2 == 0 {
                // LD (BC)/(DE)/(HL+)/(HL-), A
                let addr = if y == 0 {
                    self.bc()
                } else if y == 2 {
                    self.de()
                } else {
                    self.hl()
                };
                mem.write8(addr, self.reg.a);
                if y == 4 {
                    self.set_hl(wadd16(addr, 1));
                }
                if y == 6 {
                    self.set_hl(wsub16(addr, 1));
                }
                8
            } else {
                // LD A, (BC)/(DE)/(HL+)/(HL-)
                let addr = if y == 1 {
                    self.bc()
                } else if y == 3 {
                    self.de()
                } else {
                    self.hl()
                };
                let v = mem.read8(addr);
                self.reg.a = v;
                if y == 5 {
                    self.set_hl(wadd16(addr, 1));
                }
                if y == 7 {
                    self.set_hl(wsub16(addr, 1));
                }
                8
            }
        } else if op % 8 == 3 {
            // INC rr / DEC rr
            let i = y / 2;
            let v = self.get_rr16(i);
            if y % 2 == 0 {
                self.set_rr16(i, wadd16(v, 1));
            } else {
                self.set_rr16(i, wsub16(v, 1));
            }
            8
        } else if op % 8 == 4 {
            // INC r
            let v = self.get_r8(mem, y);
            let vf = alu::inc8(v, self.reg.f);
            self.reg.f = vf.1;
            self.put_r8(mem, y, vf.0);
            if y == 6 {
                12
            } else {
                4
            }
        } else if op % 8 == 5 {
            // DEC r
            let v = self.get_r8(mem, y);
            let vf = alu::dec8(v, self.reg.f);
            self.reg.f = vf.1;
            self.put_r8(mem, y, vf.0);
            if y == 6 {
                12
            } else {
                4
            }
        } else if op % 8 == 6 {
            // LD r, n
            let n = self.fetch8(mem);
            self.put_r8(mem, y, n);
            if y == 6 {
                12
            } else {
                8
            }
        } else {
            if y < 4 {
                // RLCA, RRCA, RLA, RRA: Z is cleared
                let f0 = self.reg.f;
                let vf = if y == 0 {
                    alu::rlc(self.reg.a)
                } else if y == 1 {
                    alu::rrc(self.reg.a)
                } else if y == 2 {
                    alu::rl(self.reg.a, c_of(f0))
                } else {
                    alu::rr(self.reg.a, c_of(f0))
                };
                self.reg.a = vf.0;
                self.reg.f = make_flags(false, false, false, c_of(vf.1));
                4
            } else if y == 4 {
                // DAA
                let vf = alu::daa(self.reg.a, self.reg.f);
                self.reg.a = vf.0;
                self.reg.f = vf.1;
                4
            } else if y == 5 {
                // CPL
                let vf = alu::cpl(self.reg.a, self.reg.f);
                self.reg.a = vf.0;
                self.reg.f = vf.1;
                4
            } else if y == 6 {
                // SCF
                self.reg.f = make_flags(z_of(self.reg.f), false, false, true);
                4
            } else {
                // CCF
                self.reg.f = make_flags(z_of(self.reg.f), false, false, !c_of(self.reg.f));
                4
            }
        }
    }

    /// Executes one opcode of the register-to-register load block.
    fn exec_q1(&mut self, mem: &mut Memory, op: u8) -> (cycles: u16)
        requires
            0x40 <= op < 0x80,
            old(self).wf(),
            old(mem)@.wf(),
        ensures
            ({
                let s = spec_q1(*old(self), old(mem)@, op);
                *final(self) == s.cpu && final(mem)@ == s.mem && cycles == s.cycles
            }),
            final(self).wf(),
            final(mem)@.wf(),
    {
        if op == 0x76 {
            self.halt = true;
            4
        } else {
            let y = op / 8 % 8;
            let z = op % 8;
            let v = self.get_r8(mem, z);
            self.put_r8(mem, y, v);
            if y == 6 || z == 6 {
                8
            } else {
                4
            }
        }
    }

    /// Executes one opcode of the accumulator arithmetic block.
    fn exec_q2(&mut self, mem: &mut Memory, op: u8) -> (cycles: u16)
        requires
            0x80 <= op < 0xc0,
            old(self).wf(),
            old(mem)@.wf(),
        ensures
            ({
                let s = spec_q2(*old(self), old(mem)@, op);
                *final(self) == s.cpu && final(mem)@ == s.mem && cycles == s.cycles
            }),
            final(self).wf(),
            final(mem)@.wf(),
    {
        let y = op / 8 % 8;
        let z = op % 8;
        let x = self.get_r8(mem, z);
        let vf = alu::acc_op(y, self.reg.a, self.reg.f, x);
        self.reg.a = vf.0;
        self.reg.f = vf.1;
        if z == 6 {
            8
        } else {
            4
        }
    }
    /// Executes one opcode of the 0xC0-0xFF range.
    #[verifier::rlimit(100)]
    #[verifier::spinoff_prover]
    fn exec_q3(&mut self, mem: &mut Memory, op: u8) -> (cycles: u16)
        requires
            0xc0 <= op,
            old(self).wf(),
            old(mem)@.wf(),
        ensures
            ({
                let s = spec_q3(*old(self), old(mem)@, op);
                *final(self) == s.cpu && final(mem)@ == s.mem && cycles == s.cycles
            }),
            final(self).wf(),
            final(mem)@.wf(),
    {
        let y = op / 8 % 8;
        if op % 8 == 0 {
            if y < 4 {
                // RET cc
                if self.cond(y) {
                    let v = self.pop_stack(mem);
                    self.pc = v;
                    12
                } else {
                    8
                }
            } else if y == 4 {
                // LD (0xFF00+n), A
                let n = self.fetch8(mem);
                mem.write8(0xff00 + n as u16, self.reg.a);
                12
            } else if y == 5 {
                // ADD SP, n
                let n = self.fetch8(mem);
                let vf = alu::sp_offset(self.sp, n);
                self.sp = vf.0;
                self.reg.f = vf.1;
                16
            } else if y == 6 {
                // LD A, (0xFF00+n)
                let n = self.fetch8(mem);
                self.reg.a = mem.read8(0xff00 + n as u16);
                12
            } else {
                // LD HL, SP+n
                let n = self.fetch8(mem);
                let vf = alu::sp_offset(self.sp, n);
                self.set_hl(vf.0);
                self.reg.f = vf.1;
                12
            }
        } else if op % 8 == 1 {
            if y % 2 == 0 {
                // POP rr
                let v = self.pop_stack(mem);
                if y == 0 {
                    self.set_bc(v);
                } else if y == 2 {
                    self.set_de(v);
                } else if y == 4 {
                    self.set_hl(v);
                } else {
                    self.set_af(v);
                }
                12
            } else if y == 1 {
                // RET
                let v = self.pop_stack(mem);
                self.pc = v;
                8
            } else if y == 3 {
                // RETI
                let v = self.pop_stack(mem);
                self.pc = v;
                self.interrupts = true;
                8
            } else if y == 5 {
                // JP HL
                self.pc = self.hl();
                4
            } else {
                // LD SP, HL
                self.sp = self.hl();
                8
            }
        } else if op % 8 == 2 {
            if y < 4 {
                // JP cc, nn
                let addr = self.fetch16(mem);
                if self.cond(y) {
                    self.pc = addr;
                    16
                } else {
                    12
                }
            } else if y == 4 {
                // LD (0xFF00+C), A
                mem.write8(0xff00 + self.reg.c as u16, self.reg.a);
                8
            } else if y == 5 {
                // LD (nn), A
                let addr = self.fetch16(mem);
                mem.write8(addr, self.reg.a);
                16
            } else if y == 6 {
                // LD A, (0xFF00+C)
                self.reg.a = mem.read8(0xff00 + self.reg.c as u16);
                8
            } else {
                // LD A, (nn)
                let addr = self.fetch16(mem);
                self.reg.a = mem.read8(addr);
                16
            }
        } else if op % 8 == 3 {
            if op == 0xc3 {
                // JP nn
                self.pc = mem.read16(self.pc);
                12
            } else if op == 0xf3 {
                // DI
                self.interrupts = false;
                4
            } else if op == 0xfb {
                // EI
                self.interrupts = true;
                4
            } else {
                // undefined opcode: the processor locks
                self.halt = true;
                4
            }
        } else if op % 8 == 4 {
            if y < 4 {
                // CALL cc, nn
                let addr = self.fetch16(mem);
                if self.cond(y) {
                    let pc2 = self.pc;
                    self.push_stack(mem, pc2);
                    self.pc = addr;
                    16
                } else {
                    12
                }
            } else {
                self.halt = true;
                4
            }
        } else if op % 8 == 5 {
            if y % 2 == 0 {
                // PUSH rr
                let v = if y == 0 {
                    self.bc()
                } else if y == 2 {
                    self.de()
                } else if y == 4 {
                    self.hl()
                } else {
                    self.af()
                };
                self.push_stack(mem, v);
                16
            } else if y == 1 {
                // CALL nn
                let addr = self.fetch16(mem);
                let pc2 = self.pc;
                self.push_stack(mem, pc2);
                self.pc = addr;
                12
            } else {
                self.halt = true;
                4
            }
        } else if op % 8 == 6 {
            // immediate accumulator arithmetic
            let n = self.fetch8(mem);
            let vf = alu::acc_op(y, self.reg.a, self.reg.f, n);
            self.reg.a = vf.0;
            self.reg.f = vf.1;
            8
        } else {
            // RST
            let pc0 = self.pc;
            self.push_stack(mem, pc0);
            self.pc = y as u16 * 8;
            16
        }
    }

    /// Executes one opcode of the main table. The program counter has
    /// already been advanced past the opcode byte.
    fn execute(&mut self, mem: &mut Memory, op: u8) -> (cycles: u16)
        requires
            old(self).wf(),
            old(mem)@.wf(),
        ensures
            ({
                let s = spec_execute(*old(self), old(mem)@, op);
                *final(self) == s.cpu && final(mem)@ == s.mem && cycles == s.cycles
            }),
            final(self).wf(),
            final(mem)@.wf(),
    {
        if op < 0x40 {
            self.exec_q0(mem, op)
        } else if op < 0x80 {
            self.exec_q1(mem, op)
        } else if op < 0xc0 {
            self.exec_q2(mem, op)
        } else {
            self.exec_q3(mem, op)
        }
    }

    /// Executes one opcode of the CB table.
    fn execute_cb(&mut self, mem: &mut Memory, op: u8) -> (cycles: u16)
        requires
            old(self).wf(),
            old(mem)@.wf(),
        ensures
            ({
                let s = spec_execute_cb(*old(self), old(mem)@, op);
                *final(self) == s.cpu && final(mem)@ == s.mem && cycles == s.cycles
            }),
            final(self).wf(),
            final(mem)@.wf(),
    {
        let x = op / 64;
        let y = op / 8 % 8;
        let z = op % 8;
        let v = self.get_r8(mem, z);
        let cyc: u16 = if z == 6 {
            16
        } else {
            8
        };
        if x == 0 {
            let vf = alu::rot_op(y, v, self.reg.f);
            self.reg.f = vf.1;
            self.put_r8(mem, z, vf.0);
            cyc
        } else if x == 1 {
            // BIT y, r
            self.reg.f = make_flags(!test_bit(v, y), false, true, c_of(self.reg.f));
            cyc
        } else if x == 2 {
            // RES y, r
            self.put_r8(mem, z, with_bit_clear(v, y));
            cyc
        } else {
            // SET y, r
            self.put_r8(mem, z, with_bit_set(v, y));
            cyc
        }
    }

    /// Whether any of the five interrupts is both enabled and requested.
    fn pending_any(mem: &Memory) -> (r: bool)
        requires
            mem@.wf(),
        ensures
            r == (first_pending(mem@.data[0xffff], mem@.data[0xff0f]) >= 0),
    {
        let ie = mem.data[0xffff];
        let fl = mem.data[0xff0f];
        (test_bit(ie, 0) && test_bit(fl, 0)) || (test_bit(ie, 1) && test_bit(fl, 1)) || (test_bit(
            ie,
            2,
        ) && test_bit(fl, 2)) || (test_bit(ie, 3) && test_bit(fl, 3)) || (test_bit(ie, 4)
            && test_bit(fl, 4))
    }

    /// One processor step: dispatches a pending enabled interrupt, or
    /// idles while halted, or fetches and executes one instruction; the
    /// cycles taken are then charged to the divider and timer.
    pub fn step(&mut self, mem: &mut Memory) -> (cycles: u16)
        requires
            old(self).wf(),
            old(mem)@.wf(),
        ensures
            ({
                let s = spec_step(*old(self), old(mem)@);
                *final(self) == s.cpu && final(mem)@ == s.mem && cycles == s.cycles
            }),
            final(self).wf(),
            final(mem)@.wf(),
            4 <= cycles <= 24,
    {
        if self.service_interrupts(mem) {
            self.update_timer(mem, 20);
            return 20;
        }
        if self.halt {
            if !Self::pending_any(mem) {
                self.update_timer(mem, 4);
                return 4;
            }
            self.halt = false;
        }
        let op = self.fetch8(mem);
        let cycles: u16;
        if op == 0xcb {
            let op2 = self.fetch8(mem);
            cycles = self.execute_cb(mem, op2);
        } else {
            cycles = self.execute(mem, op);
        }
        self.update_timer(mem, cycles);
        cycles
    }
}

} // verus!
