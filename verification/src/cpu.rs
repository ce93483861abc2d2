//! The SM83 processor state: the register file, the interrupt machinery
//! and the timer/divider accumulators, together with the small operations
//! the instruction executor is built from.

use crate::arith::{bit_clear, bit_get, bit_set, test_bit, with_bit_clear, with_bit_set, wadd16,
    wrap16, wsub16};
use crate::flags::{c_of, flag_c, flag_z, z_of};
use crate::memory::{MemV, Memory};
use vstd::prelude::*;

verus! {

/// The five interrupt sources, in priority order.
#[derive(Clone, Copy, PartialEq, Eq, Structural, Debug)]
pub enum Interrupt {
    VBlank,
    LCDC,
    Timer,
    Serial,
    JoyPad,
}

impl Interrupt {
    /// The bit index of the interrupt in the IE and IF registers.
    pub open spec fn index(self) -> u8 {
        match self {
            Interrupt::VBlank => 0,
            Interrupt::LCDC => 1,
            Interrupt::Timer => 2,
            Interrupt::Serial => 3,
            Interrupt::JoyPad => 4,
        }
    }

    /// The bit index as a machine value.
    pub fn bit_index(self) -> (r: u8)
        ensures
            r == self.index(),
    {
        match self {
            Interrupt::VBlank => 0,
            Interrupt::LCDC => 1,
            Interrupt::Timer => 2,
            Interrupt::Serial => 3,
            Interrupt::JoyPad => 4,
        }
    }
}

/// The eight-bit register file.
#[derive(Clone, Copy, PartialEq, Eq, Structural, Debug)]
pub struct Registers {
    pub f: u8,
    pub a: u8,
    pub b: u8,
    pub c: u8,
    pub d: u8,
    pub e: u8,
    pub h: u8,
    pub l: u8,
}

/// The processor: register file, program counter and stack pointer, the
/// halt latch and interrupt master enable, and the timer accumulator (the
/// divider's prescaler lives with the memory map, which clears it on a
/// DIV write).
#[derive(Clone, Copy, PartialEq, Eq, Structural, Debug)]
pub struct CPU {
    pub pc: u16,
    pub sp: u16,
    pub reg: Registers,
    pub halt: bool,
    /// The interrupt master enable (IME).
    pub interrupts: bool,
    pub timer_cycles: u16,
}

/// A 16-bit register pair from its high and low bytes.
pub open spec fn pack16(hi: u8, lo: u8) -> u16 {
    (hi * 256 + lo) as u16
}

/// The lowest interrupt bit set in both registers, or -1 when none is.
pub open spec fn first_pending(ie: u8, iflag: u8) -> int {
    if bit_get(ie, 0) && bit_get(iflag, 0) {
        0
    } else if bit_get(ie, 1) && bit_get(iflag, 1) {
        1
    } else if bit_get(ie, 2) && bit_get(iflag, 2) {
        2
    } else if bit_get(ie, 3) && bit_get(iflag, 3) {
        3
    } else if bit_get(ie, 4) && bit_get(iflag, 4) {
        4
    } else {
        -1
    }
}

/// Servicing the highest-priority pending interrupt: the master enable and
/// the halt latch drop, the program counter is pushed, the interrupt's IF
/// bit is cleared, and control moves to its vector.
pub open spec fn spec_service(c: CPU, m: MemV) -> (CPU, MemV)
    recommends
        first_pending(m.data[0xffff], m.data[0xff0f]) >= 0,
{
    let i = first_pending(m.data[0xffff], m.data[0xff0f]);
    let sp2 = wrap16(c.sp - 2);
    let m2 = m.write16s(sp2, c.pc);
    let m3 = m2.with_data(0xff0f, bit_clear(m2.data[0xff0f], i as u8));
    (
        CPU {
            interrupts: false,
            halt: false,
            pc: (0x40 + 8 * i) as u16,
            sp: sp2,
            ..c
        },
        m3,
    )
}

/// The TIMA period in machine cycles selected by TAC bits 0-1.
pub open spec fn tac_period(tac: u8) -> int {
    if tac % 4 == 0 {
        1024
    } else if tac % 4 == 1 {
        16
    } else if tac % 4 == 2 {
        64
    } else {
        256
    }
}

/// TIMA incremented `n` times: on each wrap to zero it reloads from TMA;
/// the flag reports whether any wrap happened.
pub open spec fn spec_tick_tima(tima: u8, tma: u8, n: int) -> (u8, bool)
    decreases n,
{
    if n <= 0 {
        (tima, false)
    } else if tima == 255 {
        (spec_tick_tima(tma, tma, n - 1).0, true)
    } else {
        spec_tick_tima((tima + 1) as u8, tma, n - 1)
    }
}

/// Charging `cycles` to the timers: DIV advances once per 256 cycles;
/// when TAC bit 2 is set, TIMA advances once per period, reloading from
/// TMA and requesting the Timer interrupt on wrap.
pub open spec fn spec_timer(c: CPU, m: MemV, cycles: u16) -> (CPU, MemV) {
    let dt = m.div_acc + cycles;
    let m1 = MemV {
        div_acc: (dt % 256) as u16,
        ..m.with_data(0xff04, ((m.data[0xff04] + dt / 256) % 256) as u8)
    };
    let c1 = c;
    let tac = m.data[0xff07];
    if bit_get(tac, 2) {
        let t = c.timer_cycles + cycles;
        let p = tac_period(tac);
        let tick = spec_tick_tima(m.data[0xff05], m.data[0xff06], t / p);
        let m2 = m1.with_data(0xff05, tick.0);
        let m3 = if tick.1 {
            m2.with_data(0xff0f, bit_set(m2.data[0xff0f], 2))
        } else {
            m2
        };
        (CPU { timer_cycles: (t % p) as u16, ..c1 }, m3)
    } else {
        (c1, m1)
    }
}

/// The divider register tracks elapsed machine cycles: whenever DIV holds
/// the number of whole 256-cycle periods elapsed since it was last
/// cleared (modulo 256, on top of its base value) and the accumulator
/// holds the remainder, charging one more instruction's cycles keeps both
/// exact. So after any instruction DIV has advanced by the elapsed cycles
/// divided by 256.
pub proof fn lemma_div_tracks(c: CPU, m: MemV, cycles: u16, elapsed: int, div0: u8)
    requires
        m.wf(),
        elapsed >= 0,
        cycles <= 1024,
        m.div_acc == elapsed % 256,
        m.data[0xff04] == (div0 + elapsed / 256) % 256,
    ensures
        spec_timer(c, m, cycles).1.div_acc == (elapsed + cycles) % 256,
        spec_timer(c, m, cycles).1.data[0xff04] == (div0 + (elapsed + cycles) / 256) % 256,
{
    let q = elapsed / 256;
    let r = elapsed % 256;
    vstd::arithmetic::div_mod::lemma_fundamental_div_mod(elapsed, 256);
    assert((elapsed + cycles) / 256 == q + (r + cycles) / 256 && (elapsed + cycles) % 256 == (r
        + cycles) % 256) by (nonlinear_arith)
        requires
            elapsed == 256 * q + r,
            0 <= r < 256,
            cycles >= 0,
    ;
    let s = (r + cycles) / 256;
    assert(((div0 + q) % 256 + s) % 256 == (div0 + q + s) % 256) by (nonlinear_arith)
        requires
            0 <= s,
            div0 + q >= 0,
    ;
    if bit_get(m.data[0xff07], 2) {
        assert(spec_timer(c, m, cycles).1.data[0xff04] == ((m.data[0xff04] + (m.div_acc
            + cycles) / 256) % 256) as u8);
    }
}

/// Any write to DIV clears both the register and its prescaler, so the
/// count of elapsed cycles in `lemma_div_tracks` restarts at zero there:
/// after any instruction DIV holds exactly the cycles elapsed since the
/// last DIV write, divided by 256, modulo 256.
pub proof fn lemma_div_write_restarts(m: MemV, v: u8)
    requires
        m.wf(),
    ensures
        m.write8s(0xff04, v).div_acc == 0,
        m.write8s(0xff04, v).data[0xff04] == 0,
{
}

/// Pushing a word and popping it back: the word returns intact and the
/// stack pointer is restored, whenever the two stack bytes live in plain
/// read/write memory.
pub proof fn lemma_push_pop(c: CPU, m: MemV, v: u16)
    requires
        m.wf(),
        crate::memory::plain_rw(wrap16(c.sp - 2)),
        crate::memory::plain_rw(wrap16(wrap16(c.sp - 2) + 1)),
    ensures
        m.write16s(wrap16(c.sp - 2), v).read16s(wrap16(c.sp - 2)) == v,
        wrap16(wrap16(c.sp - 2) + 2) == c.sp,
{
    crate::memory::lemma_write16_read16(m, wrap16(c.sp - 2), v);
}

impl CPU {
    /// The processor state invariant: the low nibble of F is zero, and the
    /// timer accumulators sit below their periods.
    pub open spec fn wf(self) -> bool {
        &&& self.reg.f % 16 == 0
        &&& self.timer_cycles < 1024
    }

    pub open spec fn spec_af(self) -> u16 {
        pack16(self.reg.a, self.reg.f)
    }

    pub open spec fn spec_bc(self) -> u16 {
        pack16(self.reg.b, self.reg.c)
    }

    pub open spec fn spec_de(self) -> u16 {
        pack16(self.reg.d, self.reg.e)
    }

    pub open spec fn spec_hl(self) -> u16 {
        pack16(self.reg.h, self.reg.l)
    }

    /// The freshly powered processor state: execution starts at 0x0100
    /// with the stack at 0xFFFE and everything else clear.
    pub open spec fn power_up() -> CPU {
        CPU {
            pc: 0x0100,
            sp: 0xfffe,
            reg: Registers { f: 0, a: 0, b: 0, c: 0, d: 0, e: 0, h: 0, l: 0 },
            halt: false,
            interrupts: false,
            timer_cycles: 0,
        }
    }

    /// A freshly powered processor: execution starts at 0x0100 with the
    /// stack at 0xFFFE and everything else clear.
    pub fn new() -> (r: CPU)
        ensures
            r == CPU::power_up(),
            r == (CPU {
                pc: 0x0100,
                sp: 0xfffe,
                reg: Registers { f: 0, a: 0, b: 0, c: 0, d: 0, e: 0, h: 0, l: 0 },
                halt: false,
                interrupts: false,
                timer_cycles: 0,
            }),
            r.wf(),
    {
        CPU {
            pc: 0x0100,
            sp: 0xfffe,
            reg: Registers { f: 0, a: 0, b: 0, c: 0, d: 0, e: 0, h: 0, l: 0 },
            halt: false,
            interrupts: false,
            timer_cycles: 0,
        }
    }

    /// The AF pair; A is the high byte.
    pub fn af(&self) -> (r: u16)
        ensures
            r == self.spec_af(),
    {
        self.reg.a as u16 * 256 + self.reg.f as u16
    }

    /// Writes the AF pair. The low nibble of F does not exist in hardware
    /// and is forced to zero.
    pub fn set_af(&mut self, val: u16)
        ensures
            *final(self) == (CPU {
                reg: Registers {
                    a: (val / 256) as u8,
                    f: (val % 256 / 16 * 16) as u8,
                    ..old(self).reg
                },
                ..*old(self)
            }),
            final(self).reg.f % 16 == 0,
    {
        self.reg.a = (val / 256) as u8;
        self.reg.f = (val % 256 / 16 * 16) as u8;
    }

    /// The BC pair; B is the high byte.
    pub fn bc(&self) -> (r: u16)
        ensures
            r == self.spec_bc(),
    {
        self.reg.b as u16 * 256 + self.reg.c as u16
    }

    /// Writes the BC pair.
    pub fn set_bc(&mut self, val: u16)
        ensures
            *final(self) == (CPU {
                reg: Registers { b: (val / 256) as u8, c: (val % 256) as u8, ..old(self).reg },
                ..*old(self)
            }),
            final(self).spec_bc() == val,
    {
        self.reg.b = (val / 256) as u8;
        self.reg.c = (val % 256) as u8;
    }

    /// The DE pair; D is the high byte.
    pub fn de(&self) -> (r: u16)
        ensures
            r == self.spec_de(),
    {
        self.reg.d as u16 * 256 + self.reg.e as u16
    }

    /// Writes the DE pair.
    pub fn set_de(&mut self, val: u16)
        ensures
            *final(self) == (CPU {
                reg: Registers { d: (val / 256) as u8, e: (val % 256) as u8, ..old(self).reg },
                ..*old(self)
            }),
            final(self).spec_de() == val,
    {
        self.reg.d = (val / 256) as u8;
        self.reg.e = (val % 256) as u8;
    }

    /// The HL pair; H is the high byte.
    pub fn hl(&self) -> (r: u16)
        ensures
            r == self.spec_hl(),
    {
        self.reg.h as u16 * 256 + self.reg.l as u16
    }

    /// Writes the HL pair.
    pub fn set_hl(&mut self, val: u16)
        ensures
            *final(self) == (CPU {
                reg: Registers { h: (val / 256) as u8, l: (val % 256) as u8, ..old(self).reg },
                ..*old(self)
            }),
            final(self).spec_hl() == val,
    {
        self.reg.h = (val / 256) as u8;
        self.reg.l = (val % 256) as u8;
    }

    /// Sets (`val` true) or clears one flag bit given by its mask.
    pub fn set_flag(&mut self, flag: u8, val: bool)
        ensures
            *final(self) == (CPU {
                reg: Registers {
                    f: if val {
                        old(self).reg.f | flag
                    } else {
                        old(self).reg.f & !flag
                    },
                    ..old(self).reg
                },
                ..*old(self)
            }),
    {
        if val {
            self.reg.f = self.reg.f | flag;
        } else {
            self.reg.f = self.reg.f & !flag;
        }
    }

    /// The NZ condition: the Z flag is clear.
    pub fn nz(&self) -> (r: bool)
        ensures
            r == !flag_z(self.reg.f),
    {
        !z_of(self.reg.f)
    }

    /// The Z condition.
    pub fn z(&self) -> (r: bool)
        ensures
            r == flag_z(self.reg.f),
    {
        z_of(self.reg.f)
    }

    /// The NC condition: the C flag is clear.
    pub fn nc(&self) -> (r: bool)
        ensures
            r == !flag_c(self.reg.f),
    {
        !c_of(self.reg.f)
    }

    /// The C condition.
    pub fn c(&self) -> (r: bool)
        ensures
            r == flag_c(self.reg.f),
    {
        c_of(self.reg.f)
    }

    /// Requests an interrupt: sets its bit in IF.
    pub fn set_interrupt(&mut self, mem: &mut Memory, interrupt: Interrupt)
        requires
            old(mem)@.wf(),
        ensures
            *final(self) == *old(self),
            final(mem)@ == old(mem)@.with_data(
                0xff0f,
                bit_set(old(mem)@.data[0xff0f], interrupt.index()),
            ),
            final(mem)@.wf(),
    {
        let i = interrupt.bit_index();
        mem.data[0xff0f] = with_bit_set(mem.data[0xff0f], i);
    }

    /// Withdraws an interrupt request: clears its bit in IF.
    pub fn unset_interrupt(&mut self, mem: &mut Memory, interrupt: Interrupt)
        requires
            old(mem)@.wf(),
        ensures
            *final(self) == *old(self),
            final(mem)@ == old(mem)@.with_data(
                0xff0f,
                bit_clear(old(mem)@.data[0xff0f], interrupt.index()),
            ),
            final(mem)@.wf(),
    {
        let i = interrupt.bit_index();
        mem.data[0xff0f] = with_bit_clear(mem.data[0xff0f], i);
    }

    /// The interrupt enable register IE.
    pub fn interrupt_reg(&self, mem: &Memory) -> (r: u8)
        requires
            mem@.wf(),
        ensures
            r == mem@.data[0xffff],
    {
        mem.data[0xffff]
    }

    /// Pushes a 16-bit value: the stack pointer drops by two and the value
    /// lands there, little-endian.
    pub fn push_stack(&mut self, mem: &mut Memory, value: u16)
        requires
            old(mem)@.wf(),
        ensures
            *final(self) == (CPU { sp: wrap16(old(self).sp - 2), ..*old(self) }),
            final(mem)@ == old(mem)@.write16s(wrap16(old(self).sp - 2), value),
            final(mem)@.wf(),
    {
        self.sp = wsub16(self.sp, 2);
        mem.write16(self.sp, value);
    }

    /// Pops a 16-bit value: reads it at the stack pointer, which rises by
    /// two.
    pub fn pop_stack(&mut self, mem: &mut Memory) -> (r: u16)
        requires
            old(mem)@.wf(),
        ensures
            *final(self) == (CPU { sp: wrap16(old(self).sp + 2), ..*old(self) }),
            final(mem)@ == old(mem)@,
            r == old(mem)@.read16s(old(self).sp),
    {
        let result = mem.read16(self.sp);
        self.sp = wadd16(self.sp, 2);
        result
    }

    /// Reads the byte at the program counter and advances past it.
    pub fn fetch8(&mut self, mem: &mut Memory) -> (r: u8)
        requires
            old(mem)@.wf(),
        ensures
            *final(self) == (CPU { pc: wrap16(old(self).pc + 1), ..*old(self) }),
            final(mem)@ == old(mem)@,
            r == old(mem)@.read8s(old(self).pc),
    {
        let result = mem.read8(self.pc);
        self.pc = wadd16(self.pc, 1);
        result
    }

    /// Reads the 16-bit value at the program counter and advances past it.
    pub fn fetch16(&mut self, mem: &mut Memory) -> (r: u16)
        requires
            old(mem)@.wf(),
        ensures
            *final(self) == (CPU { pc: wrap16(old(self).pc + 2), ..*old(self) }),
            final(mem)@ == old(mem)@,
            r == old(mem)@.read16s(old(self).pc),
    {
        let result = mem.read16(self.pc);
        self.pc = wadd16(self.pc, 2);
        result
    }

    /// Charges the instruction's cycles to the divider and timer.
    pub(crate) fn update_timer(&mut self, mem: &mut Memory, cycles: u16)
        requires
            old(self).wf(),
            old(mem)@.wf(),
            cycles <= 1024,
        ensures
            (*final(self), final(mem)@) == spec_timer(*old(self), old(mem)@, cycles),
            final(self).wf(),
            final(mem)@.wf(),
            final(self).reg == old(self).reg,
            final(self).pc == old(self).pc,
    {
        let dt: u16 = mem.divider_cycles + cycles;
        let div2: u8 = ((mem.reg_div() as u16 + dt / 256) % 256) as u8;
        mem.data[0xff04] = div2;
        mem.divider_cycles = dt % 256;
        let tac = mem.reg_tac();
        if test_bit(tac, 2) {
            let t: u16 = self.timer_cycles + cycles;
            let p: u16 = if tac % 4 == 0 {
                1024
            } else if tac % 4 == 1 {
                16
            } else if tac % 4 == 2 {
                64
            } else {
                256
            };
            let ghost tima0 = mem@.data[0xff05];
            let ghost n0 = t as int / p as int;
            let mut ticks: u16 = t / p;
            let mut tima: u8 = mem.reg_tima();
            let tma: u8 = mem.reg_tma();
            let mut wrapped: bool = false;
            while ticks > 0
                invariant
                    spec_tick_tima(tima0, tma, n0).0 == spec_tick_tima(tima, tma, ticks as int).0,
                    spec_tick_tima(tima0, tma, n0).1 == (wrapped || spec_tick_tima(
                        tima,
                        tma,
                        ticks as int,
                    ).1),
                decreases ticks,
            {
                if tima == 255 {
                    tima = tma;
                    wrapped = true;
                } else {
                    tima = tima + 1;
                }
                ticks = ticks - 1;
            }
            mem.data[0xff05] = tima;
            if wrapped {
                mem.data[0xff0f] = with_bit_set(mem.data[0xff0f], 2);
            }
            self.timer_cycles = t % p;
        }
    }

    /// Services the pending interrupt, if the master enable is set and one
    /// is pending. Returns true when an interrupt was dispatched.
    pub(crate) fn service_interrupts(&mut self, mem: &mut Memory) -> (serviced: bool)
        requires
            old(mem)@.wf(),
        ensures
            serviced == (old(self).interrupts && first_pending(
                old(mem)@.data[0xffff],
                old(mem)@.data[0xff0f],
            ) >= 0),
            serviced ==> (*final(self), final(mem)@) == spec_service(*old(self), old(mem)@),
            !serviced ==> *final(self) == *old(self) && final(mem)@ == old(mem)@,
            final(mem)@.wf(),
            final(self).reg == old(self).reg,
            final(self).timer_cycles == old(self).timer_cycles,
    {
        if !self.interrupts {
            return false;
        }
        let ie = mem.data[0xffff];
        let iflag = mem.data[0xff0f];
        let mut i: u8 = 0;
        let mut found: bool = false;
        if test_bit(ie, 0) && test_bit(iflag, 0) {
            i = 0;
            found = true;
        } else if test_bit(ie, 1) && test_bit(iflag, 1) {
            i = 1;
            found = true;
        } else if test_bit(ie, 2) && test_bit(iflag, 2) {
            i = 2;
            found = true;
        } else if test_bit(ie, 3) && test_bit(iflag, 3) {
            i = 3;
            found = true;
        } else if test_bit(ie, 4) && test_bit(iflag, 4) {
            i = 4;
            found = true;
        }
        if !found {
            return false;
        }
        self.interrupts = false;
        self.halt = false;
        let pc = self.pc;
        self.push_stack(mem, pc);
        self.pc = 0x40 + 8 * i as u16;
        mem.data[0xff0f] = with_bit_clear(mem.data[0xff0f], i);
        true
    }
}

} // verus!
