//! The picture processor's mode machine. Each visible scanline walks OAM
//! search (mode 2, 80 cycles), VRAM read (mode 3, 172 cycles) and H-Blank
//! (mode 0, 204 cycles); after the last visible line V-Blank (mode 1) runs
//! for eleven 456-cycle lines, so a frame is 154 lines of 456 cycles:
//! 70,224 cycles. Entering V-Blank reports a finished frame exactly once
//! per frame.

use crate::memory::{MemV, Memory};
use vstd::prelude::*;

verus! {

/// The picture processor: its mode, the cycles spent in that mode, and the
/// current scanline. The scanline is mirrored into the LY register, which
/// is read-only on the bus.
pub struct GPU {
    pub clock: u16,
    pub mode: u8,
    pub ly: u8,
}

/// How many cycles each mode lasts.
pub open spec fn mode_len(mode: u8) -> int {
    if mode == 2 {
        80
    } else if mode == 3 {
        172
    } else if mode == 0 {
        204
    } else {
        456
    }
}

/// The stored STAT byte with its mode bits replaced.
pub open spec fn stat_with_mode(s: u8, mode: u8) -> u8
    recommends
        mode <= 3,
{
    (s / 4 * 4 + mode) as u8
}

/// The mode a frame position falls in: lines 0 to 142 walk modes 2, 3, 0;
/// lines 143 to 153 are V-Blank.
pub open spec fn mode_of(p: int) -> u8 {
    let off = p % 456;
    if p / 456 >= 143 {
        1
    } else if off < 80 {
        2
    } else if off < 252 {
        3
    } else {
        0
    }
}

impl GPU {
    /// The mode machine invariant: the mode is one of the four, the
    /// scanline lies in the mode's line band, and the clock has not
    /// reached the mode's length.
    pub open spec fn wf(self) -> bool {
        &&& self.mode <= 3
        &&& (self.mode == 1 ==> 143 <= self.ly <= 153)
        &&& (self.mode != 1 ==> self.ly < 143)
        &&& self.clock < mode_len(self.mode)
    }

    /// The position inside the 70,224-cycle frame.
    pub open spec fn pos(self) -> int {
        456 * self.ly + (if self.mode == 2 {
            self.clock as int
        } else if self.mode == 3 {
            80 + self.clock
        } else if self.mode == 0 {
            252 + self.clock
        } else {
            self.clock as int
        })
    }

    /// A picture processor at the top of a frame: OAM search of line 0.
    pub fn new() -> (r: GPU)
        ensures
            r == (GPU { clock: 0, mode: 2, ly: 0 }),
            r.wf(),
            r.pos() == 0,
    {
        GPU { clock: 0, mode: 2, ly: 0 }
    }
}

/// One advance of the mode machine by `cycles`: the clock accumulates and
/// at the end of the mode the machine moves on, carrying the remainder.
/// The scanline is mirrored into LY whenever it changes, and the low STAT
/// bits are rewritten on each mode change. The two flags report entry into
/// V-Blank: a finished frame to draw, and the V-Blank interrupt.
pub open spec fn spec_gpu_step(g: GPU, m: MemV, cycles: u16) -> (GPU, MemV, bool, bool) {
    let clock = g.clock + cycles;
    if g.mode == 2 {
        if clock >= 80 {
            let g2 = GPU { mode: 3, clock: (clock - 80) as u16, ly: g.ly };
            (g2, m.with_data(0xff41, stat_with_mode(m.data[0xff41], 3)), false, false)
        } else {
            (GPU { clock: clock as u16, ..g }, m, false, false)
        }
    } else if g.mode == 3 {
        if clock >= 172 {
            let g2 = GPU { mode: 0, clock: (clock - 172) as u16, ly: g.ly };
            (g2, m.with_data(0xff41, stat_with_mode(m.data[0xff41], 0)), false, false)
        } else {
            (GPU { clock: clock as u16, ..g }, m, false, false)
        }
    } else if g.mode == 0 {
        if clock >= 204 {
            let ly2 = (g.ly + 1) as u8;
            let rem = (clock - 204) as u16;
            let m2 = m.with_data(0xff44, ly2);
            if ly2 == 143 {
                let g2 = GPU { mode: 1, clock: rem, ly: ly2 };
                (g2, m2.with_data(0xff41, stat_with_mode(m2.data[0xff41], 1)), true, true)
            } else {
                let g2 = GPU { mode: 2, clock: rem, ly: ly2 };
                (g2, m2.with_data(0xff41, stat_with_mode(m2.data[0xff41], 2)), false, false)
            }
        } else {
            (GPU { clock: clock as u16, ..g }, m, false, false)
        }
    } else {
        if clock >= 456 {
            let rem = (clock - 456) as u16;
            if g.ly >= 153 {
                let g2 = GPU { mode: 2, clock: rem, ly: 0 };
                let m2 = m.with_data(0xff44, 0);
                (g2, m2.with_data(0xff41, stat_with_mode(m2.data[0xff41], 2)), false, false)
            } else {
                let ly2 = (g.ly + 1) as u8;
                let g2 = GPU { mode: 1, clock: rem, ly: ly2 };
                (g2, m.with_data(0xff44, ly2), false, false)
            }
        } else {
            (GPU { clock: clock as u16, ..g }, m, false, false)
        }
    }
}

impl GPU {
    /// Advances the mode machine by the cycles one instruction took.
    pub fn step(&mut self, mem: &mut Memory, cycles: u16) -> (r: (bool, bool))
        requires
            old(self).wf(),
            old(mem)@.wf(),
            cycles <= 80,
        ensures
            ({
                let s = spec_gpu_step(*old(self), old(mem)@, cycles);
                *final(self) == s.0 && final(mem)@ == s.1 && r.0 == s.2 && r.1 == s.3
            }),
            final(self).wf(),
            final(mem)@.wf(),
    {
        let clock: u16 = self.clock + cycles;
        if self.mode == 2 {
            if clock >= 80 {
                self.mode = 3;
                self.clock = clock - 80;
                mem.data[0xff41] = mem.data[0xff41] / 4 * 4 + 3;
                (false, false)
            } else {
                self.clock = clock;
                (false, false)
            }
        } else if self.mode == 3 {
            if clock >= 172 {
                self.mode = 0;
                self.clock = clock - 172;
                mem.data[0xff41] = mem.data[0xff41] / 4 * 4;
                (false, false)
            } else {
                self.clock = clock;
                (false, false)
            }
        } else if self.mode == 0 {
            if clock >= 204 {
                let ly2 = self.ly + 1;
                self.ly = ly2;
                self.clock = clock - 204;
                mem.data[0xff44] = ly2;
                if ly2 == 143 {
                    self.mode = 1;
                    mem.data[0xff41] = mem.data[0xff41] / 4 * 4 + 1;
                    (true, true)
                } else {
                    self.mode = 2;
                    mem.data[0xff41] = mem.data[0xff41] / 4 * 4 + 2;
                    (false, false)
                }
            } else {
                self.clock = clock;
                (false, false)
            }
        } else {
            if clock >= 456 {
                self.clock = clock - 456;
                if self.ly >= 153 {
                    self.ly = 0;
                    self.mode = 2;
                    mem.data[0xff44] = 0;
                    mem.data[0xff41] = mem.data[0xff41] / 4 * 4 + 2;
                    (false, false)
                } else {
                    let ly2 = self.ly + 1;
                    self.ly = ly2;
                    mem.data[0xff44] = ly2;
                    (false, false)
                }
            } else {
                self.clock = clock;
                (false, false)
            }
        }
    }
}

/// The mode machine driven by a sequence of cycle charges: the final
/// state, the final memory, and how many of the steps reported V-Blank
/// entry.
pub open spec fn gpu_run(g: GPU, m: MemV, cs: Seq<u16>) -> (GPU, MemV, int)
    decreases cs.len(),
{
    if cs.len() == 0 {
        (g, m, 0)
    } else {
        let s = spec_gpu_step(g, m, cs[0]);
        let rest = gpu_run(s.0, s.1, cs.drop_first());
        (rest.0, rest.1, rest.2 + (if s.3 {
            1int
        } else {
            0
        }))
    }
}

/// The sum of a sequence of cycle charges.
pub open spec fn cycle_total(cs: Seq<u16>) -> int
    decreases cs.len(),
{
    if cs.len() == 0 {
        0
    } else {
        cs[0] + cycle_total(cs.drop_first())
    }
}

/// How many cycles remain until the next V-Blank entry from position `p`.
pub open spec fn to_vblank(p: int) -> int {
    if p < 65208 {
        65208 - p
    } else {
        65208 + 70224 - p
    }
}

/// How often a run of `t` cycles from position `p` enters V-Blank.
pub open spec fn vblank_count(p: int, t: int) -> int {
    if t < to_vblank(p) {
        0
    } else {
        1 + (t - to_vblank(p)) / 70224
    }
}

/// The frame law over whole runs: feeding any sequence of
/// instruction-sized cycle charges moves the frame position forward by
/// exactly their sum (modulo the 70,224-cycle frame), and V-Blank entry is
/// reported exactly once per frame completed — in particular exactly once
/// for a run of 70,224 cycles.
pub proof fn lemma_gpu_run(g: GPU, m: MemV, cs: Seq<u16>)
    requires
        g.wf(),
        forall|i: int| 0 <= i < cs.len() ==> cs[i] <= 80,
    ensures
        gpu_run(g, m, cs).0.wf(),
        gpu_run(g, m, cs).0.pos() == (g.pos() + cycle_total(cs)) % 70224,
        gpu_run(g, m, cs).2 == vblank_count(g.pos(), cycle_total(cs)),
        cycle_total(cs) >= 0,
    decreases cs.len(),
{
    lemma_gpu_frame(g, m, if cs.len() == 0 {
        0
    } else {
        cs[0]
    });
    if cs.len() == 0 {
        vstd::arithmetic::div_mod::lemma_small_mod(g.pos() as nat, 70224);
    } else {
        let c = cs[0] as int;
        let p = g.pos();
        let s = spec_gpu_step(g, m, cs[0]);
        let p2 = s.0.pos();
        lemma_gpu_run(s.0, s.1, cs.drop_first());
        let t = cycle_total(cs.drop_first());
        // positions compose: ((p + c) % 70224 + t) % 70224 == (p + c + t) % 70224
        assert(((p + c) % 70224 + t) % 70224 == (p + c + t) % 70224) by (nonlinear_arith)
            requires
                0 <= p + c,
                0 <= t,
        ;
        // the distance to V-Blank shrinks by the cycles consumed, gaining a
        // frame when the boundary was just crossed
        let d = to_vblank(p);
        let crossed = p < 65208 <= p + c;
        assert(to_vblank(p2) == d - c + (if crossed {
            70224int
        } else {
            0
        }));
        if crossed {
            assert(c + t - d >= 0);
            assert((c + t - d) / 70224 == (if t < d - c + 70224 {
                0int
            } else {
                1 + (t - (d - c + 70224)) / 70224
            })) by (nonlinear_arith)
                requires
                    0 <= c + t - d,
                    c - d < 70224,
                    t >= 0,
            ;
        } else {
            if t >= d - c {
                assert((c + t - d) / 70224 == (t - (d - c)) / 70224);
            }
        }
    }
}

/// The frame laws of the mode machine: a well-formed state sits at a
/// position inside the 70,224-cycle frame, its mode and scanline are the
/// ones that position dictates, a step advances the position by exactly
/// the cycles consumed (modulo the frame), and V-Blank entry — one frame
/// finished, with the redraw and interrupt flags raised together — is
/// reported exactly when the position crosses the start of line 143.
pub proof fn lemma_gpu_frame(g: GPU, m: MemV, cycles: u16)
    requires
        g.wf(),
        cycles <= 80,
    ensures
        0 <= g.pos() < 70224,
        g.mode == mode_of(g.pos()),
        g.ly == g.pos() / 456,
        spec_gpu_step(g, m, cycles).0.pos() == (g.pos() + cycles) % 70224,
        spec_gpu_step(g, m, cycles).2 == (g.pos() < 65208 <= g.pos() + cycles),
        spec_gpu_step(g, m, cycles).3 == spec_gpu_step(g, m, cycles).2,
        spec_gpu_step(g, m, cycles).0.wf(),
{
    let p = g.pos();
    assert(456 * g.ly + 456 <= 70224) by (nonlinear_arith)
        requires
            g.ly <= 153,
    ;
    assert((456 * g.ly + (p - 456 * g.ly)) / 456 == g.ly && (456 * g.ly + (p - 456 * g.ly)) % 456
        == p - 456 * g.ly) by (nonlinear_arith)
        requires
            0 <= p - 456 * g.ly < 456,
            0 <= g.ly,
    ;
    let s = spec_gpu_step(g, m, cycles);
    let p2 = s.0.pos();
    assert(456 * s.0.ly <= 456 * 153) by (nonlinear_arith)
        requires
            s.0.ly <= 153,
    ;
    if p + cycles < 70224 {
        assert((p + cycles) % 70224 == p + cycles);
    } else {
        assert((p + cycles) % 70224 == p + cycles - 70224);
    }
}

} // verus!
