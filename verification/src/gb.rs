//! The whole system: the processor, the memory map and the picture
//! processor composed behind the host-facing interface. The host loads a
//! cartridge image, resets, and then drives `step` with a framebuffer,
//! pushing button presses and releases in between.

use crate::arith::{bit_clear, bit_get, bit_set, test_bit, with_bit_clear, with_bit_set};
use crate::cpu::{Interrupt, Registers, CPU};
use crate::draw::spec_screen;
use crate::gpu::{spec_gpu_step, GPU};
use crate::isa::spec_step as spec_cpu_step;
use crate::memory::{CartError, MemV, Memory};
use vstd::prelude::*;

verus! {

/// The composed system.
pub struct GB {
    /// The cartridge title, read from the header at load.
    pub rom_title: Vec<u8>,
    pub mem: Memory,
    pub cpu: CPU,
    pub gpu: GPU,
}

/// The title bytes: the ASCII run at 0x134 up to the first NUL, at most 16
/// bytes.
pub open spec fn title_from(rom: Seq<u8>, i: int) -> Seq<u8>
    decreases 0x144 - i,
{
    if i < 0x134 || i >= 0x144 || rom[i] == 0 {
        Seq::empty()
    } else {
        seq![rom[i]] + title_from(rom, i + 1)
    }
}

/// One step of the whole system: the processor steps, the picture
/// processor consumes the same cycles, entering V-Blank requests the
/// V-Blank interrupt, and a finished frame is composited into the
/// framebuffer.
pub open spec fn spec_gb_step(cpu: CPU, m: MemV, g: GPU, buf: Seq<u8>) -> (CPU, MemV, GPU, Seq<
    u8,
>, u16, bool) {
    let s = spec_cpu_step(cpu, m);
    let gs = spec_gpu_step(g, s.mem, s.cycles);
    let m2 = if gs.3 {
        gs.1.with_data(0xff0f, bit_set(gs.1.data[0xff0f], 0))
    } else {
        gs.1
    };
    let buf2 = if gs.2 {
        spec_screen(m2, buf)
    } else {
        buf
    };
    (s.cpu, m2, gs.0, buf2, s.cycles, gs.2)
}

impl GB {
    /// The system invariant: each part is well formed.
    pub open spec fn wf(self) -> bool {
        &&& self.cpu.wf()
        &&& self.mem@.wf()
        &&& self.gpu.wf()
    }

    /// Builds a system over a cartridge image, or reports why the image
    /// cannot be loaded. The processor powers up as `CPU::new` describes
    /// and the picture processor at the top of a frame.
    pub fn with_rom(rom: Vec<u8>) -> (r: Result<GB, CartError>)
        ensures
            match r {
                Ok(gb) => {
                    &&& gb.wf()
                    &&& gb.mem@.rom == rom@
                    &&& gb.mem@.data == crate::memory::zero_data()
                    &&& gb.mem@.bank == 1
                    &&& gb.cpu == CPU::power_up()
                    &&& gb.gpu == (GPU { clock: 0, mode: 2, ly: 0 })
                    &&& gb.rom_title@ == title_from(rom@, 0x134)
                },
                Err(CartError::Truncated) => rom@.len() < 0x150 || (rom@[0x148] == 0 && rom@.len()
                    < 0x8000) || (rom@[0x148] == 5 && rom@.len() < 0x100000),
                Err(CartError::UnsupportedRomSize) => rom@.len() >= 0x150 && rom@[0x148] != 0
                    && rom@[0x148] != 5,
            },
    {
        let mut title: Vec<u8> = Vec::new();
        if rom.len() >= 0x150 {
            let mut i: usize = 0x134;
            let mut done: bool = false;
            while i < 0x144 && !done
                invariant
                    0x134 <= i <= 0x144,
                    rom@.len() >= 0x150,
                    done ==> title@ == title_from(rom@, 0x134),
                    !done ==> title_from(rom@, 0x134) == title@ + title_from(rom@, i as int),
                decreases 0x144 - i + (if done {
                    0int
                } else {
                    1
                }),
            {
                let b = rom[i];
                if b == 0 {
                    done = true;
                    proof {
                        assert(title@ + title_from(rom@, i as int) =~= title@);
                    }
                } else {
                    let ghost t0 = title@;
                    title.push(b);
                    i += 1;
                    proof {
                        assert(t0 + title_from(rom@, i - 1) =~= title@ + title_from(
                            rom@,
                            i as int,
                        ));
                    }
                }
            }
            proof {
                if !done {
                    assert(title@ + title_from(rom@, i as int) =~= title@);
                }
            }
        }
        let mem = match Memory::with_rom(rom) {
            Ok(m) => m,
            Err(e) => {
                return Err(e);
            },
        };
        Ok(GB { rom_title: title, mem, cpu: CPU::new(), gpu: GPU::new() })
    }

    /// The cartridge title from the header.
    pub fn title(&self) -> (r: &Vec<u8>)
        ensures
            r@ == self.rom_title@,
    {
        &self.rom_title
    }

    /// Applies the boot-ROM-skip state: the documented register file, the
    /// power-up values of LCDC, the palettes and IF, both joypad rows
    /// released, and the picture processor at the top of a frame (LY zero
    /// and STAT showing mode 2). Everything else is left as it is.
    pub fn reset(&mut self)
        requires
            old(self).mem@.wf(),
        ensures
            final(self).cpu == (CPU {
                pc: 0x0100,
                sp: 0xfffe,
                reg: Registers {
                    f: 0xb0,
                    a: 0x01,
                    b: 0x00,
                    c: 0x13,
                    d: 0x00,
                    e: 0xd8,
                    h: 0x01,
                    l: 0x4d,
                },
                halt: false,
                interrupts: false,
                timer_cycles: 0,
            }),
            final(self).gpu == (GPU { clock: 0, mode: 2, ly: 0 }),
            final(self).mem@ == (MemV {
                data: old(self).mem@.data.update(0xff40, 0x91).update(0xff47, 0xfc).update(
                    0xff48,
                    0xff,
                ).update(0xff49, 0xff).update(0xff0f, 0xe1).update(0xff44, 0).update(
                    0xff41,
                    (old(self).mem@.data[0xff41] / 4 * 4 + 2) as u8,
                ),
                jp_action: 0x0f,
                jp_direction: 0x0f,
                div_acc: 0,
                ..old(self).mem@
            }),
            final(self).wf(),
            final(self).rom_title == old(self).rom_title,
    {
        self.cpu = CPU {
            pc: 0x0100,
            sp: 0xfffe,
            reg: Registers {
                f: 0xb0,
                a: 0x01,
                b: 0x00,
                c: 0x13,
                d: 0x00,
                e: 0xd8,
                h: 0x01,
                l: 0x4d,
            },
            halt: false,
            interrupts: false,
            timer_cycles: 0,
        };
        self.gpu = GPU { clock: 0, mode: 2, ly: 0 };
        self.mem.data[0xff40] = 0x91;
        self.mem.data[0xff47] = 0xfc;
        self.mem.data[0xff48] = 0xff;
        self.mem.data[0xff49] = 0xff;
        self.mem.data[0xff0f] = 0xe1;
        self.mem.data[0xff44] = 0;
        self.mem.data[0xff41] = self.mem.data[0xff41] / 4 * 4 + 2;
        self.mem.joypad_action = 0x0f;
        self.mem.joypad_direction = 0x0f;
        self.mem.divider_cycles = 0;
    }

    /// Presses a button: row 0 holds the action buttons, row 1 the
    /// directions, `button` the bit inside the row. If the button was not
    /// already pressed, its row bit drops and the Joypad interrupt is
    /// requested.
    pub fn set_joypad(&mut self, directional: usize, button: u8)
        requires
            old(self).wf(),
            directional < 2,
            button < 4,
        ensures
            ({
                let row = if directional == 0 {
                    old(self).mem@.jp_action
                } else {
                    old(self).mem@.jp_direction
                };
                if bit_get(row, button) {
                    final(self).mem@ == (MemV {
                        jp_action: if directional == 0 {
                            bit_clear(row, button)
                        } else {
                            old(self).mem@.jp_action
                        },
                        jp_direction: if directional == 1 {
                            bit_clear(row, button)
                        } else {
                            old(self).mem@.jp_direction
                        },
                        data: old(self).mem@.data.update(
                            0xff0f,
                            bit_set(old(self).mem@.data[0xff0f], 4),
                        ),
                        ..old(self).mem@
                    })
                } else {
                    final(self).mem@ == old(self).mem@
                }
            }),
            final(self).cpu == old(self).cpu,
            final(self).gpu == old(self).gpu,
            final(self).wf(),
    {
        let row = if directional == 0 {
            self.mem.joypad_action
        } else {
            self.mem.joypad_direction
        };
        if test_bit(row, button) {
            proof {
                crate::arith::lemma_bit_ops(row, button, 0);
            }
            let nr = with_bit_clear(row, button);
            if directional == 0 {
                self.mem.joypad_action = nr;
            } else {
                self.mem.joypad_direction = nr;
            }
            self.cpu.set_interrupt(&mut self.mem, Interrupt::JoyPad);
        }
    }

    /// Releases a button: its row bit rises again.
    pub fn unset_joypad(&mut self, directional: usize, button: u8)
        requires
            old(self).wf(),
            directional < 2,
            button < 4,
        ensures
            ({
                let row = if directional == 0 {
                    old(self).mem@.jp_action
                } else {
                    old(self).mem@.jp_direction
                };
                final(self).mem@ == (MemV {
                    jp_action: if directional == 0 {
                        bit_set(row, button)
                    } else {
                        old(self).mem@.jp_action
                    },
                    jp_direction: if directional == 1 {
                        bit_set(row, button)
                    } else {
                        old(self).mem@.jp_direction
                    },
                    ..old(self).mem@
                })
            }),
            final(self).cpu == old(self).cpu,
            final(self).gpu == old(self).gpu,
            final(self).wf(),
    {
        proof {
            crate::arith::lemma_bit_ops(
                if directional == 0 {
                    self.mem.joypad_action
                } else {
                    self.mem.joypad_direction
                },
                button,
                0,
            );
        }
        if directional == 0 {
            self.mem.joypad_action = with_bit_set(self.mem.joypad_action, button);
        } else {
            self.mem.joypad_direction = with_bit_set(self.mem.joypad_direction, button);
        }
    }

    /// One system step: the processor executes, the picture processor
    /// consumes the cycles, V-Blank entry requests its interrupt, and a
    /// finished frame is composited into `buf`. Returns the cycles taken
    /// and whether `buf` now holds a fresh frame.
    pub fn step(&mut self, buf: &mut Vec<u8>) -> (r: (u16, bool))
        requires
            old(self).wf(),
            old(buf)@.len() == 0x20000,
        ensures
            ({
                let s = spec_gb_step(old(self).cpu, old(self).mem@, old(self).gpu, old(buf)@);
                &&& final(self).cpu == s.0
                &&& final(self).mem@ == s.1
                &&& final(self).gpu == s.2
                &&& final(buf)@ == s.3
                &&& r.0 == s.4
                &&& r.1 == s.5
            }),
            final(self).wf(),
            final(buf)@.len() == 0x20000,
            final(self).rom_title == old(self).rom_title,
    {
        let cycles = self.cpu.step(&mut self.mem);
        let (redraw, vblank) = self.gpu.step(&mut self.mem, cycles);
        if vblank {
            self.cpu.set_interrupt(&mut self.mem, Interrupt::VBlank);
        }
        if redraw {
            self.gpu.draw_screen(&self.mem, buf);
        }
        (cycles, redraw)
    }
}

} // verus!
