//! The memory map: an immutable, bank-switched cartridge image, the 64 KiB
//! writable address space, the joypad latch, and the write side effects of
//! the memory-mapped I/O registers (bank select, joypad multiplex, DIV
//! reset, OAM DMA).

use crate::arith::{bit_get, test_bit, wadd16, wrap16};
use vstd::prelude::*;

verus! {

/// Why a cartridge image cannot be loaded.
#[derive(Clone, Copy, PartialEq, Eq, Structural, Debug)]
pub enum CartError {
    /// The image is shorter than its header or its declared ROM size demands.
    Truncated,
    /// The ROM-size byte at 0x0148 is a reserved value.
    UnsupportedRomSize,
}

/// The mathematical model of the memory map.
#[verifier::ext_equal]
pub struct MemV {
    /// The cartridge image.
    pub rom: Seq<u8>,
    /// The 64 KiB writable address space.
    pub data: Seq<u8>,
    /// Pressed-state of the four action buttons, in bits 0 to 3; a zero bit
    /// is a pressed button.
    pub jp_action: u8,
    /// Pressed-state of the four directions, in bits 0 to 3.
    pub jp_direction: u8,
    /// The divider prescaler: machine cycles accumulated toward the next
    /// DIV increment. A write to DIV clears it together with the register.
    pub div_acc: u16,
    /// Whether the cartridge has 64 banks (1 MiB) rather than 2 (32 KiB).
    pub banks64: bool,
    /// The ROM bank latch: low 8 bits plus bit 8, as last written.
    pub bank: u16,
}

/// An all-zero 64 KiB address space.
pub open spec fn zero_data() -> Seq<u8> {
    Seq::new(0x10000, |i: int| 0u8)
}

impl MemV {
    /// The memory map is well formed: the writable space is 64 KiB, the
    /// image covers every selectable bank, and the joypad rows only use
    /// their low four bits.
    pub open spec fn wf(self) -> bool {
        &&& self.data.len() == 0x10000
        &&& self.rom.len() >= (if self.banks64 {
            0x100000int
        } else {
            0x8000
        })
        &&& self.jp_action < 16
        &&& self.jp_direction < 16
        &&& self.div_acc < 256
    }

    /// The bank mapped at 0x4000-0x7FFF. The latch is reduced to the banks
    /// the cartridge has, and a result of zero is transparently remapped to
    /// bank 1.
    pub open spec fn eff_bank(self) -> int {
        if self.banks64 {
            let b = self.bank % 64;
            if b == 0 {
                1
            } else {
                b as int
            }
        } else {
            1
        }
    }

    /// The synthesized STAT value: bit 7 reads high, bit 2 reflects the
    /// LY == LYC coincidence, and the remaining bits come from the stored
    /// register (the picture processor keeps the mode in bits 0-1).
    pub open spec fn stat_read(self) -> u8 {
        (self.data[0xff41] % 4 + self.data[0xff41] / 8 % 16 * 8 + (if self.data[0xff44]
            == self.data[0xff45] {
            4int
        } else {
            0
        }) + 0x80) as u8
    }

    /// What a read of address `a` returns.
    pub open spec fn read8s(self, a: u16) -> u8 {
        if a < 0x4000 {
            self.rom[a as int]
        } else if a < 0x8000 {
            self.rom[0x4000 * (self.eff_bank() - 1) + a]
        } else if 0xe000 <= a && a < 0xfe00 {
            self.data[a - 0x1000]
        } else if a == 0xff41 {
            self.stat_read()
        } else {
            self.data[a as int]
        }
    }

    /// What a 16-bit read returns: the little-endian pair of byte reads,
    /// with the address wrapping in 16 bits.
    pub open spec fn read16s(self, a: u16) -> u16 {
        (self.read8s(a) + 256 * self.read8s(wrap16(a + 1))) as u16
    }

    /// The memory with one byte of the writable space replaced.
    pub open spec fn with_data(self, i: int, v: u8) -> MemV {
        MemV { data: self.data.update(i, v), ..self }
    }

    /// The joypad multiplex: writing bit 4 latches the action row, else
    /// writing bit 5 latches the direction row, into the low bits of FF00
    /// with bits 6-7 forced high.
    pub open spec fn joypad_write(self, v: u8) -> MemV {
        if bit_get(v, 4) {
            self.with_data(0xff00, (0xd0 + self.jp_action) as u8)
        } else if bit_get(v, 5) {
            self.with_data(0xff00, (0xe0 + self.jp_direction) as u8)
        } else {
            self
        }
    }

    /// The OAM DMA copy: the 160 bytes at `src` (read through the normal
    /// read path) land in 0xFE00-0xFE9F.
    pub open spec fn dma_at(self, src: u16) -> MemV
        recommends
            src <= 0xff00,
    {
        MemV {
            data: Seq::new(
                self.data.len(),
                |i: int|
                    if 0xfe00 <= i < 0xfea0 {
                        self.read8s((src + (i - 0xfe00)) as u16)
                    } else {
                        self.data[i]
                    },
            ),
            ..self
        }
    }

    /// What a write of `v` to address `a` does, following the region table:
    /// bank-select writes update the latch, RAM-enable, reserved, external
    /// RAM, echo, pad and LY writes are dropped, the joypad, DIV and DMA
    /// registers have their side effects, and everything else is a plain
    /// byte write.
    pub open spec fn write8s(self, a: u16, v: u8) -> MemV {
        if a < 0x2000 {
            self
        } else if a < 0x4000 {
            if self.banks64 {
                if a < 0x3000 {
                    MemV { bank: (self.bank / 256 * 256 + v) as u16, ..self }
                } else {
                    MemV { bank: (self.bank % 256 + (v % 2) * 256) as u16, ..self }
                }
            } else {
                self
            }
        } else if a < 0x8000 {
            self
        } else if a < 0xa000 {
            self.with_data(a as int, v)
        } else if a < 0xc000 {
            self
        } else if a < 0xe000 {
            self.with_data(a as int, v)
        } else if a < 0xfe00 {
            self
        } else if a < 0xfea0 {
            self.with_data(a as int, v)
        } else if a < 0xff00 {
            self
        } else if a == 0xff00 {
            self.joypad_write(v)
        } else if a == 0xff04 {
            MemV { div_acc: 0, ..self.with_data(0xff04, 0) }
        } else if a == 0xff44 {
            self
        } else if a == 0xff46 {
            self.with_data(0xff46, v).dma_at((v as int * 256) as u16)
        } else {
            self.with_data(a as int, v)
        }
    }

    /// What a 16-bit write does: the low byte lands at `a`, the high byte
    /// at the wrapped successor address.
    pub open spec fn write16s(self, a: u16, v: u16) -> MemV {
        self.write8s(a, (v % 256) as u8).write8s(wrap16(a + 1), (v / 256) as u8)
    }
}

/// Addresses whose writes are plain byte stores that read back unchanged:
/// VRAM, work RAM, OAM, and the I/O and HRAM space apart from the
/// registers with read or write side effects (joypad, DIV, STAT, LY, DMA).
pub open spec fn plain_rw(a: u16) -> bool {
    (0x8000 <= a < 0xa000) || (0xc000 <= a < 0xe000) || (0xfe00 <= a < 0xfea0) || (0xff00 <= a
        && a != 0xff00 && a != 0xff04 && a != 0xff41 && a != 0xff44 && a != 0xff46)
}

/// A byte written to a plain read/write address reads back unchanged, and
/// leaves the byte read at every other plain address as it was.
pub proof fn lemma_plain_write_read(m: MemV, a: u16, v: u8)
    requires
        m.wf(),
        plain_rw(a),
    ensures
        m.write8s(a, v).read8s(a) == v,
        forall|a2: u16| plain_rw(a2) && a2 != a ==> m.write8s(a, v).read8s(a2) == m.read8s(a2),
{
}

/// Writing a 16-bit value to a pair of plain read/write addresses and
/// reading it back returns the value, byte for byte.
pub proof fn lemma_write16_read16(m: MemV, a: u16, v: u16)
    requires
        m.wf(),
        plain_rw(a),
        plain_rw(wrap16(a + 1)),
    ensures
        m.write16s(a, v).read16s(a) == v,
{
    let lo = (v % 256) as u8;
    let hi = (v / 256) as u8;
    let a1 = wrap16(a + 1);
    lemma_plain_write_read(m, a, lo);
    lemma_write8s_frame(m, a, lo);
    lemma_plain_write_read(m.write8s(a, lo), a1, hi);
}

/// A write changes neither the image, the bank kind, the joypad rows, the
/// size of the writable space, nor the PPU-owned LY byte; it keeps the
/// memory well formed.
pub broadcast proof fn lemma_write8s_frame(m: MemV, a: u16, v: u8)
    ensures
        #![trigger m.write8s(a, v)]
        m.write8s(a, v).rom == m.rom,
        m.write8s(a, v).banks64 == m.banks64,
        m.write8s(a, v).jp_action == m.jp_action,
        m.write8s(a, v).jp_direction == m.jp_direction,
        m.wf() ==> m.write8s(a, v).data.len() == m.data.len(),
        m.wf() ==> m.write8s(a, v).wf(),
        m.wf() ==> m.write8s(a, v).data[0xff44] == m.data[0xff44],
{
}

/// The memory map of a running system.
pub struct Memory {
    pub rom: Vec<u8>,
    pub data: Vec<u8>,
    pub joypad_action: u8,
    pub joypad_direction: u8,
    pub divider_cycles: u16,
    pub banks64: bool,
    pub memory_bank: u16,
}

impl View for Memory {
    type V = MemV;

    open spec fn view(&self) -> MemV {
        MemV {
            rom: self.rom@,
            data: self.data@,
            jp_action: self.joypad_action,
            jp_direction: self.joypad_direction,
            div_acc: self.divider_cycles,
            banks64: self.banks64,
            bank: self.memory_bank,
        }
    }
}

impl Memory {
    /// Builds the memory map over a cartridge image. The image must hold
    /// the header and the full ROM its size byte declares, and the size
    /// byte must be one of the two supported values (0: 32 KiB, 5: 1 MiB).
    pub fn with_rom(rom: Vec<u8>) -> (r: Result<Memory, CartError>)
        ensures
            match r {
                Ok(m) => {
                    &&& m@.wf()
                    &&& m@.rom == rom@
                    &&& m@.data == zero_data()
                    &&& m@.jp_action == 0
                    &&& m@.jp_direction == 0
                    &&& m@.div_acc == 0
                    &&& m@.banks64 == (rom@[0x148] == 5)
                    &&& m@.bank == 1
                    &&& rom@.len() >= 0x150
                    &&& (rom@[0x148] == 0 || rom@[0x148] == 5)
                },
                Err(CartError::Truncated) => rom@.len() < 0x150 || (rom@[0x148] == 0 && rom@.len()
                    < 0x8000) || (rom@[0x148] == 5 && rom@.len() < 0x100000),
                Err(CartError::UnsupportedRomSize) => rom@.len() >= 0x150 && rom@[0x148] != 0
                    && rom@[0x148] != 5,
            },
    {
        if rom.len() < 0x150 {
            return Err(CartError::Truncated);
        }
        let size_byte = rom[0x148];
        let banks64: bool;
        if size_byte == 0 {
            if rom.len() < 0x8000 {
                return Err(CartError::Truncated);
            }
            banks64 = false;
        } else if size_byte == 5 {
            if rom.len() < 0x100000 {
                return Err(CartError::Truncated);
            }
            banks64 = true;
        } else {
            return Err(CartError::UnsupportedRomSize);
        }
        let mut data: Vec<u8> = Vec::new();
        let mut i: usize = 0;
        while i < 0x10000
            invariant
                i <= 0x10000,
                data@.len() == i,
                forall|j: int| 0 <= j < i ==> data@[j] == 0u8,
            decreases 0x10000 - i,
        {
            data.push(0);
            i += 1;
        }
        proof {
            assert(data@ =~= zero_data());
        }
        Ok(
            Memory {
                rom,
                data,
                joypad_action: 0,
                joypad_direction: 0,
                divider_cycles: 0,
                banks64,
                memory_bank: 1,
            },
        )
    }

    /// The bank mapped at 0x4000-0x7FFF, as a machine value.
    fn eff_bank(&self) -> (b: u16)
        ensures
            b as int == self@.eff_bank(),
            1 <= b < 64,
    {
        if self.banks64 {
            let x = self.memory_bank % 64;
            if x == 0 {
                1
            } else {
                x
            }
        } else {
            1
        }
    }

    /// Reads one byte from the address space.
    pub fn read8(&self, address: u16) -> (r: u8)
        requires
            self@.wf(),
        ensures
            r == self@.read8s(address),
    {
        if address < 0x4000 {
            self.rom[address as usize]
        } else if address < 0x8000 {
            let b = self.eff_bank();
            let idx: usize = 0x4000 * (b as usize - 1) + address as usize;
            self.rom[idx]
        } else if 0xe000 <= address && address < 0xfe00 {
            self.data[(address - 0x1000) as usize]
        } else if address == 0xff41 {
            let s = self.data[0xff41];
            let coincidence: u8 = if self.data[0xff44] == self.data[0xff45] {
                4
            } else {
                0
            };
            s % 4 + s / 8 % 16 * 8 + coincidence + 0x80
        } else {
            self.data[address as usize]
        }
    }

    /// Reads the little-endian 16-bit value at `addr`; the high byte comes
    /// from the wrapped successor address.
    pub fn read16(&self, addr: u16) -> (r: u16)
        requires
            self@.wf(),
        ensures
            r == self@.read16s(addr),
            r == self@.read8s(addr) + 256 * self@.read8s(wrap16(addr + 1)),
    {
        let top: u16 = self.read8(addr) as u16;
        let bottom: u16 = self.read8(wadd16(addr, 1)) as u16;
        top + 256 * bottom
    }

    /// Writes one byte into the address space, applying the region table's
    /// side effects.
    pub fn write8(&mut self, addr: u16, val: u8)
        requires
            old(self)@.wf(),
        ensures
            final(self)@ == old(self)@.write8s(addr, val),
            final(self)@.wf(),
    {
        proof {
            lemma_write8s_frame(old(self)@, addr, val);
        }
        if addr < 0x2000 {
            // RAM enable: out of scope, every value is accepted and dropped
        } else if addr < 0x4000 {
            if self.banks64 {
                if addr < 0x3000 {
                    self.memory_bank = self.memory_bank / 256 * 256 + val as u16;
                } else {
                    self.memory_bank = self.memory_bank % 256 + (val as u16 % 2) * 256;
                }
            }
        } else if addr < 0x8000 {
            // RAM bank select and banking mode: reserved
        } else if addr < 0xa000 {
            self.data[addr as usize] = val;
        } else if addr < 0xc000 {
            // external RAM: out of scope
        } else if addr < 0xe000 {
            self.data[addr as usize] = val;
        } else if addr < 0xfe00 {
            // echo region: writes are rejected
        } else if addr < 0xfea0 {
            self.data[addr as usize] = val;
        } else if addr < 0xff00 {
            // prohibited pad
        } else if addr == 0xff00 {
            if test_bit(val, 4) {
                self.data[0xff00] = 0xd0 + self.joypad_action;
            } else if test_bit(val, 5) {
                self.data[0xff00] = 0xe0 + self.joypad_direction;
            }
        } else if addr == 0xff04 {
            self.data[0xff04] = 0;
            self.divider_cycles = 0;
        } else if addr == 0xff44 {
            // LY is owned by the picture processor and read-only on the bus
        } else if addr == 0xff46 {
            self.data[0xff46] = val;
            self.mem_dma(val as u16 * 256);
        } else {
            self.data[addr as usize] = val;
        }
    }

    /// Writes the little-endian 16-bit value at `addr`; the high byte goes
    /// to the wrapped successor address.
    pub fn write16(&mut self, addr: u16, val: u16)
        requires
            old(self)@.wf(),
        ensures
            final(self)@ == old(self)@.write16s(addr, val),
            final(self)@.wf(),
    {
        proof {
            lemma_write8s_frame(old(self)@, addr, (val % 256) as u8);
            lemma_write8s_frame(
                old(self)@.write8s(addr, (val % 256) as u8),
                wrap16(addr + 1),
                (val / 256) as u8,
            );
        }
        self.write8(addr, (val % 256) as u8);
        self.write8(wadd16(addr, 1), (val / 256) as u8);
    }

    /// Copies the 160 bytes at `addr` into the sprite attribute table at
    /// 0xFE00, reading through the normal read path.
    pub fn mem_dma(&mut self, addr: u16)
        requires
            old(self)@.wf(),
            addr <= 0xff00,
        ensures
            final(self)@ == old(self)@.dma_at(addr),
            final(self)@.wf(),
    {
        let mut copied: Vec<u8> = Vec::new();
        let mut i: usize = 0;
        while i < 160
            invariant
                self@ == old(self)@,
                self@.wf(),
                addr <= 0xff00,
                i <= 160,
                copied@.len() == i,
                forall|j: int| 0 <= j < i ==> copied@[j] == self@.read8s((addr + j) as u16),
            decreases 160 - i,
        {
            copied.push(self.read8(addr + i as u16));
            i += 1;
        }
        let mut j: usize = 0;
        while j < 160
            invariant
                self@.wf(),
                self@.rom == old(self)@.rom,
                self@.banks64 == old(self)@.banks64,
                self@.jp_action == old(self)@.jp_action,
                self@.jp_direction == old(self)@.jp_direction,
                self@.div_acc == old(self)@.div_acc,
                self@.bank == old(self)@.bank,
                self@.data.len() == 0x10000,
                addr <= 0xff00,
                j <= 160,
                copied@.len() == 160,
                forall|k: int| 0 <= k < 160 ==> copied@[k] == old(self)@.read8s((addr + k) as u16),
                forall|i2: int|
                    0 <= i2 < 0x10000 && !(0xfe00 <= i2 < 0xfe00 + j) ==> self@.data[i2] == old(
                        self,
                    )@.data[i2],
                forall|k: int| 0 <= k < j ==> self@.data[0xfe00 + k] == copied@[k],
            decreases 160 - j,
        {
            self.data[0xfe00 + j] = copied[j];
            j += 1;
        }
        proof {
            assert forall|i: int| 0 <= i < 0x10000 implies self@.data[i] == old(self)@.dma_at(
                addr,
            ).data[i] by {
                if 0xfe00 <= i < 0xfea0 {
                    assert(self@.data[i] == copied@[i - 0xfe00]);
                }
            }
            assert(self@ =~= old(self)@.dma_at(addr));
        }
    }

    /// The stored joypad register byte.
    pub fn reg_joypad(&self) -> (r: u8)
        requires
            self@.wf(),
        ensures
            r == self@.data[0xff00],
    {
        self.data[0xff00]
    }

    /// The divider register DIV.
    pub fn reg_div(&self) -> (r: u8)
        requires
            self@.wf(),
        ensures
            r == self@.data[0xff04],
    {
        self.data[0xff04]
    }

    /// The timer counter TIMA.
    pub fn reg_tima(&self) -> (r: u8)
        requires
            self@.wf(),
        ensures
            r == self@.data[0xff05],
    {
        self.data[0xff05]
    }

    /// The timer reload value TMA.
    pub fn reg_tma(&self) -> (r: u8)
        requires
            self@.wf(),
        ensures
            r == self@.data[0xff06],
    {
        self.data[0xff06]
    }

    /// The timer control register TAC.
    pub fn reg_tac(&self) -> (r: u8)
        requires
            self@.wf(),
        ensures
            r == self@.data[0xff07],
    {
        self.data[0xff07]
    }

    /// The LCD control register LCDC.
    pub fn reg_lcdc(&self) -> (r: u8)
        requires
            self@.wf(),
        ensures
            r == self@.data[0xff40],
    {
        self.data[0xff40]
    }

    /// The stored STAT byte (reads through the bus synthesize bits 2 and 7).
    pub fn reg_stat(&self) -> (r: u8)
        requires
            self@.wf(),
        ensures
            r == self@.data[0xff41],
    {
        self.data[0xff41]
    }

    /// The vertical scroll register SCY.
    pub fn reg_scy(&self) -> (r: u8)
        requires
            self@.wf(),
        ensures
            r == self@.data[0xff42],
    {
        self.data[0xff42]
    }

    /// The horizontal scroll register SCX.
    pub fn reg_scx(&self) -> (r: u8)
        requires
            self@.wf(),
        ensures
            r == self@.data[0xff43],
    {
        self.data[0xff43]
    }

    /// The current scanline register LY.
    pub fn reg_ly(&self) -> (r: u8)
        requires
            self@.wf(),
        ensures
            r == self@.data[0xff44],
    {
        self.data[0xff44]
    }

    /// The last written OAM DMA source page.
    pub fn reg_dma(&self) -> (r: u8)
        requires
            self@.wf(),
        ensures
            r == self@.data[0xff46],
    {
        self.data[0xff46]
    }

    /// The window Y position register WY.
    pub fn reg_wy(&self) -> (r: u8)
        requires
            self@.wf(),
        ensures
            r == self@.data[0xff4a],
    {
        self.data[0xff4a]
    }

    /// The window X position register WX.
    pub fn reg_wx(&self) -> (r: u8)
        requires
            self@.wf(),
        ensures
            r == self@.data[0xff4b],
    {
        self.data[0xff4b]
    }
}

} // verus!
